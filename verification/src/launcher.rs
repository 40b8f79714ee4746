//! Launcher decisions: which module path to use, and what the process's own
//! exit code becomes.
//!
//! The surrounding binary reads the environment, probes the filesystem
//! location of the executable, performs the unsafe dynamic load, and exits;
//! every decision in between is a verified function here.

use vstd::prelude::*;

use crate::error::AppError;
use crate::lib_loader::{
    find_library, module_file_name_spec, path_exists, path_join_spec, priority_seq, tag_supported,
};

verus! {

/// The allocator/variant discriminator in effect: the externally supplied one,
/// or the fixed default `"system"`.
pub open spec fn allocator_choice(overridden: Option<Seq<char>>) -> Seq<char> {
    match overridden {
        Some(a) => a,
        None => "system"@,
    }
}

/// The view of an optional text.
pub open spec fn opt_string_view(t: Option<String>) -> Option<Seq<char>> {
    match t {
        Some(s) => Some(s@),
        None => None,
    }
}

/// Determines the backend module path to load.
///
/// An explicitly forced path bypasses selection entirely: it is validated for
/// existence and used directly, and the selector is never consulted — the
/// result under a forced path is either that very path or the error naming
/// it. Without one, the allocator discriminator (supplied or the default)
/// and the capability set drive the priority search of the library directory.
pub fn resolve_library_path(
    force_path: Option<String>,
    allocator_override: Option<String>,
    cpu_features: &Vec<String>,
    arch: &str,
    os: &str,
    lib_dir: &str,
) -> (r: Result<String, AppError>)
    ensures
        (force_path matches Some(p) ==> ((r matches Ok(q) && q@ == p@) || (r matches Err(e) && e
            matches AppError::PathError(m) && m@
            == "Принудительно указанная библиотека не найдена: "@
            + p@))),
        (force_path is None ==> ((r matches Ok(q) ==> exists|k: int|
            0 <= k < priority_seq().len() && tag_supported(
                cpu_features@.map_values(|f: String| f@),
                #[trigger] priority_seq()[k],
            ) && q@ == path_join_spec(
                lib_dir@,
                module_file_name_spec(
                    arch@,
                    priority_seq()[k],
                    allocator_choice(opt_string_view(allocator_override)),
                    os@,
                ),
            )) && (r matches Err(e) ==> ((e matches AppError::PathError(m) && m@
            == "Директория библиотек не найдена: "@ + lib_dir@) || (
        e matches AppError::LibraryError(m) && m@
            == "Не удалось найти подходящую библиотеку в директории: "@
            + lib_dir@))))),
{
    match force_path {
        Some(p) => {
            if path_exists(p.as_str()) {
                Ok(p)
            } else {
                Err(
                    AppError::PathError(
                        String::from_str(
                            "Принудительно указанная библиотека не найдена: ",
                        ).concat(p.as_str()),
                    ),
                )
            }
        },
        None => {
            let allocator = match allocator_override {
                Some(a) => a,
                None => String::from_str("system"),
            };
            find_library(cpu_features, allocator.as_str(), arch, os, lib_dir)
        },
    }
}

/// The process's own exit code for a finished run: a returned exit code is
/// passed through verbatim, and any error maps to the fixed failure code 1.
pub open spec fn exit_code_spec(r: Result<i32, AppError>) -> i32 {
    match r {
        Ok(c) => c,
        Err(_) => 1,
    }
}

/// Maps the result of a run to the process's own exit code.
pub fn exit_code_of(r: &Result<i32, AppError>) -> (c: i32)
    ensures
        c == exit_code_spec(*r),
{
    match r {
        Ok(code) => *code,
        Err(_) => 1,
    }
}

/// Round trip of exit codes: when loading reports that the entry point
/// finished with exit code `c` — so the run's result is `Ok(c)`, as the
/// loading layer guarantees for a finished entry point — the launcher's own
/// exit code is exactly `c`. Nonzero "soft failure" codes pass through
/// unchanged.
pub proof fn lemma_exit_code_round_trip(c: i32, r: Result<i32, AppError>)
    requires
        r == Ok::<i32, AppError>(c),
    ensures
        exit_code_spec(r) == c,
{
}

} // verus!
