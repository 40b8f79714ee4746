//! Backend module selection and the loading error taxonomy.
//!
//! Selection walks a fixed priority list of feature tags, best to worst,
//! ending in the universal `"base"` tag. For each tag the capability set is
//! consulted (after separator normalization), the platform's module file name
//! is composed, and the first candidate whose file is present wins. Loading
//! itself is an unsafe dynamic-library call that lives outside the verified
//! core; its every outcome is classified here into the error taxonomy.

use vstd::prelude::*;

use crate::error::AppError;
use crate::text::{normalize_spec, normalize_tag, str_eq};

verus! {

/// The fixed priority list of feature tags, most to least specialized,
/// terminated by the universal fallback tag `"base"`.
pub open spec fn priority_seq() -> Seq<Seq<char>> {
    seq!["avx2"@, "avx"@, "sse4.2"@, "neon"@, "base"@]
}

/// The priority tag at position `i`.
pub fn priority_tag(i: usize) -> (r: &'static str)
    requires
        i < 5,
    ensures
        r@ == priority_seq()[i as int],
{
    if i == 0 {
        "avx2"
    } else if i == 1 {
        "avx"
    } else if i == 2 {
        "sse4.2"
    } else if i == 3 {
        "neon"
    } else {
        "base"
    }
}

/// Whether the capability set supports a tag: the universal tag `"base"` is
/// always supported, any other tag must occur in the set up to separator
/// normalization.
pub open spec fn tag_supported(features: Seq<Seq<char>>, tag: Seq<char>) -> bool {
    tag == "base"@ || exists|k: int|
        0 <= k < features.len() && normalize_spec(features[k]) == normalize_spec(tag)
}

/// Decides whether the capability set supports the given tag.
pub fn is_supported(features: &Vec<String>, tag: &str) -> (r: bool)
    ensures
        r == tag_supported(features@.map_values(|f: String| f@), tag@),
{
    let ghost fv = features@.map_values(|f: String| f@);
    if str_eq(tag, "base") {
        return true;
    }
    let ntag = normalize_tag(tag);
    let mut k: usize = 0;
    while k < features.len()
        invariant
            k <= features@.len(),
            fv == features@.map_values(|f: String| f@),
            ntag@ == normalize_spec(tag@),
            forall|j: int| 0 <= j < k ==> normalize_spec(fv[j]) != normalize_spec(tag@),
        decreases features@.len() - k,
    {
        let nf = normalize_tag(features[k].as_str());
        if str_eq(nf.as_str(), ntag.as_str()) {
            proof {
                assert(fv[k as int] == features@[k as int]@);
                assert(normalize_spec(fv[k as int]) == normalize_spec(tag@));
            }
            return true;
        }
        k = k + 1;
    }
    false
}

/// The platform's file-name prefix for dynamic modules: none on Windows,
/// `"lib"` everywhere else.
pub open spec fn lib_prefix_spec(os: Seq<char>) -> Seq<char> {
    if os == "windows"@ {
        Seq::<char>::empty()
    } else {
        "lib"@
    }
}

/// The platform's file-name extension for dynamic modules.
pub open spec fn lib_ext_spec(os: Seq<char>) -> Seq<char> {
    if os == "windows"@ {
        "dll"@
    } else if os == "macos"@ {
        "dylib"@
    } else {
        "so"@
    }
}

/// The expected file name of the backend module built for the given
/// architecture, feature tag and allocator variant, following the platform's
/// native library-naming convention. The tag appears in normalized form.
pub open spec fn module_file_name_spec(
    arch: Seq<char>,
    tag: Seq<char>,
    allocator: Seq<char>,
    os: Seq<char>,
) -> Seq<char> {
    lib_prefix_spec(os) + arch + "_"@ + normalize_spec(tag) + "_"@ + allocator + "."@ + lib_ext_spec(
        os,
    )
}

/// Composes the expected module file name for one candidate tag.
pub fn module_file_name(arch: &str, tag: &str, allocator: &str, os: &str) -> (r: String)
    ensures
        r@ == module_file_name_spec(arch@, tag@, allocator@, os@),
{
    let prefix: &str = if str_eq(os, "windows") {
        ""
    } else {
        "lib"
    };
    let ext: &str = if str_eq(os, "windows") {
        "dll"
    } else if str_eq(os, "macos") {
        "dylib"
    } else {
        "so"
    };
    proof {
        reveal_strlit("");
        assert(""@ =~= Seq::<char>::empty());
    }
    let ntag = normalize_tag(tag);
    let mut r = String::from_str(prefix);
    r.append(arch);
    r.append("_");
    r.append(ntag.as_str());
    r.append("_");
    r.append(allocator);
    r.append(".");
    r.append(ext);
    r
}

/// A directory path joined with a file name.
pub open spec fn path_join_spec(dir: Seq<char>, name: Seq<char>) -> Seq<char> {
    dir + "/"@ + name
}

/// Joins a directory path and a file name.
pub fn path_join(dir: &str, name: &str) -> (r: String)
    ensures
        r@ == path_join_spec(dir@, name@),
{
    let mut r = String::from_str(dir);
    r.append("/");
    r.append(name);
    r
}

/// Whether one candidate tag wins: the capability set supports it and its
/// module file is among the present file names.
pub open spec fn candidate_ok(
    features: Seq<Seq<char>>,
    allocator: Seq<char>,
    arch: Seq<char>,
    os: Seq<char>,
    present: Seq<Seq<char>>,
    tag: Seq<char>,
) -> bool {
    tag_supported(features, tag) && present.contains(module_file_name_spec(arch, tag, allocator, os))
}

/// The first tag of `tags`, in order, that is supported and whose module file
/// is present, mapped to that module's file name.
pub open spec fn select_from(
    tags: Seq<Seq<char>>,
    features: Seq<Seq<char>>,
    allocator: Seq<char>,
    arch: Seq<char>,
    os: Seq<char>,
    present: Seq<Seq<char>>,
) -> Option<Seq<char>>
    decreases tags.len(),
{
    if tags.len() == 0 {
        None
    } else if candidate_ok(features, allocator, arch, os, present, tags.first()) {
        Some(module_file_name_spec(arch, tags.first(), allocator, os))
    } else {
        select_from(tags.drop_first(), features, allocator, arch, os, present)
    }
}

/// The module file name that selection picks from the fixed priority list,
/// given the capability set and the file names present on disk.
pub open spec fn select_spec(
    features: Seq<Seq<char>>,
    allocator: Seq<char>,
    arch: Seq<char>,
    os: Seq<char>,
    present: Seq<Seq<char>>,
) -> Option<Seq<char>> {
    select_from(priority_seq(), features, allocator, arch, os, present)
}

/// Decides whether `name` occurs among the given file names.
fn name_present(present: &Vec<String>, name: &str) -> (r: bool)
    ensures
        r == present@.map_values(|t: String| t@).contains(name@),
{
    let ghost pv = present@.map_values(|t: String| t@);
    let mut k: usize = 0;
    while k < present.len()
        invariant
            k <= present@.len(),
            pv == present@.map_values(|t: String| t@),
            forall|j: int| 0 <= j < k ==> pv[j] != name@,
        decreases present@.len() - k,
    {
        if str_eq(present[k].as_str(), name) {
            assert(pv[k as int] == name@);
            return true;
        }
        k = k + 1;
    }
    false
}

/// Picks the best backend module from an explicit list of present file names.
///
/// This is the deterministic core of selection: the priority tags are tried
/// best to worst and the first supported tag whose file name occurs in
/// `present` wins.
pub fn select_library(
    cpu_features: &Vec<String>,
    allocator: &str,
    arch: &str,
    os: &str,
    present: &Vec<String>,
) -> (r: Option<String>)
    ensures
        (r matches Some(name) ==> select_spec(
            cpu_features@.map_values(|f: String| f@),
            allocator@,
            arch@,
            os@,
            present@.map_values(|t: String| t@),
        ) == Some(name@)),
        (r is None ==> select_spec(
            cpu_features@.map_values(|f: String| f@),
            allocator@,
            arch@,
            os@,
            present@.map_values(|t: String| t@),
        ) is None),
{
    let ghost fv = cpu_features@.map_values(|f: String| f@);
    let ghost pv = present@.map_values(|t: String| t@);
    proof {
        assert(priority_seq().skip(0) =~= priority_seq());
    }
    let mut i: usize = 0;
    while i < 5
        invariant
            i <= 5,
            fv == cpu_features@.map_values(|f: String| f@),
            pv == present@.map_values(|t: String| t@),
            select_from(priority_seq().skip(i as int), fv, allocator@, arch@, os@, pv)
                == select_spec(fv, allocator@, arch@, os@, pv),
        decreases 5 - i,
    {
        let tag = priority_tag(i);
        proof {
            assert(priority_seq().skip(i as int).first() == priority_seq()[i as int]);
            assert(priority_seq().skip(i as int).drop_first() =~= priority_seq().skip(i + 1));
        }
        if is_supported(cpu_features, tag) {
            let name = module_file_name(arch, tag, allocator, os);
            if name_present(present, name.as_str()) {
                return Some(name);
            }
        }
        i = i + 1;
    }
    proof {
        assert(priority_seq().skip(5) =~= Seq::<Seq<char>>::empty());
    }
    None
}

/// If some tag of `tags` is a winning candidate, selection over `tags` succeeds.
proof fn lemma_select_from_finds(
    tags: Seq<Seq<char>>,
    features: Seq<Seq<char>>,
    allocator: Seq<char>,
    arch: Seq<char>,
    os: Seq<char>,
    present: Seq<Seq<char>>,
    k: int,
)
    requires
        0 <= k < tags.len(),
        candidate_ok(features, allocator, arch, os, present, tags[k]),
    ensures
        select_from(tags, features, allocator, arch, os, present) is Some,
    decreases tags.len(),
{
    if !candidate_ok(features, allocator, arch, os, present, tags.first()) {
        assert(k != 0);
        assert(tags.drop_first()[k - 1] == tags[k]);
        lemma_select_from_finds(tags.drop_first(), features, allocator, arch, os, present, k - 1);
    }
}

/// Selection always has a result when the universal fallback's module file is
/// present: whatever the capability set holds, `"base"` is supported, so the
/// base candidate matches and the finite priority list cannot be exhausted
/// without an answer.
pub proof fn lemma_base_fallback_selects(
    features: Seq<Seq<char>>,
    allocator: Seq<char>,
    arch: Seq<char>,
    os: Seq<char>,
    present: Seq<Seq<char>>,
)
    requires
        present.contains(module_file_name_spec(arch, "base"@, allocator, os)),
    ensures
        select_spec(features, allocator, arch, os, present) is Some,
{
    assert(priority_seq()[4] == "base"@);
    assert(tag_supported(features, "base"@));
    lemma_select_from_finds(priority_seq(), features, allocator, arch, os, present, 4);
}

/// The normalized tag occupies a fixed slice of the composed module file name.
proof fn lemma_tag_position(arch: Seq<char>, tag: Seq<char>, allocator: Seq<char>, os: Seq<char>, j: int)
    requires
        0 <= j < normalize_spec(tag).len(),
    ensures
        module_file_name_spec(arch, tag, allocator, os)[lib_prefix_spec(os).len() + arch.len() + 1
            + j] == normalize_spec(tag)[j],
{
    reveal_strlit("_");
    reveal_strlit(".");
}

/// Two tags whose normalized forms have equal length but differ give the same
/// architecture, allocator and platform two different module file names.
pub proof fn lemma_distinct_names(
    arch: Seq<char>,
    t1: Seq<char>,
    t2: Seq<char>,
    allocator: Seq<char>,
    os: Seq<char>,
)
    requires
        normalize_spec(t1).len() == normalize_spec(t2).len(),
        normalize_spec(t1) != normalize_spec(t2),
    ensures
        module_file_name_spec(arch, t1, allocator, os) != module_file_name_spec(
            arch,
            t2,
            allocator,
            os,
        ),
{
    if module_file_name_spec(arch, t1, allocator, os) == module_file_name_spec(
        arch,
        t2,
        allocator,
        os,
    ) {
        assert(normalize_spec(t1) =~= normalize_spec(t2)) by {
            assert forall|j: int| 0 <= j < normalize_spec(t1).len() implies normalize_spec(t1)[j]
                == normalize_spec(t2)[j] by {
                lemma_tag_position(arch, t1, allocator, os, j);
                lemma_tag_position(arch, t2, allocator, os, j);
            }
        }
    }
}

/// Priority is respected: when the capability set supports `"avx2"` and the
/// avx2 module file is present, selection picks the avx2 module's file name —
/// never the base fallback's, whatever else is present.
pub proof fn lemma_priority_respected(
    features: Seq<Seq<char>>,
    allocator: Seq<char>,
    arch: Seq<char>,
    os: Seq<char>,
    present: Seq<Seq<char>>,
)
    requires
        tag_supported(features, "avx2"@),
        present.contains(module_file_name_spec(arch, "avx2"@, allocator, os)),
    ensures
        select_spec(features, allocator, arch, os, present) == Some(
            module_file_name_spec(arch, "avx2"@, allocator, os),
        ),
        module_file_name_spec(arch, "avx2"@, allocator, os) != module_file_name_spec(
            arch,
            "base"@,
            allocator,
            os,
        ),
{
    assert(priority_seq().first() == "avx2"@);
    assert(candidate_ok(features, allocator, arch, os, present, "avx2"@));
    reveal_strlit("avx2");
    reveal_strlit("base");
    assert(normalize_spec("avx2"@).len() == normalize_spec("base"@).len());
    assert(normalize_spec("avx2"@)[0] == 'a');
    assert(normalize_spec("base"@)[0] == 'b');
    assert(normalize_spec("avx2"@) != normalize_spec("base"@));
    lemma_distinct_names(arch, "avx2"@, "base"@, allocator, os);
}

/// Relies on std's `Path::exists`: whether the path refers to an entry
/// present on the filesystem right now. The answer depends on the state of
/// the disk, so nothing is assumed of it.
#[verifier::external_body]
pub(crate) fn path_exists(p: &str) -> bool {
    std::path::Path::new(p).exists()
}

/// Searches the library directory for the best matching backend module.
///
/// The priority tags are tried best to worst; for each supported tag the
/// expected module file name is composed and the first candidate that exists
/// on disk wins. A missing library directory is reported as a `PathError`,
/// distinct from the `LibraryError` reported when the directory exists but no
/// candidate file does.
pub fn find_library(
    cpu_features: &Vec<String>,
    allocator: &str,
    arch: &str,
    os: &str,
    lib_dir: &str,
) -> (r: Result<String, AppError>)
    ensures
        (r matches Ok(p) ==> exists|k: int|
            0 <= k < priority_seq().len() && tag_supported(
                cpu_features@.map_values(|f: String| f@),
                #[trigger] priority_seq()[k],
            ) && p@ == path_join_spec(
                lib_dir@,
                module_file_name_spec(arch@, priority_seq()[k], allocator@, os@),
            )),
        (r matches Err(e) ==> ((e matches AppError::PathError(m) && m@
            == "Директория библиотек не найдена: "@ + lib_dir@) || (
        e matches AppError::LibraryError(m) && m@
            == "Не удалось найти подходящую библиотеку в директории: "@
            + lib_dir@))),
{
    if !path_exists(lib_dir) {
        return Err(
            AppError::PathError(
                String::from_str("Директория библиотек не найдена: ").concat(
                    lib_dir,
                ),
            ),
        );
    }
    let ghost fv = cpu_features@.map_values(|f: String| f@);
    let mut i: usize = 0;
    while i < 5
        invariant
            i <= 5,
            fv == cpu_features@.map_values(|f: String| f@),
        decreases 5 - i,
    {
        let tag = priority_tag(i);
        if is_supported(cpu_features, tag) {
            let name = module_file_name(arch, tag, allocator, os);
            let path = path_join(lib_dir, name.as_str());
            if path_exists(path.as_str()) {
                return Ok(path);
            }
        }
        i = i + 1;
    }
    Err(
        AppError::LibraryError(
            String::from_str(
                "Не удалось найти подходящую библиотеку в директории: ",
            ).concat(lib_dir),
        ),
    )
}

/// What one load-resolve-invoke cycle came to, as reported by the unverified
/// dynamic-loading edge: the module could not be opened, the module was opened
/// but the required entry point was missing, the entry point ran and reported
/// an application-level error, or the entry point finished with an exit code.
pub enum LoadOutcome {
    /// Opening the module failed; carries the loader's error text.
    OpenFailed(String),
    /// The module was opened but the exported entry point was not found.
    SymbolMissing(String),
    /// The entry point was invoked and returned an application-level error.
    RunFailed(String),
    /// The entry point was invoked and returned this exit code.
    Finished(i32),
}

/// Classifies the outcome of one load-resolve-invoke cycle into the error
/// taxonomy: a failure to open is a `LibraryError`, a missing entry point is a
/// `FunctionCallError`, an error from the entry point itself is a
/// `CoreLibError`, and a returned exit code is passed through verbatim.
pub fn load_outcome_result(lib_path: &str, outcome: LoadOutcome) -> (r: Result<i32, AppError>)
    ensures
        (outcome matches LoadOutcome::OpenFailed(t) ==> r matches Err(e) && e
            matches AppError::LibraryError(m) && m@
            == "Не удалось загрузить библиотеку "@ + lib_path@ + ": "@
            + t@),
        (outcome matches LoadOutcome::SymbolMissing(t) ==> r matches Err(e) && e
            matches AppError::FunctionCallError(m) && m@
            == "Не удалось найти функцию 'run' в библиотеке: "@ + t@),
        (outcome matches LoadOutcome::RunFailed(t) ==> r matches Err(e) && e
            matches AppError::CoreLibError(m) && m@ == t@),
        (outcome matches LoadOutcome::Finished(c) ==> r == Ok::<i32, AppError>(c)),
{
    match outcome {
        LoadOutcome::OpenFailed(t) => {
            let mut m = String::from_str("Не удалось загрузить библиотеку ");
            m.append(lib_path);
            m.append(": ");
            m.append(t.as_str());
            Err(AppError::LibraryError(m))
        },
        LoadOutcome::SymbolMissing(t) => Err(
            AppError::FunctionCallError(
                String::from_str(
                    "Не удалось найти функцию 'run' в библиотеке: ",
                ).concat(t.as_str()),
            ),
        ),
        LoadOutcome::RunFailed(t) => Err(AppError::CoreLibError(t)),
        LoadOutcome::Finished(c) => Ok(c),
    }
}

} // verus!
