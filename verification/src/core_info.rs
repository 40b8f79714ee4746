//! Rendering of the backend's self-description lines.
//!
//! A backend module announces, when it starts, which instruction-set
//! optimizations it was built with and which memory allocator it uses. The
//! lines themselves are plain functions of the build tags.

use vstd::prelude::*;

use crate::text::{join_spec, join_with, str_eq};

verus! {

/// The line describing the backend's instruction-set optimizations: the fixed
/// base-optimizations text when none are named, otherwise the names joined
/// with commas.
pub open spec fn optimization_info_spec(optimizations: Seq<Seq<char>>) -> Seq<char> {
    if optimizations.len() == 0 {
        "Используются базовые оптимизации"@
    } else {
        "Используемые оптимизации: "@ + join_spec(optimizations, ", "@)
    }
}

/// Renders the line describing the backend's instruction-set optimizations.
pub fn print_optimization_info(optimizations: &Vec<String>) -> (r: String)
    ensures
        r@ == optimization_info_spec(optimizations@.map_values(|t: String| t@)),
{
    if optimizations.len() == 0 {
        String::from_str("Используются базовые оптимизации")
    } else {
        let joined = join_with(optimizations, ", ");
        String::from_str("Используемые оптимизации: ").concat(joined.as_str())
    }
}

/// The line describing the backend's memory allocator: the default allocator
/// is marked as the standard one, any other is named verbatim.
pub open spec fn allocator_info_spec(allocator: Seq<char>) -> Seq<char> {
    if allocator == "system"@ {
        "Используемый аллокатор: system (стандартный)"@
    } else {
        "Используемый аллокатор: "@ + allocator
    }
}

/// Renders the line describing the backend's memory allocator.
pub fn print_allocator_info(allocator: &str) -> (r: String)
    ensures
        r@ == allocator_info_spec(allocator@),
{
    if str_eq(allocator, "system") {
        String::from_str("Используемый аллокатор: system (стандартный)")
    } else {
        String::from_str("Используемый аллокатор: ").concat(allocator)
    }
}

} // verus!
