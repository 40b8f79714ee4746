//! Launcher library for CPU-feature-specialized backend modules.
//!
//! At startup the launcher probes the host CPU (vendor, model, instruction-set
//! extensions), picks the most capable backend module present in a `lib`
//! directory according to a fixed priority list of feature tags, and hands the
//! module path to the loading layer, which opens it and invokes its single
//! exported entry point. This crate holds the verified core: capability
//! detection, priority-ordered selection, and the error taxonomy of loading.
//! The unverifiable edges (environment reads, process exit, the unsafe dynamic
//! load itself) live in the thin binary around it.

pub mod core_info;
pub mod cpu_detection;
pub mod error;
pub mod launcher;
pub mod lib_loader;
pub mod text;

pub use cpu_detection::{detect_cpu, CpuInfo, CpuOverride};
pub use error::AppError;
pub use launcher::{exit_code_of, resolve_library_path};
pub use lib_loader::{find_library, load_outcome_result, select_library, LoadOutcome};
