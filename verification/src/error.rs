//! Error taxonomy of the launcher.
//!
//! Every way the launcher can fail is one variant here, each carrying a
//! human-readable detail string. All errors are terminal: they are surfaced
//! once at the process boundary and never retried.

use vstd::prelude::*;

verus! {

/// The launcher's error type.
///
/// Each variant stands for one failure class: input/output trouble, a missing
/// or invalid filesystem path, a module that could not be opened or found, a
/// module whose entry point could not be resolved, a failed hardware probe, an
/// application-level error reported by the entry point itself, and a catch-all.
#[derive(Debug)]
pub enum AppError {
    /// Input/output failure, carrying the underlying error's text.
    IoError(String),
    /// A filesystem path that is required but missing or undeterminable.
    PathError(String),
    /// A module could not be opened, or no matching module file was found.
    LibraryError(String),
    /// A module was opened but its required entry point was not resolvable.
    FunctionCallError(String),
    /// A hardware capability probe was unavailable or the architecture is unsupported.
    CpuDetectionError(String),
    /// The entry point ran but reported an application-level error.
    CoreLibError(String),
    /// Any other failure.
    Unknown(String),
}

impl AppError {
    /// The full human-readable message for this error: a fixed prefix naming
    /// the failure class, followed by the detail string.
    pub open spec fn message_spec(&self) -> Seq<char> {
        match self {
            AppError::IoError(s) => "Ошибка ввода-вывода: "@ + s@,
            AppError::PathError(s) => "Ошибка пути: "@ + s@,
            AppError::LibraryError(s) => "Ошибка загрузки библиотеки: "@ + s@,
            AppError::FunctionCallError(s) => "Ошибка вызова функции: "@ + s@,
            AppError::CpuDetectionError(s) => "Ошибка определения процессора: "@ + s@,
            AppError::CoreLibError(s) => "Ошибка в core_lib: "@ + s@,
            AppError::Unknown(s) => "Неизвестная ошибка: "@ + s@,
        }
    }

    /// Renders the human-readable message for this error.
    pub fn message(&self) -> (r: String)
        ensures
            r@ == self.message_spec(),
    {
        match self {
            AppError::IoError(s) => String::from_str("Ошибка ввода-вывода: ").concat(s.as_str()),
            AppError::PathError(s) => String::from_str("Ошибка пути: ").concat(s.as_str()),
            AppError::LibraryError(s) => String::from_str("Ошибка загрузки библиотеки: ").concat(
                s.as_str(),
            ),
            AppError::FunctionCallError(s) => String::from_str("Ошибка вызова функции: ").concat(
                s.as_str(),
            ),
            AppError::CpuDetectionError(s) => String::from_str(
                "Ошибка определения процессора: ",
            ).concat(s.as_str()),
            AppError::CoreLibError(s) => String::from_str("Ошибка в core_lib: ").concat(s.as_str()),
            AppError::Unknown(s) => String::from_str("Неизвестная ошибка: ").concat(s.as_str()),
        }
    }
}

} // verus!
