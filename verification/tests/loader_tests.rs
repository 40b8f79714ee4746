use cpu_optimized_app::core_info::{print_allocator_info, print_optimization_info};
use cpu_optimized_app::error::AppError;
use cpu_optimized_app::launcher::{exit_code_of, resolve_library_path};
use cpu_optimized_app::lib_loader::{load_outcome_result, LoadOutcome};

fn strings(items: &[&str]) -> Vec<String> {
    items.iter().map(|s| s.to_string()).collect()
}

#[test]
fn test_open_failure_is_library_error() {
    // A path that cannot be opened is a library-open error.
    let result = load_outcome_result(
        "/tmp/missing.so",
        LoadOutcome::OpenFailed("no such file".to_string()),
    );
    assert!(matches!(
        result,
        Err(AppError::LibraryError(m))
            if m == "Не удалось загрузить библиотеку /tmp/missing.so: no such file"
    ));
}

#[test]
fn test_missing_symbol_is_function_call_error() {
    // A module without the required exported symbol is a symbol-resolution
    // error, not a crash.
    let result = load_outcome_result(
        "/tmp/backend.so",
        LoadOutcome::SymbolMissing("run not found".to_string()),
    );
    assert!(matches!(
        result,
        Err(AppError::FunctionCallError(m))
            if m == "Не удалось найти функцию 'run' в библиотеке: run not found"
    ));
}

#[test]
fn test_entry_point_error_is_core_lib_error() {
    let result =
        load_outcome_result("/tmp/backend.so", LoadOutcome::RunFailed("boom".to_string()));
    assert!(matches!(result, Err(AppError::CoreLibError(m)) if m == "boom"));
}

#[test]
fn test_exit_code_round_trip() {
    // An entry point returning 0 makes the launcher exit with 0; one
    // returning 3 makes it exit with 3.
    let result = load_outcome_result("/tmp/backend.so", LoadOutcome::Finished(0));
    assert!(matches!(result, Ok(0)));
    assert_eq!(exit_code_of(&result), 0);

    let result = load_outcome_result("/tmp/backend.so", LoadOutcome::Finished(3));
    assert!(matches!(result, Ok(3)));
    assert_eq!(exit_code_of(&result), 3);
}

#[test]
fn test_exit_code_on_error() {
    let result: Result<i32, AppError> = Err(AppError::Unknown("x".to_string()));
    assert_eq!(exit_code_of(&result), 1);
}

#[test]
fn test_forced_path_bypasses_selection() {
    // With a forced path that exists, selection is never consulted: the
    // library directory handed in does not even exist, yet the forced path
    // comes back untouched.
    let cpu_features = strings(&["avx2"]);
    let result = resolve_library_path(
        Some("/proc/cpuinfo".to_string()),
        None,
        &cpu_features,
        "x86_64",
        "linux",
        "/nonexistent_library_directory_for_this_test",
    );
    assert_eq!(result.unwrap(), "/proc/cpuinfo");
}

#[test]
fn test_forced_path_must_exist() {
    let cpu_features = strings(&["avx2"]);
    let result = resolve_library_path(
        Some("/nonexistent_forced_backend.so".to_string()),
        None,
        &cpu_features,
        "x86_64",
        "linux",
        "/",
    );
    assert!(matches!(
        result,
        Err(AppError::PathError(m))
            if m == "Принудительно указанная библиотека не найдена: /nonexistent_forced_backend.so"
    ));
}

#[test]
fn test_resolution_without_force_searches_directory() {
    let cpu_features = strings(&["avx2"]);
    let result = resolve_library_path(
        None,
        Some("jemalloc".to_string()),
        &cpu_features,
        "x86_64",
        "linux",
        "/nonexistent_library_directory_for_this_test",
    );
    assert!(matches!(
        result,
        Err(AppError::PathError(m))
            if m == "Директория библиотек не найдена: /nonexistent_library_directory_for_this_test"
    ));
}

#[test]
fn test_error_messages() {
    assert_eq!(
        AppError::Unknown("тестовая ошибка".to_string()).message(),
        "Неизвестная ошибка: тестовая ошибка"
    );
    assert_eq!(
        AppError::IoError("файл не найден".to_string()).message(),
        "Ошибка ввода-вывода: файл не найден"
    );
    assert_eq!(AppError::PathError("p".to_string()).message(), "Ошибка пути: p");
    assert_eq!(
        AppError::LibraryError("l".to_string()).message(),
        "Ошибка загрузки библиотеки: l"
    );
    assert_eq!(
        AppError::FunctionCallError("f".to_string()).message(),
        "Ошибка вызова функции: f"
    );
    assert_eq!(
        AppError::CpuDetectionError("c".to_string()).message(),
        "Ошибка определения процессора: c"
    );
    assert_eq!(AppError::CoreLibError("x".to_string()).message(), "Ошибка в core_lib: x");
}

#[test]
fn test_optimization_info() {
    assert_eq!(print_optimization_info(&strings(&[])), "Используются базовые оптимизации");
    assert_eq!(
        print_optimization_info(&strings(&["AVX2", "AVX"])),
        "Используемые оптимизации: AVX2, AVX"
    );
}

#[test]
fn test_allocator_info() {
    assert_eq!(
        print_allocator_info("system"),
        "Используемый аллокатор: system (стандартный)"
    );
    assert_eq!(print_allocator_info("jemalloc"), "Используемый аллокатор: jemalloc");
    assert_eq!(print_allocator_info("mimalloc"), "Используемый аллокатор: mimalloc");
}
