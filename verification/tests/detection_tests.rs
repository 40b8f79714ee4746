use cpu_optimized_app::cpu_detection::{
    detect_aarch64, detect_cpu, x86_info_from, BaseFeatureFlags, CpuOverride, ExtendedFeatureFlags,
};
use cpu_optimized_app::error::AppError;

fn no_override() -> CpuOverride {
    CpuOverride { vendor: None, model: None, features: None }
}

#[test]
fn test_env_override() {
    let overrides = CpuOverride {
        vendor: Some("TestVendor".to_string()),
        model: Some("TestModel".to_string()),
        features: Some("feature1,feature2,feature3".to_string()),
    };
    let cpu_info = detect_cpu(overrides, "x86_64", None).unwrap();
    assert_eq!(cpu_info.vendor, "TestVendor");
    assert_eq!(cpu_info.model, "TestModel");
    assert_eq!(cpu_info.features, vec!["feature1", "feature2", "feature3"]);
}

#[test]
fn test_override_returns_values_verbatim() {
    let overrides = CpuOverride {
        vendor: Some("TestVendor".to_string()),
        model: None,
        features: Some("avx2,avx,sse4.2".to_string()),
    };
    let cpu_info = detect_cpu(overrides, "aarch64", None).unwrap();
    assert_eq!(cpu_info.vendor, "TestVendor");
    assert_eq!(cpu_info.model, "Unknown");
    assert_eq!(cpu_info.features, vec!["avx2", "avx", "sse4.2"]);
}

#[test]
fn test_override_needs_vendor_and_features() {
    // A vendor alone does not activate the override: detection proceeds and,
    // on an unsupported architecture, fails.
    let overrides = CpuOverride {
        vendor: Some("TestVendor".to_string()),
        model: None,
        features: None,
    };
    let result = detect_cpu(overrides, "riscv64", None);
    assert!(matches!(
        result,
        Err(AppError::CpuDetectionError(m)) if m == "Неподдерживаемая архитектура: riscv64"
    ));
}

#[test]
fn test_unsupported_architecture() {
    let result = detect_cpu(no_override(), "mips", None);
    assert!(matches!(
        result,
        Err(AppError::CpuDetectionError(m)) if m == "Неподдерживаемая архитектура: mips"
    ));
}

#[test]
fn test_x86_info_feature_order() {
    let info = x86_info_from(
        Some("GenuineIntel".to_string()),
        Some("Test CPU".to_string()),
        Some(BaseFeatureFlags { sse42: true, avx: true }),
        Some(ExtendedFeatureFlags { avx2: true }),
    )
    .unwrap();
    assert_eq!(info.vendor, "GenuineIntel");
    assert_eq!(info.model, "Test CPU");
    assert_eq!(info.features, vec!["sse4.2", "avx", "avx2"]);
}

#[test]
fn test_x86_info_partial_features() {
    let info = x86_info_from(
        Some("AuthenticAMD".to_string()),
        Some("Other CPU".to_string()),
        Some(BaseFeatureFlags { sse42: true, avx: false }),
        Some(ExtendedFeatureFlags { avx2: true }),
    )
    .unwrap();
    assert_eq!(info.features, vec!["sse4.2", "avx2"]);

    let info = x86_info_from(
        Some("AuthenticAMD".to_string()),
        Some("Other CPU".to_string()),
        Some(BaseFeatureFlags { sse42: false, avx: false }),
        Some(ExtendedFeatureFlags { avx2: false }),
    )
    .unwrap();
    assert!(info.features.is_empty());
}

#[test]
fn test_x86_info_missing_vendor() {
    let result = x86_info_from(
        None,
        Some("Test CPU".to_string()),
        Some(BaseFeatureFlags { sse42: true, avx: true }),
        Some(ExtendedFeatureFlags { avx2: true }),
    );
    assert!(matches!(
        result,
        Err(AppError::CpuDetectionError(m))
            if m == "Не удалось получить информацию о производителе"
    ));
}

#[test]
fn test_x86_info_missing_brand() {
    let result = x86_info_from(
        Some("GenuineIntel".to_string()),
        None,
        Some(BaseFeatureFlags { sse42: true, avx: true }),
        Some(ExtendedFeatureFlags { avx2: true }),
    );
    assert!(matches!(
        result,
        Err(AppError::CpuDetectionError(m))
            if m == "Не удалось получить информацию о модели процессора"
    ));
}

#[test]
fn test_x86_info_missing_feature_record() {
    let result = x86_info_from(
        Some("GenuineIntel".to_string()),
        Some("Test CPU".to_string()),
        None,
        Some(ExtendedFeatureFlags { avx2: true }),
    );
    assert!(matches!(
        result,
        Err(AppError::CpuDetectionError(m))
            if m == "Не удалось получить информацию о поддерживаемых инструкциях"
    ));
}

#[test]
fn test_x86_info_missing_extended_record() {
    let result = x86_info_from(
        Some("GenuineIntel".to_string()),
        Some("Test CPU".to_string()),
        Some(BaseFeatureFlags { sse42: true, avx: true }),
        None,
    );
    assert!(matches!(
        result,
        Err(AppError::CpuDetectionError(m))
            if m == "Не удалось получить расширенную информацию о поддерживаемых инструкциях"
    ));
}

#[test]
fn test_aarch64_parses_descriptor() {
    let text = "processor\t: 0\nHardware\t: TestBoard\nmodel name\t: Test ARM v8\nHardware\t: SecondBoard\n";
    let info = detect_aarch64(Some(text)).unwrap();
    // First matching line wins per field.
    assert_eq!(info.vendor, "TestBoard");
    assert_eq!(info.model, "Test ARM v8");
    assert_eq!(info.features, vec!["neon"]);
}

#[test]
fn test_aarch64_processor_spelling() {
    let text = "Processor\t: ARMv8 Processor rev 3\n";
    let info = detect_aarch64(Some(text)).unwrap();
    assert_eq!(info.vendor, "ARM");
    assert_eq!(info.model, "ARMv8 Processor rev 3");
}

#[test]
fn test_aarch64_defaults() {
    let info = detect_aarch64(None).unwrap();
    assert_eq!(info.vendor, "ARM");
    assert_eq!(info.model, "Unknown ARM Processor");
    assert_eq!(info.features, vec!["neon"]);

    let info = detect_aarch64(Some("")).unwrap();
    assert_eq!(info.vendor, "ARM");
    assert_eq!(info.model, "Unknown ARM Processor");
}

#[test]
fn test_detect_cpu_on_this_machine() {
    // On the x86-family host running the tests the hardware queries answer,
    // and every reported tag is one of the recognized extensions.
    let info = detect_cpu(no_override(), "x86_64", None).unwrap();
    for feature in &info.features {
        assert!(feature == "sse4.2" || feature == "avx" || feature == "avx2");
    }
}
