use fuzzor::config::{validate_config, ConfigError, FuzzEngine, Language, ProjectConfig, Sanitizer};

fn config(
    language: Language,
    engines: Option<Vec<FuzzEngine>>,
    sanitizers: Option<Vec<Sanitizer>>,
) -> ProjectConfig {
    ProjectConfig {
        name: "bitcoin".to_string(),
        owner: "bitcoin".to_string(),
        repo: "bitcoin".to_string(),
        branch: None,
        language,
        engines,
        sanitizers,
        fuzz_env_var: None,
    }
}

#[test]
fn go_without_libfuzzer_is_rejected() {
    let c = config(Language::Go, Some(vec![FuzzEngine::NativeGo]), None);
    assert_eq!(validate_config(&c), Err(ConfigError::GoNeedsLibFuzzer));
    assert_eq!(
        ConfigError::GoNeedsLibFuzzer.message(),
        "Go projects only supports LibFuzzer as fuzz engine"
    );
}

#[test]
fn go_with_libfuzzer_is_accepted() {
    let c = config(
        Language::Go,
        Some(vec![FuzzEngine::NativeGo, FuzzEngine::LibFuzzer]),
        Some(vec![Sanitizer::NoSanitizer]),
    );
    assert_eq!(validate_config(&c), Ok(()));
}

#[test]
fn rust_without_libfuzzer_is_rejected() {
    let c = config(
        Language::Rust,
        Some(vec![FuzzEngine::AflPlusPlus]),
        Some(vec![Sanitizer::NoSanitizer]),
    );
    assert_eq!(validate_config(&c), Err(ConfigError::RustNeedsLibFuzzer));
    assert_eq!(
        ConfigError::RustNeedsLibFuzzer.message(),
        "Rust projects only supports LibFuzzer as fuzz engine"
    );
}

#[test]
fn value_profile_needs_libfuzzer() {
    let c = config(
        Language::Cpp,
        Some(vec![FuzzEngine::AflPlusPlus]),
        Some(vec![Sanitizer::ValueProfile]),
    );
    assert_eq!(validate_config(&c), Err(ConfigError::ValueProfileNeedsLibFuzzer));
    assert_eq!(
        ConfigError::ValueProfileNeedsLibFuzzer.message(),
        "ValueProfile is only supported for LibFuzzer"
    );
}

#[test]
fn cmplog_needs_aflplusplus() {
    let c = config(
        Language::Cpp,
        Some(vec![FuzzEngine::LibFuzzer]),
        Some(vec![Sanitizer::NoSanitizer, Sanitizer::CmpLog]),
    );
    assert_eq!(validate_config(&c), Err(ConfigError::CmpLogNeedsAflPlusPlus));
    assert_eq!(
        ConfigError::CmpLogNeedsAflPlusPlus.message(),
        "CmpLog is only supported for AflPlusPlus"
    );
}

#[test]
fn coverage_needs_no_engine() {
    let c = config(
        Language::Cpp,
        Some(vec![FuzzEngine::LibFuzzer, FuzzEngine::AflPlusPlus]),
        Some(vec![Sanitizer::Coverage]),
    );
    assert_eq!(validate_config(&c), Err(ConfigError::CoverageNeedsNoEngine));
    assert_eq!(
        ConfigError::CoverageNeedsNoEngine.message(),
        "Coverage sanitizer needs FuzzEngine::None"
    );
    let ok = config(
        Language::Cpp,
        Some(vec![FuzzEngine::NoEngine]),
        Some(vec![Sanitizer::Coverage]),
    );
    assert_eq!(validate_config(&ok), Ok(()));
}

#[test]
fn semsan_engine_needs_a_semsan_sanitizer() {
    let c = config(
        Language::Cpp,
        Some(vec![FuzzEngine::SemSan]),
        Some(vec![Sanitizer::NoSanitizer]),
    );
    assert_eq!(validate_config(&c), Err(ConfigError::SemSanNeedsSemSanSanitizer));
    assert!(ConfigError::SemSanNeedsSemSanSanitizer
        .message()
        .starts_with("SemSan engine can only be used with at least one user defined SemSan sanitizer."));
    let ok = config(
        Language::Cpp,
        Some(vec![FuzzEngine::SemSan]),
        Some(vec![Sanitizer::SemSan("riscv".to_string())]),
    );
    assert_eq!(validate_config(&ok), Ok(()));
}

#[test]
fn configuration_without_engines_is_accepted() {
    let c = config(Language::Go, None, Some(vec![Sanitizer::CmpLog]));
    assert_eq!(validate_config(&c), Ok(()));
}

#[test]
fn rules_are_tried_in_order() {
    // Both the ValueProfile and the CmpLog rule are broken: ValueProfile is reported.
    let c = config(
        Language::Cpp,
        Some(vec![FuzzEngine::HonggFuzz]),
        Some(vec![Sanitizer::CmpLog, Sanitizer::ValueProfile]),
    );
    assert_eq!(validate_config(&c), Err(ConfigError::ValueProfileNeedsLibFuzzer));
}

#[test]
fn has_engine_and_sanitizer() {
    let c = config(
        Language::Cpp,
        Some(vec![FuzzEngine::LibFuzzer]),
        Some(vec![Sanitizer::SemSan("arm".to_string())]),
    );
    assert!(c.has_engine(&FuzzEngine::LibFuzzer));
    assert!(!c.has_engine(&FuzzEngine::HonggFuzz));
    assert!(c.has_sanitizer(&Sanitizer::SemSan("arm".to_string())));
    assert!(!c.has_sanitizer(&Sanitizer::SemSan("x86".to_string())));
    assert!(!c.has_sanitizer(&Sanitizer::NoSanitizer));
    let none = config(Language::Cpp, None, None);
    assert!(!none.has_engine(&FuzzEngine::LibFuzzer));
}
