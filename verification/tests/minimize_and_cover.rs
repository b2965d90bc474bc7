use fuzzor::config::{FuzzEngine, Language, ProjectConfig, Sanitizer};
use fuzzor::coverage::{
    coverage_export_args, coverage_html_args, coverage_run_args, demangler, profdata_merge_args,
};
use fuzzor::minimizer::{
    minimization_failed, minimize_command, minimizer_applies, minimizer_plan, needs_harness_binary,
    Minimizer,
};

fn config(engines: Vec<FuzzEngine>, sanitizers: Vec<Sanitizer>) -> ProjectConfig {
    ProjectConfig {
        name: "lnd".to_string(),
        owner: "lightningnetwork".to_string(),
        repo: "lnd".to_string(),
        branch: Some("master".to_string()),
        language: Language::Go,
        engines: Some(engines),
        sanitizers: Some(sanitizers),
        fuzz_env_var: None,
    }
}

fn strs(v: &[&str]) -> Vec<String> {
    v.iter().map(|s| s.to_string()).collect()
}

#[test]
fn plan_follows_engines_and_plain_build() {
    let c = config(
        vec![FuzzEngine::NativeGo, FuzzEngine::LibFuzzer],
        vec![Sanitizer::NoSanitizer],
    );
    assert_eq!(minimizer_plan(&c), vec![Minimizer::LibFuzzer, Minimizer::NativeGo]);
    assert!(minimizer_applies(&c, Minimizer::NativeGo));
    assert!(!minimizer_applies(&c, Minimizer::Afl));
    let no_plain = config(vec![FuzzEngine::LibFuzzer], vec![Sanitizer::ValueProfile]);
    assert_eq!(minimizer_plan(&no_plain), vec![]);
}

#[test]
fn minimize_commands() {
    assert_eq!(
        minimize_command(Minimizer::Afl, "in", "out", "/bin/h"),
        ("afl-cmin".to_string(), strs(&["-i", "in", "-o", "out", "--", "/bin/h"]))
    );
    assert_eq!(
        minimize_command(Minimizer::LibFuzzer, "in", "out", "/bin/h"),
        (
            "/bin/h".to_string(),
            strs(&[
                "-rss_limit_mb=8000",
                "-set_cover_merge=1",
                "-shuffle=0",
                "-prefer_small=1",
                "-use_value_profile=0",
                "out",
                "in"
            ])
        )
    );
    assert_eq!(
        minimize_command(Minimizer::HonggFuzz, "in", "out", "/bin/h"),
        (
            "honggfuzz".to_string(),
            strs(&["--input", "in", "--output", "out", "--minimize", "--", "/bin/h"])
        )
    );
    assert_eq!(
        minimize_command(Minimizer::NativeGo, "in", "out", ""),
        ("cp".to_string(), strs(&["-r", "in", "out"]))
    );
    assert!(!needs_harness_binary(Minimizer::NativeGo));
    assert!(needs_harness_binary(Minimizer::HonggFuzz));
}

#[test]
fn minimization_fails_only_without_success() {
    assert!(minimization_failed(&vec![]));
    assert!(minimization_failed(&vec![false, false]));
    assert!(!minimization_failed(&vec![false, true]));
}

#[test]
fn coverage_commands() {
    assert_eq!(coverage_run_args("corpus"), strs(&["-runs=1", "corpus"]));
    assert_eq!(
        profdata_merge_args(),
        strs(&["merge", "-sparse", "default.profraw", "-o", "default.profdata"])
    );
    assert_eq!(
        coverage_export_args("/bin/cov"),
        strs(&["export", "/bin/cov", "-summary-only", "-instr-profile=default.profdata"])
    );
    let base = [
        "show",
        "/bin/cov",
        "-instr-profile=default.profdata",
        "-format=html",
        "-show-directory-coverage",
        "-show-branches=count",
        "-output-dir=/workdir/coverage_report",
    ];
    let mut rust = strs(&base);
    rust.push("-Xdemangler=rustfilt".to_string());
    assert_eq!(coverage_html_args("/bin/cov", Language::Rust), rust);
    let mut cpp = strs(&base);
    cpp.push("-Xdemangler=c++filt".to_string());
    assert_eq!(coverage_html_args("/bin/cov", Language::Cpp), cpp);
    assert_eq!(coverage_html_args("/bin/cov", Language::Go), strs(&base));
    assert_eq!(demangler(Language::Other), None);
}
