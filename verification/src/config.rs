use vstd::prelude::*;

verus! {

/// Programming language of a fuzzed project.
#[derive(PartialEq, Eq, Structural, Clone, Copy, Debug)]
pub enum Language {
    Cpp,
    Go,
    Rust,
    /// Any other language; no rule of the infrastructure depends on it.
    Other,
}

/// Fuzzing engine a harness can be built for.  `NoEngine` is the plain
/// build without a fuzzing engine (used for coverage reports).
#[derive(PartialEq, Eq, Structural, Clone, Copy, Debug)]
pub enum FuzzEngine {
    LibFuzzer,
    AflPlusPlus,
    HonggFuzz,
    NativeGo,
    SemSan,
    NoEngine,
    /// Any other engine; no rule of the infrastructure depends on it.
    Other,
}

/// Sanitizer (instrumentation flavour) a harness can be built with.
/// `NoSanitizer` is the build without any sanitizer.
#[derive(Clone, Debug)]
pub enum Sanitizer {
    NoSanitizer,
    ValueProfile,
    CmpLog,
    Coverage,
    /// A user defined SemSan build, named by its build step.
    SemSan(String),
    /// Any other sanitizer (e.g. address or undefined behaviour); no rule
    /// of the infrastructure depends on it, and it is never the same
    /// flavour as a sanitizer the rules name.
    Other,
}

/// The configuration of a fuzzed project, as far as the infrastructure
/// decides anything from it.
#[derive(Clone, Debug)]
pub struct ProjectConfig {
    pub name: String,
    pub owner: String,
    pub repo: String,
    pub branch: Option<String>,
    pub language: Language,
    pub engines: Option<Vec<FuzzEngine>>,
    pub sanitizers: Option<Vec<Sanitizer>>,
    pub fuzz_env_var: Option<String>,
}

/// The engines a configuration lists (empty when it lists none).
pub open spec fn listed_engines(c: ProjectConfig) -> Seq<FuzzEngine> {
    match c.engines {
        Some(v) => v@,
        None => Seq::empty(),
    }
}

/// The sanitizers a configuration lists (empty when it lists none).
pub open spec fn listed_sanitizers(c: ProjectConfig) -> Seq<Sanitizer> {
    match c.sanitizers {
        Some(v) => v@,
        None => Seq::empty(),
    }
}

/// Two sanitizers are the same build flavour (SemSan builds by name).
pub open spec fn same_sanitizer(a: Sanitizer, b: Sanitizer) -> bool {
    match (a, b) {
        (Sanitizer::NoSanitizer, Sanitizer::NoSanitizer) => true,
        (Sanitizer::ValueProfile, Sanitizer::ValueProfile) => true,
        (Sanitizer::CmpLog, Sanitizer::CmpLog) => true,
        (Sanitizer::Coverage, Sanitizer::Coverage) => true,
        (Sanitizer::SemSan(x), Sanitizer::SemSan(y)) => x@ == y@,
        _ => false,
    }
}

pub open spec fn seq_has_sanitizer(s: Seq<Sanitizer>, x: Sanitizer) -> bool {
    exists|i: int| 0 <= i < s.len() && same_sanitizer(#[trigger] s[i], x)
}

pub open spec fn seq_has_semsan(s: Seq<Sanitizer>) -> bool {
    exists|i: int| 0 <= i < s.len() && (#[trigger] s[i]) is SemSan
}

fn sanitizer_is(a: &Sanitizer, b: &Sanitizer) -> (r: bool)
    ensures
        r == same_sanitizer(*a, *b),
{
    match a {
        Sanitizer::NoSanitizer => match b {
            Sanitizer::NoSanitizer => true,
            _ => false,
        },
        Sanitizer::ValueProfile => match b {
            Sanitizer::ValueProfile => true,
            _ => false,
        },
        Sanitizer::CmpLog => match b {
            Sanitizer::CmpLog => true,
            _ => false,
        },
        Sanitizer::Coverage => match b {
            Sanitizer::Coverage => true,
            _ => false,
        },
        Sanitizer::SemSan(x) => match b {
            Sanitizer::SemSan(y) => x.eq(y),
            _ => false,
        },
        Sanitizer::Other => false,
    }
}

fn engines_contain(v: &Vec<FuzzEngine>, e: FuzzEngine) -> (r: bool)
    ensures
        r == v@.contains(e),
{
    let mut i: usize = 0;
    while i < v.len()
        invariant
            i <= v.len(),
            forall|j: int| 0 <= j < i ==> v@[j] != e,
        decreases v.len() - i,
    {
        if v[i] == e {
            assert(v@[i as int] == e);
            return true;
        }
        i = i + 1;
    }
    false
}

fn sanitizers_contain(v: &Vec<Sanitizer>, s: &Sanitizer) -> (r: bool)
    ensures
        r == seq_has_sanitizer(v@, *s),
{
    let mut i: usize = 0;
    while i < v.len()
        invariant
            i <= v.len(),
            forall|j: int| 0 <= j < i ==> !same_sanitizer(#[trigger] v@[j], *s),
        decreases v.len() - i,
    {
        if sanitizer_is(&v[i], s) {
            return true;
        }
        i = i + 1;
    }
    false
}

fn sanitizers_contain_semsan(v: &Vec<Sanitizer>) -> (r: bool)
    ensures
        r == seq_has_semsan(v@),
{
    let mut i: usize = 0;
    while i < v.len()
        invariant
            i <= v.len(),
            forall|j: int| 0 <= j < i ==> !((#[trigger] v@[j]) is SemSan),
        decreases v.len() - i,
    {
        if let Sanitizer::SemSan(_) = &v[i] {
            return true;
        }
        i = i + 1;
    }
    false
}

impl ProjectConfig {
    /// Whether the configuration lists the engine `engine`.
    pub fn has_engine(&self, engine: &FuzzEngine) -> (r: bool)
        ensures
            r == listed_engines(*self).contains(*engine),
    {
        match &self.engines {
            Some(v) => engines_contain(v, *engine),
            None => false,
        }
    }

    /// Whether the configuration lists the sanitizer `sanitizer`.
    pub fn has_sanitizer(&self, sanitizer: &Sanitizer) -> (r: bool)
        ensures
            r == seq_has_sanitizer(listed_sanitizers(*self), *sanitizer),
    {
        match &self.sanitizers {
            Some(v) => sanitizers_contain(v, sanitizer),
            None => false,
        }
    }
}

/// A rule of project configurations that a configuration breaks.
#[derive(PartialEq, Eq, Structural, Clone, Copy, Debug)]
pub enum ConfigError {
    GoNeedsLibFuzzer,
    RustNeedsLibFuzzer,
    ValueProfileNeedsLibFuzzer,
    CmpLogNeedsAflPlusPlus,
    CoverageNeedsNoEngine,
    SemSanNeedsSemSanSanitizer,
}

impl ConfigError {
    /// The text the configuration checker reports for this error.
    pub fn message(&self) -> (s: String)
        ensures
            s@ == spec_config_error_message(*self),
    {
        match self {
            ConfigError::GoNeedsLibFuzzer => String::from_str(
                "Go projects only supports LibFuzzer as fuzz engine",
            ),
            ConfigError::RustNeedsLibFuzzer => String::from_str(
                "Rust projects only supports LibFuzzer as fuzz engine",
            ),
            ConfigError::ValueProfileNeedsLibFuzzer => String::from_str(
                "ValueProfile is only supported for LibFuzzer",
            ),
            ConfigError::CmpLogNeedsAflPlusPlus => String::from_str(
                "CmpLog is only supported for AflPlusPlus",
            ),
            ConfigError::CoverageNeedsNoEngine => String::from_str(
                "Coverage sanitizer needs FuzzEngine::None",
            ),
            ConfigError::SemSanNeedsSemSanSanitizer => String::from_str(
                "SemSan engine can only be used with at least one user defined SemSan sanitizer. Include SemSan(n) in your config and provide a build step for `n`.",
            ),
        }
    }
}

pub open spec fn spec_config_error_message(e: ConfigError) -> Seq<char> {
    match e {
        ConfigError::GoNeedsLibFuzzer => "Go projects only supports LibFuzzer as fuzz engine"@,
        ConfigError::RustNeedsLibFuzzer => "Rust projects only supports LibFuzzer as fuzz engine"@,
        ConfigError::ValueProfileNeedsLibFuzzer => "ValueProfile is only supported for LibFuzzer"@,
        ConfigError::CmpLogNeedsAflPlusPlus => "CmpLog is only supported for AflPlusPlus"@,
        ConfigError::CoverageNeedsNoEngine => "Coverage sanitizer needs FuzzEngine::None"@,
        ConfigError::SemSanNeedsSemSanSanitizer => "SemSan engine can only be used with at least one user defined SemSan sanitizer. Include SemSan(n) in your config and provide a build step for `n`."@,
    }
}

/// The first configuration rule, in the order the checker tries them,
/// that `c` breaks; `None` when it breaks none.  The rules only apply to
/// configurations that list their engines, and the sanitizer rules only to
/// configurations that also list their sanitizers.
pub open spec fn spec_config_violation(c: ProjectConfig) -> Option<ConfigError> {
    match c.engines {
        None => None,
        Some(ev) => {
            let e = ev@;
            let no_libfuzzer = !e.contains(FuzzEngine::LibFuzzer);
            if c.language == Language::Go && no_libfuzzer {
                Some(ConfigError::GoNeedsLibFuzzer)
            } else if c.language == Language::Rust && no_libfuzzer {
                Some(ConfigError::RustNeedsLibFuzzer)
            } else {
                match c.sanitizers {
                    None => None,
                    Some(sv) => {
                        let s = sv@;
                        if no_libfuzzer && seq_has_sanitizer(s, Sanitizer::ValueProfile) {
                            Some(ConfigError::ValueProfileNeedsLibFuzzer)
                        } else if !e.contains(FuzzEngine::AflPlusPlus) && seq_has_sanitizer(
                            s,
                            Sanitizer::CmpLog,
                        ) {
                            Some(ConfigError::CmpLogNeedsAflPlusPlus)
                        } else if !e.contains(FuzzEngine::NoEngine) && seq_has_sanitizer(
                            s,
                            Sanitizer::Coverage,
                        ) {
                            Some(ConfigError::CoverageNeedsNoEngine)
                        } else if e.contains(FuzzEngine::SemSan) && !seq_has_semsan(s) {
                            Some(ConfigError::SemSanNeedsSemSanSanitizer)
                        } else {
                            None
                        }
                    },
                }
            }
        },
    }
}

/// Checks a project configuration against the infrastructure's rules.
pub fn validate_config(c: &ProjectConfig) -> (r: Result<(), ConfigError>)
    ensures
        r == (match spec_config_violation(*c) {
            Some(e) => Err(e),
            None => Ok(()),
        }),
{
    match &c.engines {
        None => Ok(()),
        Some(ev) => {
            let no_libfuzzer = !engines_contain(ev, FuzzEngine::LibFuzzer);
            if c.language == Language::Go && no_libfuzzer {
                return Err(ConfigError::GoNeedsLibFuzzer);
            }
            if c.language == Language::Rust && no_libfuzzer {
                return Err(ConfigError::RustNeedsLibFuzzer);
            }
            match &c.sanitizers {
                None => Ok(()),
                Some(sv) => {
                    if no_libfuzzer && sanitizers_contain(sv, &Sanitizer::ValueProfile) {
                        Err(ConfigError::ValueProfileNeedsLibFuzzer)
                    } else if !engines_contain(ev, FuzzEngine::AflPlusPlus) && sanitizers_contain(
                        sv,
                        &Sanitizer::CmpLog,
                    ) {
                        Err(ConfigError::CmpLogNeedsAflPlusPlus)
                    } else if !engines_contain(ev, FuzzEngine::NoEngine) && sanitizers_contain(
                        sv,
                        &Sanitizer::Coverage,
                    ) {
                        Err(ConfigError::CoverageNeedsNoEngine)
                    } else if engines_contain(ev, FuzzEngine::SemSan)
                        && !sanitizers_contain_semsan(sv) {
                        Err(ConfigError::SemSanNeedsSemSanSanitizer)
                    } else {
                        Ok(())
                    }
                },
            }
        },
    }
}

/// Whether the sanitizers `s` list one of the kind `kind` tells apart.
pub open spec fn lists_kind(s: Seq<Sanitizer>, kind: spec_fn(Sanitizer) -> bool) -> bool {
    exists|i: int| 0 <= i < s.len() && kind(#[trigger] s[i])
}

/// Whether a list holds a sanitizer of one of the kinds the rules name.
pub proof fn lemma_sanitizer_kinds(s: Seq<Sanitizer>)
    ensures
        seq_has_sanitizer(s, Sanitizer::NoSanitizer) == lists_kind(s, |x: Sanitizer| x is NoSanitizer),
        seq_has_sanitizer(s, Sanitizer::ValueProfile) == lists_kind(s, |x: Sanitizer| x is ValueProfile),
        seq_has_sanitizer(s, Sanitizer::CmpLog) == lists_kind(s, |x: Sanitizer| x is CmpLog),
        seq_has_sanitizer(s, Sanitizer::Coverage) == lists_kind(s, |x: Sanitizer| x is Coverage),
        seq_has_semsan(s) == lists_kind(s, |x: Sanitizer| x is SemSan),
{
    assert forall|i: int| 0 <= i < s.len() implies
        (same_sanitizer(s[i], Sanitizer::NoSanitizer) == (s[i] is NoSanitizer))
        && (same_sanitizer(s[i], Sanitizer::ValueProfile) == (s[i] is ValueProfile))
        && (same_sanitizer(s[i], Sanitizer::CmpLog) == (s[i] is CmpLog))
        && (same_sanitizer(s[i], Sanitizer::Coverage) == (s[i] is Coverage)) by {}
    if lists_kind(s, |x: Sanitizer| x is NoSanitizer) {
        let i = choose|i: int| 0 <= i < s.len() && (|x: Sanitizer| x is NoSanitizer)(#[trigger] s[i]);
        assert(same_sanitizer(s[i], Sanitizer::NoSanitizer));
    }
    if lists_kind(s, |x: Sanitizer| x is ValueProfile) {
        let i = choose|i: int| 0 <= i < s.len() && (|x: Sanitizer| x is ValueProfile)(#[trigger] s[i]);
        assert(same_sanitizer(s[i], Sanitizer::ValueProfile));
    }
    if lists_kind(s, |x: Sanitizer| x is CmpLog) {
        let i = choose|i: int| 0 <= i < s.len() && (|x: Sanitizer| x is CmpLog)(#[trigger] s[i]);
        assert(same_sanitizer(s[i], Sanitizer::CmpLog));
    }
    if lists_kind(s, |x: Sanitizer| x is Coverage) {
        let i = choose|i: int| 0 <= i < s.len() && (|x: Sanitizer| x is Coverage)(#[trigger] s[i]);
        assert(same_sanitizer(s[i], Sanitizer::Coverage));
    }
    if seq_has_sanitizer(s, Sanitizer::NoSanitizer) {
        let i = choose|i: int| 0 <= i < s.len() && same_sanitizer(#[trigger] s[i], Sanitizer::NoSanitizer);
        assert((|x: Sanitizer| x is NoSanitizer)(s[i]));
    }
    if seq_has_sanitizer(s, Sanitizer::ValueProfile) {
        let i = choose|i: int| 0 <= i < s.len() && same_sanitizer(#[trigger] s[i], Sanitizer::ValueProfile);
        assert((|x: Sanitizer| x is ValueProfile)(s[i]));
    }
    if seq_has_sanitizer(s, Sanitizer::CmpLog) {
        let i = choose|i: int| 0 <= i < s.len() && same_sanitizer(#[trigger] s[i], Sanitizer::CmpLog);
        assert((|x: Sanitizer| x is CmpLog)(s[i]));
    }
    if seq_has_sanitizer(s, Sanitizer::Coverage) {
        let i = choose|i: int| 0 <= i < s.len() && same_sanitizer(#[trigger] s[i], Sanitizer::Coverage);
        assert((|x: Sanitizer| x is Coverage)(s[i]));
    }
    if seq_has_semsan(s) {
        let i = choose|i: int| 0 <= i < s.len() && (#[trigger] s[i]) is SemSan;
        assert((|x: Sanitizer| x is SemSan)(s[i]));
    }
    if lists_kind(s, |x: Sanitizer| x is SemSan) {
        let i = choose|i: int| 0 <= i < s.len() && (|x: Sanitizer| x is SemSan)(#[trigger] s[i]);
        assert(s[i] is SemSan);
    }
}

/// A configuration that does not list its engines passes every rule.
pub proof fn law_config_without_engines_is_valid(c: ProjectConfig)
    requires
        c.engines is None,
    ensures
        spec_config_violation(c) is None,
{
}

/// A Go project must list LibFuzzer among its engines; a Rust project
/// too.  These rules come first.
pub proof fn law_config_language_needs_libfuzzer(c: ProjectConfig, ev: Vec<FuzzEngine>)
    requires
        c.engines == Some(ev),
        !ev@.contains(FuzzEngine::LibFuzzer),
    ensures
        c.language == Language::Go ==> spec_config_violation(c) == Some(ConfigError::GoNeedsLibFuzzer),
        c.language == Language::Rust ==> spec_config_violation(c) == Some(ConfigError::RustNeedsLibFuzzer),
{
}

/// Whether a configuration with engines `e` and sanitizers `s` in a
/// project of language `lang` passes the rules that are tried before the
/// SemSan rule.
pub open spec fn passes_rules_before_semsan(
    lang: Language,
    e: Seq<FuzzEngine>,
    s: Seq<Sanitizer>,
) -> bool {
    &&& (lang == Language::Go || lang == Language::Rust) ==> e.contains(FuzzEngine::LibFuzzer)
    &&& lists_kind(s, |x: Sanitizer| x is ValueProfile) ==> e.contains(FuzzEngine::LibFuzzer)
    &&& lists_kind(s, |x: Sanitizer| x is CmpLog) ==> e.contains(FuzzEngine::AflPlusPlus)
    &&& lists_kind(s, |x: Sanitizer| x is Coverage) ==> e.contains(FuzzEngine::NoEngine)
}

/// The sanitizer rules, in the order they are tried once the language
/// rules pass: ValueProfile needs LibFuzzer, CmpLog needs AFL++, the
/// coverage build needs the build without engine, and the SemSan engine
/// needs a SemSan sanitizer, whichever other engines are listed.  A
/// configuration that lists its engines and sanitizers and breaks none of
/// them is valid.
pub proof fn law_config_sanitizer_rules(c: ProjectConfig, ev: Vec<FuzzEngine>, sv: Vec<Sanitizer>)
    requires
        c.engines == Some(ev),
        c.sanitizers == Some(sv),
        (c.language == Language::Go || c.language == Language::Rust) ==> ev@.contains(
            FuzzEngine::LibFuzzer,
        ),
    ensures
        !ev@.contains(FuzzEngine::LibFuzzer) && lists_kind(sv@, |x: Sanitizer| x is ValueProfile)
            ==> spec_config_violation(c) == Some(ConfigError::ValueProfileNeedsLibFuzzer),
        (lists_kind(sv@, |x: Sanitizer| x is ValueProfile) ==> ev@.contains(FuzzEngine::LibFuzzer))
            && !ev@.contains(FuzzEngine::AflPlusPlus) && lists_kind(sv@, |x: Sanitizer| x is CmpLog)
            ==> spec_config_violation(c) == Some(ConfigError::CmpLogNeedsAflPlusPlus),
        (lists_kind(sv@, |x: Sanitizer| x is ValueProfile) ==> ev@.contains(FuzzEngine::LibFuzzer))
            && (lists_kind(sv@, |x: Sanitizer| x is CmpLog) ==> ev@.contains(FuzzEngine::AflPlusPlus))
            && !ev@.contains(FuzzEngine::NoEngine) && lists_kind(sv@, |x: Sanitizer| x is Coverage)
            ==> spec_config_violation(c) == Some(ConfigError::CoverageNeedsNoEngine),
        passes_rules_before_semsan(c.language, ev@, sv@) ==> (spec_config_violation(c) == Some(
            ConfigError::SemSanNeedsSemSanSanitizer,
        ) <==> ev@.contains(FuzzEngine::SemSan) && !lists_kind(sv@, |x: Sanitizer| x is SemSan)),
        passes_rules_before_semsan(c.language, ev@, sv@) ==> (spec_config_violation(c) is None
            <==> !(ev@.contains(FuzzEngine::SemSan) && !lists_kind(sv@, |x: Sanitizer| x is SemSan))),
{
    lemma_sanitizer_kinds(sv@);
}

/// A configuration that lists its engines but not its sanitizers is only
/// held to the language rules.
pub proof fn law_config_without_sanitizers(c: ProjectConfig, ev: Vec<FuzzEngine>)
    requires
        c.engines == Some(ev),
        c.sanitizers is None,
        (c.language == Language::Go || c.language == Language::Rust) ==> ev@.contains(
            FuzzEngine::LibFuzzer,
        ),
    ensures
        spec_config_violation(c) is None,
{
}

} // verus!
