use vstd::prelude::*;
use vstd::string::*;
use crate::config::Language;
use crate::text::{concat2, push_str, string_views};

verus! {

/// The arguments with which the coverage build of a harness runs every
/// input of `corpus` once.
pub open spec fn spec_coverage_run_args(corpus: Seq<char>) -> Seq<Seq<char>> {
    seq!["-runs=1"@, corpus]
}

pub fn coverage_run_args(corpus: &str) -> (v: Vec<String>)
    ensures
        string_views(v@) == spec_coverage_run_args(corpus@),
{
    let mut v: Vec<String> = Vec::new();
    push_str(&mut v, "-runs=1");
    push_str(&mut v, corpus);
    proof {
        assert(string_views(v@) =~= spec_coverage_run_args(corpus@));
    }
    v
}

/// The arguments of the `llvm-profdata` run that merges the raw profile.
pub open spec fn spec_profdata_merge_args() -> Seq<Seq<char>> {
    seq!["merge"@, "-sparse"@, "default.profraw"@, "-o"@, "default.profdata"@]
}

pub fn profdata_merge_args() -> (v: Vec<String>)
    ensures
        string_views(v@) == spec_profdata_merge_args(),
{
    let mut v: Vec<String> = Vec::new();
    push_str(&mut v, "merge");
    push_str(&mut v, "-sparse");
    push_str(&mut v, "default.profraw");
    push_str(&mut v, "-o");
    push_str(&mut v, "default.profdata");
    proof {
        assert(string_views(v@) =~= spec_profdata_merge_args());
    }
    v
}

/// The arguments of the `llvm-cov` run that exports a coverage summary of
/// the coverage binary `binary`.
pub open spec fn spec_coverage_export_args(binary: Seq<char>) -> Seq<Seq<char>> {
    seq!["export"@, binary, "-summary-only"@, "-instr-profile=default.profdata"@]
}

pub fn coverage_export_args(binary: &str) -> (v: Vec<String>)
    ensures
        string_views(v@) == spec_coverage_export_args(binary@),
{
    let mut v: Vec<String> = Vec::new();
    push_str(&mut v, "export");
    push_str(&mut v, binary);
    push_str(&mut v, "-summary-only");
    push_str(&mut v, "-instr-profile=default.profdata");
    proof {
        assert(string_views(v@) =~= spec_coverage_export_args(binary@));
    }
    v
}

/// The demangler for the symbols of a project's language, if there is one.
pub open spec fn spec_demangler(language: Language) -> Option<Seq<char>> {
    match language {
        Language::Rust => Some("rustfilt"@),
        Language::Cpp => Some("c++filt"@),
        _ => None,
    }
}

pub fn demangler(language: Language) -> (r: Option<String>)
    ensures
        match r {
            Some(d) => spec_demangler(language) == Some(d@),
            None => spec_demangler(language) is None,
        },
{
    match language {
        Language::Rust => Some(String::from_str("rustfilt")),
        Language::Cpp => Some(String::from_str("c++filt")),
        _ => None,
    }
}

/// The arguments of the `llvm-cov` run that writes the html coverage report
/// of `binary`, with symbols demangled by `demangler` when there is one.
pub open spec fn spec_coverage_html_args(binary: Seq<char>, demangler: Option<Seq<char>>) -> Seq<
    Seq<char>,
> {
    seq![
        "show"@,
        binary,
        "-instr-profile=default.profdata"@,
        "-format=html"@,
        "-show-directory-coverage"@,
        "-show-branches=count"@,
        "-output-dir=/workdir/coverage_report"@,
    ] + match demangler {
        Some(d) => seq!["-Xdemangler="@ + d],
        None => Seq::empty(),
    }
}

/// Builds the arguments of the html coverage report of `binary` for a
/// project written in `language`.
pub fn coverage_html_args(binary: &str, language: Language) -> (v: Vec<String>)
    ensures
        string_views(v@) == spec_coverage_html_args(binary@, spec_demangler(language)),
{
    let mut v: Vec<String> = Vec::new();
    push_str(&mut v, "show");
    push_str(&mut v, binary);
    push_str(&mut v, "-instr-profile=default.profdata");
    push_str(&mut v, "-format=html");
    push_str(&mut v, "-show-directory-coverage");
    push_str(&mut v, "-show-branches=count");
    push_str(&mut v, "-output-dir=/workdir/coverage_report");
    match demangler(language) {
        Some(d) => {
            let flag = concat2("-Xdemangler=", d.as_str());
            let ghost before = v@;
            v.push(flag);
            proof {
                assert(string_views(v@) =~= string_views(before).push(flag@));
            }
        },
        None => {},
    }
    proof {
        assert(string_views(v@) =~= spec_coverage_html_args(binary@, spec_demangler(language)));
    }
    v
}

} // verus!
