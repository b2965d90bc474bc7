use vstd::prelude::*;
use vstd::string::*;
use crate::config::{
    FuzzEngine, ProjectConfig, Sanitizer, listed_engines, listed_sanitizers, seq_has_sanitizer,
    lists_kind,
};
use crate::text::{push_str, string_views};

verus! {

/// The corpus minimizers, one per fuzzing engine, in the order in which
/// they are run.
#[derive(PartialEq, Eq, Structural, Clone, Copy, Debug)]
pub enum Minimizer {
    /// `afl-cmin` of AFL++.
    Afl,
    /// LibFuzzer's set cover merge.
    LibFuzzer,
    /// Honggfuzz's corpus minimization.
    HonggFuzz,
    /// Native Go fuzzing has no minimizer: the corpus is copied.
    NativeGo,
}

/// The engine whose build a minimizer runs.
pub open spec fn minimizer_engine(m: Minimizer) -> FuzzEngine {
    match m {
        Minimizer::Afl => FuzzEngine::AflPlusPlus,
        Minimizer::LibFuzzer => FuzzEngine::LibFuzzer,
        Minimizer::HonggFuzz => FuzzEngine::HonggFuzz,
        Minimizer::NativeGo => FuzzEngine::NativeGo,
    }
}

/// A minimizer runs for a project when the project lists its engine and
/// the build without sanitizer.
pub open spec fn spec_minimizer_applies(c: ProjectConfig, m: Minimizer) -> bool {
    &&& listed_engines(c).contains(minimizer_engine(m))
    &&& seq_has_sanitizer(listed_sanitizers(c), Sanitizer::NoSanitizer)
}

/// The engine whose harness build a minimizer runs.
pub fn engine_of(m: Minimizer) -> (e: FuzzEngine)
    ensures
        e == minimizer_engine(m),
{
    match m {
        Minimizer::Afl => FuzzEngine::AflPlusPlus,
        Minimizer::LibFuzzer => FuzzEngine::LibFuzzer,
        Minimizer::HonggFuzz => FuzzEngine::HonggFuzz,
        Minimizer::NativeGo => FuzzEngine::NativeGo,
    }
}

/// Whether minimizer `m` runs for the project configured by `c`.
pub fn minimizer_applies(c: &ProjectConfig, m: Minimizer) -> (r: bool)
    ensures
        r == spec_minimizer_applies(*c, m),
{
    c.has_engine(&engine_of(m)) && c.has_sanitizer(&Sanitizer::NoSanitizer)
}

/// All minimizers, in the order in which they are run.
pub open spec fn all_minimizers() -> Seq<Minimizer> {
    seq![Minimizer::Afl, Minimizer::LibFuzzer, Minimizer::HonggFuzz, Minimizer::NativeGo]
}

/// The minimizers that run for a project, in order.
pub open spec fn spec_minimizer_plan(c: ProjectConfig) -> Seq<Minimizer> {
    all_minimizers().filter(|m: Minimizer| spec_minimizer_applies(c, m))
}

/// The minimizers that run for the project configured by `c`, in order.
pub fn minimizer_plan(c: &ProjectConfig) -> (r: Vec<Minimizer>)
    ensures
        r@ == spec_minimizer_plan(*c),
{
    let mut r: Vec<Minimizer> = Vec::new();
    if minimizer_applies(c, Minimizer::Afl) {
        r.push(Minimizer::Afl);
    }
    if minimizer_applies(c, Minimizer::LibFuzzer) {
        r.push(Minimizer::LibFuzzer);
    }
    if minimizer_applies(c, Minimizer::HonggFuzz) {
        r.push(Minimizer::HonggFuzz);
    }
    if minimizer_applies(c, Minimizer::NativeGo) {
        r.push(Minimizer::NativeGo);
    }
    proof {
        reveal_with_fuel(Seq::filter, 5);
        assert(all_minimizers().drop_last().drop_last().drop_last().drop_last() =~= Seq::<Minimizer>::empty());
        assert(all_minimizers().drop_last().drop_last().drop_last() =~= seq![Minimizer::Afl]);
        assert(all_minimizers().drop_last().drop_last() =~= seq![Minimizer::Afl, Minimizer::LibFuzzer]);
        assert(all_minimizers().drop_last() =~= seq![Minimizer::Afl, Minimizer::LibFuzzer, Minimizer::HonggFuzz]);
        assert(r@ =~= spec_minimizer_plan(*c));
    }
    r
}

/// Whether a minimizer runs a harness binary (all but the copy for
/// native Go do).
pub fn needs_harness_binary(m: Minimizer) -> (r: bool)
    ensures
        r == (m != Minimizer::NativeGo),
{
    match m {
        Minimizer::NativeGo => false,
        _ => true,
    }
}

/// The program and arguments of a minimization of corpus `input` into
/// `output` with harness binary `binary`.
pub open spec fn spec_minimize_command(
    m: Minimizer,
    input: Seq<char>,
    output: Seq<char>,
    binary: Seq<char>,
) -> (Seq<char>, Seq<Seq<char>>) {
    match m {
        Minimizer::Afl => ("afl-cmin"@, seq!["-i"@, input, "-o"@, output, "--"@, binary]),
        Minimizer::LibFuzzer => (
            binary,
            seq![
                "-rss_limit_mb=8000"@,
                "-set_cover_merge=1"@,
                "-shuffle=0"@,
                "-prefer_small=1"@,
                "-use_value_profile=0"@,
                output,
                input,
            ],
        ),
        Minimizer::HonggFuzz => (
            "honggfuzz"@,
            seq!["--input"@, input, "--output"@, output, "--minimize"@, "--"@, binary],
        ),
        Minimizer::NativeGo => ("cp"@, seq!["-r"@, input, output]),
    }
}

/// Builds the command of a minimization of corpus `input` into `output`
/// with harness binary `binary` (not used by the native Go copy).
pub fn minimize_command(m: Minimizer, input: &str, output: &str, binary: &str) -> (r: (
    String,
    Vec<String>,
))
    ensures
        (r.0@, string_views(r.1@)) == spec_minimize_command(m, input@, output@, binary@),
{
    let mut args: Vec<String> = Vec::new();
    match m {
        Minimizer::Afl => {
            push_str(&mut args, "-i");
            push_str(&mut args, input);
            push_str(&mut args, "-o");
            push_str(&mut args, output);
            push_str(&mut args, "--");
            push_str(&mut args, binary);
            proof {
                assert(string_views(args@) =~= spec_minimize_command(m, input@, output@, binary@).1);
            }
            (String::from_str("afl-cmin"), args)
        },
        Minimizer::LibFuzzer => {
            push_str(&mut args, "-rss_limit_mb=8000");
            push_str(&mut args, "-set_cover_merge=1");
            push_str(&mut args, "-shuffle=0");
            push_str(&mut args, "-prefer_small=1");
            push_str(&mut args, "-use_value_profile=0");
            push_str(&mut args, output);
            push_str(&mut args, input);
            proof {
                assert(string_views(args@) =~= spec_minimize_command(m, input@, output@, binary@).1);
            }
            (binary.to_owned(), args)
        },
        Minimizer::HonggFuzz => {
            push_str(&mut args, "--input");
            push_str(&mut args, input);
            push_str(&mut args, "--output");
            push_str(&mut args, output);
            push_str(&mut args, "--minimize");
            push_str(&mut args, "--");
            push_str(&mut args, binary);
            proof {
                assert(string_views(args@) =~= spec_minimize_command(m, input@, output@, binary@).1);
            }
            (String::from_str("honggfuzz"), args)
        },
        Minimizer::NativeGo => {
            push_str(&mut args, "-r");
            push_str(&mut args, input);
            push_str(&mut args, output);
            proof {
                assert(string_views(args@) =~= spec_minimize_command(m, input@, output@, binary@).1);
            }
            (String::from_str("cp"), args)
        },
    }
}

/// Minimization fails when no minimizer ran successfully.
pub fn minimization_failed(successes: &Vec<bool>) -> (r: bool)
    ensures
        r == !successes@.contains(true),
{
    let mut i: usize = 0;
    while i < successes.len()
        invariant
            i <= successes.len(),
            forall|j: int| 0 <= j < i ==> !successes@[j],
        decreases successes.len() - i,
    {
        if successes[i] {
            assert(successes@[i as int]);
            return false;
        }
        i = i + 1;
    }
    true
}

/// `seq![m]` when `runs`, and nothing otherwise.
pub open spec fn if_runs(runs: bool, m: Minimizer) -> Seq<Minimizer> {
    if runs {
        seq![m]
    } else {
        Seq::empty()
    }
}

/// Each minimizer runs exactly when the project lists the build without
/// sanitizer and its own engine: AFL++'s `afl-cmin` for AflPlusPlus,
/// LibFuzzer's merge for LibFuzzer, honggfuzz's minimization for
/// HonggFuzz and the copy for NativeGo; they run in that order.
pub proof fn law_minimizer_plan(c: ProjectConfig)
    ensures
        ({
            let plain = lists_kind(listed_sanitizers(c), |x: Sanitizer| x is NoSanitizer);
            let e = listed_engines(c);
            spec_minimizer_plan(c) == if_runs(plain && e.contains(FuzzEngine::AflPlusPlus), Minimizer::Afl)
                + if_runs(plain && e.contains(FuzzEngine::LibFuzzer), Minimizer::LibFuzzer)
                + if_runs(plain && e.contains(FuzzEngine::HonggFuzz), Minimizer::HonggFuzz)
                + if_runs(plain && e.contains(FuzzEngine::NativeGo), Minimizer::NativeGo)
        }),
{
    crate::config::lemma_sanitizer_kinds(listed_sanitizers(c));
    let all = all_minimizers();
    let f = |m: Minimizer| spec_minimizer_applies(c, m);
    reveal_with_fuel(Seq::filter, 5);
    assert(all.drop_last().drop_last().drop_last().drop_last() =~= Seq::<Minimizer>::empty());
    assert(all.drop_last().drop_last().drop_last() =~= seq![Minimizer::Afl]);
    assert(all.drop_last().drop_last() =~= seq![Minimizer::Afl, Minimizer::LibFuzzer]);
    assert(all.drop_last() =~= seq![Minimizer::Afl, Minimizer::LibFuzzer, Minimizer::HonggFuzz]);
    let plain = lists_kind(listed_sanitizers(c), |x: Sanitizer| x is NoSanitizer);
    let e = listed_engines(c);
    assert(spec_minimizer_plan(c) =~= if_runs(plain && e.contains(FuzzEngine::AflPlusPlus), Minimizer::Afl)
        + if_runs(plain && e.contains(FuzzEngine::LibFuzzer), Minimizer::LibFuzzer)
        + if_runs(plain && e.contains(FuzzEngine::HonggFuzz), Minimizer::HonggFuzz)
        + if_runs(plain && e.contains(FuzzEngine::NativeGo), Minimizer::NativeGo));
}

/// The engine of each minimizer is the engine it is named after.
pub proof fn law_minimizer_engines()
    ensures
        minimizer_engine(Minimizer::Afl) == FuzzEngine::AflPlusPlus,
        minimizer_engine(Minimizer::LibFuzzer) == FuzzEngine::LibFuzzer,
        minimizer_engine(Minimizer::HonggFuzz) == FuzzEngine::HonggFuzz,
        minimizer_engine(Minimizer::NativeGo) == FuzzEngine::NativeGo,
{
}

/// Each minimizer reads the corpus `input` and writes the minimized corpus
/// to `output`: `afl-cmin -i input -o output -- binary`; the LibFuzzer
/// binary merging `input` into `output` (the destination comes first) with
/// set cover merging, in an unshuffled run that prefers small inputs,
/// without value profiling and with an 8000 MB memory limit;
/// `honggfuzz --input input --output output --minimize -- binary`; and
/// `cp -r input output` for native Go.
pub proof fn law_minimize_command_roles(input: Seq<char>, output: Seq<char>, binary: Seq<char>)
    ensures
        ({
            let (p, a) = spec_minimize_command(Minimizer::Afl, input, output, binary);
            &&& p == "afl-cmin"@ && a.len() == 6
            &&& a[0] == "-i"@ && a[1] == input && a[2] == "-o"@ && a[3] == output
            &&& a[4] == "--"@ && a[5] == binary
        }),
        ({
            let (p, a) = spec_minimize_command(Minimizer::LibFuzzer, input, output, binary);
            &&& p == binary && a.len() == 7
            &&& a.take(5) =~= seq![
                "-rss_limit_mb=8000"@,
                "-set_cover_merge=1"@,
                "-shuffle=0"@,
                "-prefer_small=1"@,
                "-use_value_profile=0"@,
            ]
            &&& a[5] == output && a[6] == input
        }),
        ({
            let (p, a) = spec_minimize_command(Minimizer::HonggFuzz, input, output, binary);
            &&& p == "honggfuzz"@ && a.len() == 7
            &&& a[0] == "--input"@ && a[1] == input && a[2] == "--output"@ && a[3] == output
            &&& a[4] == "--minimize"@ && a[5] == "--"@ && a[6] == binary
        }),
        ({
            let (p, a) = spec_minimize_command(Minimizer::NativeGo, input, output, binary);
            &&& p == "cp"@ && a.len() == 3
            &&& a[0] == "-r"@ && a[1] == input && a[2] == output
        }),
{
    let a = spec_minimize_command(Minimizer::LibFuzzer, input, output, binary).1;
    assert(a.take(5) =~= seq![
        "-rss_limit_mb=8000"@,
        "-set_cover_merge=1"@,
        "-shuffle=0"@,
        "-prefer_small=1"@,
        "-use_value_profile=0"@,
    ]);
}

} // verus!
