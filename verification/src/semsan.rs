use vstd::prelude::*;
use vstd::string::*;
use vstd::utf8::{valid_utf8, decode_utf8};
use crate::reproducer::{ReproducedSolution, SolutionCause};
use crate::paths::{file_name, path_join, spec_file_name, spec_path_join};
use crate::text::{push_str, split_fields, str_eq, string_views, spec_split, utf8_text};

verus! {

/// Ways in which reproducing a SemSan (differential) solution fails.
#[derive(PartialEq, Eq, Structural, Clone, Copy, Debug)]
pub enum SemSanReproducerError {
    FailedToCreateWorkdir,
    FailedToCreateSeedsDir,
    FailedToCreateSolutionsDir,
    FailedToCopyTestCase,
    FailedToRunSemSan,
    FailedToParseFileInfo,
    FailedToCreateStderrFile,
    FailedToReadStderrFile,
    FailedToReadTestCase,
    SolutionNotReproducible,
}

/// Reproduces a differential solution found by SemSan: the test case is run
/// once through the primary and the secondary harness binary.
pub struct SemSanReproducer {
    pub primary_harness_binary: String,
    pub secondary_harness_binary: String,
    pub test_case: String,
}

impl SemSanReproducer {
    pub fn new(
        primary_harness_binary: String,
        secondary_harness_binary: String,
        test_case: String,
    ) -> (r: Self)
        ensures
            r.primary_harness_binary == primary_harness_binary,
            r.secondary_harness_binary == secondary_harness_binary,
            r.test_case == test_case,
    {
        SemSanReproducer { primary_harness_binary, secondary_harness_binary, test_case }
    }
}

/// The exit code with which SemSan signals a differential solution.
pub const SEMSAN_SOLUTION_EXIT_CODE: i32 = 71;

/// The SemSan binaries that run an x86-64 and an aarch64 secondary harness,
/// on a host of architecture `arch`.
pub open spec fn spec_semsan_binaries(arch: Seq<char>) -> (Seq<char>, Seq<char>) {
    if arch == "x86_64"@ {
        ("semsan"@, "semsan-aarch64"@)
    } else if arch == "aarch64"@ {
        ("semsan-x86_64"@, "semsan"@)
    } else {
        ("semsan-x86_64"@, "semsan-aarch64"@)
    }
}

/// The SemSan binary to run on a host of architecture `arch` for a
/// secondary harness whose `file` description has `kind` as its second
/// comma separated field.
pub open spec fn spec_semsan_binary(arch: Seq<char>, kind: Seq<char>) -> Seq<char> {
    if kind == " ARM"@ {
        "semsan-arm"@
    } else if kind == " x86-64"@ {
        spec_semsan_binaries(arch).0
    } else if kind == " ARM aarch64"@ {
        spec_semsan_binaries(arch).1
    } else {
        "semsan"@
    }
}

/// Chooses the SemSan binary for the host architecture `arch` and the
/// kind of the secondary harness binary.
pub fn semsan_binary(arch: &str, kind: &str) -> (r: String)
    ensures
        r@ == spec_semsan_binary(arch@, kind@),
{
    let (x86_bin, aarch64_bin) = if str_eq(arch, "x86_64") {
        ("semsan", "semsan-aarch64")
    } else if str_eq(arch, "aarch64") {
        ("semsan-x86_64", "semsan")
    } else {
        ("semsan-x86_64", "semsan-aarch64")
    };
    if str_eq(kind, " ARM") {
        String::from_str("semsan-arm")
    } else if str_eq(kind, " x86-64") {
        String::from_str(x86_bin)
    } else if str_eq(kind, " ARM aarch64") {
        String::from_str(aarch64_bin)
    } else {
        String::from_str("semsan")
    }
}

/// The arguments of the SemSan run that replays the seeds in `seeds_dir`
/// once through both harnesses, with the custom comparator when one is set.
pub open spec fn spec_semsan_args(
    custom_comparator: bool,
    primary: Seq<char>,
    secondary: Seq<char>,
    seeds_dir: Seq<char>,
    solutions_dir: Seq<char>,
) -> Seq<Seq<char>> {
    (if custom_comparator {
        seq!["--comparator"@, "custom"@]
    } else {
        Seq::empty()
    }) + seq![
        "--timeout"@,
        "5000"@,
        "--solution-exit-code"@,
        "71"@,
        primary,
        secondary,
        seeds_dir,
        "--solutions"@,
        solutions_dir,
        "--run-seeds-once"@,
    ]
}

/// Builds the arguments of the SemSan run.
pub fn semsan_args(
    custom_comparator: bool,
    primary: &str,
    secondary: &str,
    seeds_dir: &str,
    solutions_dir: &str,
) -> (v: Vec<String>)
    ensures
        string_views(v@) == spec_semsan_args(
            custom_comparator,
            primary@,
            secondary@,
            seeds_dir@,
            solutions_dir@,
        ),
{
    let mut v: Vec<String> = Vec::new();
    if custom_comparator {
        push_str(&mut v, "--comparator");
        push_str(&mut v, "custom");
    }
    push_str(&mut v, "--timeout");
    push_str(&mut v, "5000");
    push_str(&mut v, "--solution-exit-code");
    push_str(&mut v, "71");
    push_str(&mut v, primary);
    push_str(&mut v, secondary);
    push_str(&mut v, seeds_dir);
    push_str(&mut v, "--solutions");
    push_str(&mut v, solutions_dir);
    push_str(&mut v, "--run-seeds-once");
    proof {
        assert(string_views(v@) =~= spec_semsan_args(
            custom_comparator,
            primary@,
            secondary@,
            seeds_dir@,
            solutions_dir@,
        ));
    }
    v
}

/// What a SemSan reproduction needs besides the outcomes of its steps:
/// the host architecture, the custom comparator library (when one is
/// configured), both harness binaries, the test case and the seeds and
/// solutions directories inside the work directory.
pub struct SemSanRun {
    pub arch: String,
    pub comparator: Option<String>,
    pub primary_harness_binary: String,
    pub secondary_harness_binary: String,
    pub test_case: String,
    pub seeds_dir: String,
    pub solutions_dir: String,
}

/// Where a SemSan reproduction stands.
pub enum SemSanStage {
    CreatingWorkdir,
    CreatingSeedsDir,
    CreatingSolutionsDir,
    CopyingTestCase,
    ReadingTestCase,
    InspectingSecondary { input: Vec<u8> },
    CreatingStderrFile { input: Vec<u8>, binary: String },
    RunningSemSan { input: Vec<u8> },
    ReadingStderr { input: Vec<u8> },
    Done,
}

/// The outcome of the step a SemSan reproduction asked for.
pub enum SemSanEvent {
    WorkdirCreated(bool),
    SeedsDirCreated(bool),
    SolutionsDirCreated(bool),
    TestCaseCopied(bool),
    /// The bytes of the test case, or `None` when it could not be read.
    TestCaseRead(Option<Vec<u8>>),
    /// What `file` printed about the secondary binary, or `None` when it
    /// could not be run.
    SecondaryInspected(Option<Vec<u8>>),
    StderrFileCreated(bool),
    /// `None` when SemSan could not be run; otherwise its exit code, if
    /// it exited with one.
    SemSanExited(Option<Option<i32>>),
    /// The output SemSan wrote to its error stream, or `None` when it
    /// could not be read.
    StderrRead(Option<Vec<u8>>),
}

/// The step a SemSan reproduction asks to be done next.
pub enum SemSanAction {
    CreateWorkdir,
    CreateSeedsDir,
    CreateSolutionsDir,
    /// Copy the file `from` to `to`.
    CopyTestCase { from: String, to: String },
    ReadTestCase,
    /// Run `file` on the secondary harness binary.
    InspectSecondary,
    CreateStderrFile,
    /// Run `program` with `args`, with `LD_PRELOAD` set to `preload` when
    /// there is one, its standard output discarded and its error stream
    /// written to the error file.
    RunSemSan { program: String, args: Vec<String>, preload: Option<String> },
    ReadStderr,
    Finish(Result<ReproducedSolution, SemSanReproducerError>),
}

/// Whether `event` is the outcome of the step that `stage` waits for.
pub open spec fn semsan_expects(stage: SemSanStage, event: SemSanEvent) -> bool {
    match stage {
        SemSanStage::CreatingWorkdir => event is WorkdirCreated,
        SemSanStage::CreatingSeedsDir => event is SeedsDirCreated,
        SemSanStage::CreatingSolutionsDir => event is SolutionsDirCreated,
        SemSanStage::CopyingTestCase => event is TestCaseCopied,
        SemSanStage::ReadingTestCase => event is TestCaseRead,
        SemSanStage::InspectingSecondary { .. } => event is SecondaryInspected,
        SemSanStage::CreatingStderrFile { .. } => event is StderrFileCreated,
        SemSanStage::RunningSemSan { .. } => event is SemSanExited,
        SemSanStage::ReadingStderr { .. } => event is StderrRead,
        SemSanStage::Done => false,
    }
}

/// The `file` output of the secondary binary names the binary's kind in a
/// second comma separated field (the reproduction has no outcome for an
/// output without one).
pub open spec fn file_info_has_kind(out: Seq<u8>) -> bool {
    valid_utf8(out) ==> spec_split(decode_utf8(out), ',').len() >= 2
}

/// The kind of binary a `file` output describes: its second field.
pub open spec fn spec_file_kind(out: Seq<u8>) -> Seq<char> {
    spec_split(decode_utf8(out), ',')[1]
}

/// How one step of a SemSan reproduction goes: the next stage and action
/// after `event` arrives in `stage`.
pub open spec fn semsan_step_spec(
    run: SemSanRun,
    stage: SemSanStage,
    event: SemSanEvent,
    next: SemSanStage,
    action: SemSanAction,
) -> bool {
    let fail = |e: SemSanReproducerError|
        next is Done && action == SemSanAction::Finish(Err(e));
    match event {
        SemSanEvent::WorkdirCreated(ok) => if ok {
            next is CreatingSeedsDir && action is CreateSeedsDir
        } else {
            fail(SemSanReproducerError::FailedToCreateWorkdir)
        },
        SemSanEvent::SeedsDirCreated(ok) => if ok {
            next is CreatingSolutionsDir && action is CreateSolutionsDir
        } else {
            fail(SemSanReproducerError::FailedToCreateSeedsDir)
        },
        SemSanEvent::SolutionsDirCreated(ok) => if ok {
            &&& next is CopyingTestCase
            &&& action matches SemSanAction::CopyTestCase { from, to }
            &&& from@ == run.test_case@
            &&& to@ == spec_path_join(run.seeds_dir@, spec_file_name(run.test_case@)->0)
        } else {
            fail(SemSanReproducerError::FailedToCreateSolutionsDir)
        },
        SemSanEvent::TestCaseCopied(ok) => if ok {
            next is ReadingTestCase && action is ReadTestCase
        } else {
            fail(SemSanReproducerError::FailedToCopyTestCase)
        },
        SemSanEvent::TestCaseRead(bytes) => match bytes {
            Some(input) => next == (SemSanStage::InspectingSecondary { input })
                && action is InspectSecondary,
            None => fail(SemSanReproducerError::FailedToReadTestCase),
        },
        SemSanEvent::SecondaryInspected(out) => match out {
            Some(out) => if valid_utf8(out@) {
                &&& next matches SemSanStage::CreatingStderrFile { input, binary }
                &&& stage matches SemSanStage::InspectingSecondary { input: i } && input == i
                &&& binary@ == spec_semsan_binary(run.arch@, spec_file_kind(out@))
                &&& action is CreateStderrFile
            } else {
                fail(SemSanReproducerError::FailedToParseFileInfo)
            },
            None => fail(SemSanReproducerError::FailedToParseFileInfo),
        },
        SemSanEvent::StderrFileCreated(ok) => if ok {
            &&& stage matches SemSanStage::CreatingStderrFile { input: i, binary: b }
            &&& next == (SemSanStage::RunningSemSan { input: i })
            &&& action matches SemSanAction::RunSemSan { program, args, preload }
            &&& program@ == b@
            &&& string_views(args@) == spec_semsan_args(
                run.comparator is Some,
                run.primary_harness_binary@,
                run.secondary_harness_binary@,
                run.seeds_dir@,
                run.solutions_dir@,
            )
            &&& preload == run.comparator
        } else {
            fail(SemSanReproducerError::FailedToCreateStderrFile)
        },
        SemSanEvent::SemSanExited(status) => match status {
            Some(code) => if code == Some(SEMSAN_SOLUTION_EXIT_CODE) {
                &&& stage matches SemSanStage::RunningSemSan { input: i }
                &&& next == (SemSanStage::ReadingStderr { input: i })
                &&& action is ReadStderr
            } else {
                fail(SemSanReproducerError::SolutionNotReproducible)
            },
            None => fail(SemSanReproducerError::FailedToRunSemSan),
        },
        SemSanEvent::StderrRead(trace) => match trace {
            Some(trace) => {
                &&& stage matches SemSanStage::ReadingStderr { input: i }
                &&& next is Done
                &&& action == SemSanAction::Finish(
                    Ok(
                        ReproducedSolution {
                            cause: SolutionCause::ExitCode(SEMSAN_SOLUTION_EXIT_CODE),
                            input: i,
                            trace,
                        },
                    ),
                )
            },
            None => fail(SemSanReproducerError::FailedToReadStderrFile),
        },
    }
}

/// The first stage of a SemSan reproduction and the step it asks for.
pub fn semsan_start() -> (r: (SemSanStage, SemSanAction))
    ensures
        r.0 is CreatingWorkdir,
        r.1 is CreateWorkdir,
{
    (SemSanStage::CreatingWorkdir, SemSanAction::CreateWorkdir)
}

/// Advances a SemSan reproduction by the outcome of the step it asked for.
pub fn semsan_step(run: &SemSanRun, stage: SemSanStage, event: SemSanEvent) -> (r: (
    SemSanStage,
    SemSanAction,
))
    requires
        semsan_expects(stage, event),
        event == SemSanEvent::SolutionsDirCreated(true) ==> spec_file_name(run.test_case@) is Some,
        event matches SemSanEvent::SecondaryInspected(Some(out)) ==> file_info_has_kind(out@),
    ensures
        semsan_step_spec(*run, stage, event, r.0, r.1),
{
    let fail = |e: SemSanReproducerError| -> (r: (SemSanStage, SemSanAction))
        ensures
            r.0 is Done && r.1 == SemSanAction::Finish(Err(e)),
        { (SemSanStage::Done, SemSanAction::Finish(Err(e))) };
    match event {
        SemSanEvent::WorkdirCreated(ok) => if ok {
            (SemSanStage::CreatingSeedsDir, SemSanAction::CreateSeedsDir)
        } else {
            fail(SemSanReproducerError::FailedToCreateWorkdir)
        },
        SemSanEvent::SeedsDirCreated(ok) => if ok {
            (SemSanStage::CreatingSolutionsDir, SemSanAction::CreateSolutionsDir)
        } else {
            fail(SemSanReproducerError::FailedToCreateSeedsDir)
        },
        SemSanEvent::SolutionsDirCreated(ok) => if ok {
            match file_name(run.test_case.as_str()) {
                Some(name) => {
                    let to = path_join(run.seeds_dir.as_str(), name.as_str());
                    let from = run.test_case.clone();
                    (SemSanStage::CopyingTestCase, SemSanAction::CopyTestCase { from, to })
                },
                None => {
                    proof {
                        assert(false);
                    }
                    fail(SemSanReproducerError::FailedToCopyTestCase)
                },
            }
        } else {
            fail(SemSanReproducerError::FailedToCreateSolutionsDir)
        },
        SemSanEvent::TestCaseCopied(ok) => if ok {
            (SemSanStage::ReadingTestCase, SemSanAction::ReadTestCase)
        } else {
            fail(SemSanReproducerError::FailedToCopyTestCase)
        },
        SemSanEvent::TestCaseRead(bytes) => match bytes {
            Some(input) => (SemSanStage::InspectingSecondary { input }, SemSanAction::InspectSecondary),
            None => fail(SemSanReproducerError::FailedToReadTestCase),
        },
        SemSanEvent::SecondaryInspected(out) => match out {
            Some(out) => {
                let ghost bytes = out@;
                match utf8_text(out) {
                    Some(text) => {
                        let fields = split_fields(text.as_str(), ',');
                        proof {
                            assert(string_views(fields@).len() == fields@.len());
                        }
                        let binary = semsan_binary(run.arch.as_str(), fields[1].as_str());
                        proof {
                            assert(string_views(fields@)[1] == fields@[1]@);
                        }
                        match stage {
                            SemSanStage::InspectingSecondary { input } => (
                                SemSanStage::CreatingStderrFile { input, binary },
                                SemSanAction::CreateStderrFile,
                            ),
                            _ => {
                                proof {
                                    assert(false);
                                }
                                fail(SemSanReproducerError::FailedToParseFileInfo)
                            },
                        }
                    },
                    None => fail(SemSanReproducerError::FailedToParseFileInfo),
                }
            },
            None => fail(SemSanReproducerError::FailedToParseFileInfo),
        },
        SemSanEvent::StderrFileCreated(ok) => if ok {
            match stage {
                SemSanStage::CreatingStderrFile { input, binary } => {
                    let args = semsan_args(
                        run.comparator.is_some(),
                        run.primary_harness_binary.as_str(),
                        run.secondary_harness_binary.as_str(),
                        run.seeds_dir.as_str(),
                        run.solutions_dir.as_str(),
                    );
                    let preload = match &run.comparator {
                        Some(c) => Some(c.clone()),
                        None => None,
                    };
                    (
                        SemSanStage::RunningSemSan { input },
                        SemSanAction::RunSemSan { program: binary, args, preload },
                    )
                },
                _ => {
                    proof {
                        assert(false);
                    }
                    fail(SemSanReproducerError::FailedToCreateStderrFile)
                },
            }
        } else {
            fail(SemSanReproducerError::FailedToCreateStderrFile)
        },
        SemSanEvent::SemSanExited(status) => match status {
            Some(code) => {
                let is_solution = match code {
                    Some(c) => c == SEMSAN_SOLUTION_EXIT_CODE,
                    None => false,
                };
                if is_solution {
                    match stage {
                        SemSanStage::RunningSemSan { input } => (
                            SemSanStage::ReadingStderr { input },
                            SemSanAction::ReadStderr,
                        ),
                        _ => {
                            proof {
                                assert(false);
                            }
                            fail(SemSanReproducerError::SolutionNotReproducible)
                        },
                    }
                } else {
                    fail(SemSanReproducerError::SolutionNotReproducible)
                }
            },
            None => fail(SemSanReproducerError::FailedToRunSemSan),
        },
        SemSanEvent::StderrRead(trace) => match trace {
            Some(trace) => match stage {
                SemSanStage::ReadingStderr { input } => (
                    SemSanStage::Done,
                    SemSanAction::Finish(
                        Ok(
                            ReproducedSolution {
                                cause: SolutionCause::ExitCode(SEMSAN_SOLUTION_EXIT_CODE),
                                input,
                                trace,
                            },
                        ),
                    ),
                ),
                _ => {
                    proof {
                        assert(false);
                    }
                    fail(SemSanReproducerError::FailedToReadStderrFile)
                },
            },
            None => fail(SemSanReproducerError::FailedToReadStderrFile),
        },
    }
}


/// A run of a SemSan reproduction: `stages[i]` is where it stood when
/// `events[i]` arrived, leading to `stages[i + 1]` and `actions[i]`.
pub open spec fn semsan_trace(
    run: SemSanRun,
    stages: Seq<SemSanStage>,
    events: Seq<SemSanEvent>,
    actions: Seq<SemSanAction>,
) -> bool {
    &&& stages.len() == events.len() + 1
    &&& actions.len() == events.len()
    &&& stages[0] is CreatingWorkdir
    &&& forall|i: int|
        0 <= i < events.len() ==> semsan_expects(stages[i], #[trigger] events[i])
            && semsan_step_spec(run, stages[i], events[i], stages[i + 1], actions[i])
}

/// Whether `action` copies the test case of `run` into its seeds directory,
/// under the test case's file name.
pub open spec fn copies_test_case(run: SemSanRun, action: SemSanAction) -> bool {
    &&& action matches SemSanAction::CopyTestCase { from, to }
    &&& from@ == run.test_case@
    &&& to@ == spec_path_join(run.seeds_dir@, spec_file_name(run.test_case@)->0)
}

/// Whether a reproduction in `stage` has asked for the test case to be
/// copied.
pub open spec fn semsan_past_copy(stage: SemSanStage) -> bool {
    ||| stage is CopyingTestCase
    ||| stage is ReadingTestCase
    ||| stage is InspectingSecondary
    ||| stage is CreatingStderrFile
    ||| stage is RunningSemSan
    ||| stage is ReadingStderr
}

/// The input a stage carries, when it carries one.
pub open spec fn semsan_stage_input(stage: SemSanStage) -> Option<Vec<u8>> {
    match stage {
        SemSanStage::InspectingSecondary { input } => Some(input),
        SemSanStage::CreatingStderrFile { input, .. } => Some(input),
        SemSanStage::RunningSemSan { input } => Some(input),
        SemSanStage::ReadingStderr { input } => Some(input),
        _ => None,
    }
}

proof fn lemma_semsan_history(
    run: SemSanRun,
    stages: Seq<SemSanStage>,
    events: Seq<SemSanEvent>,
    actions: Seq<SemSanAction>,
    i: int,
)
    requires
        semsan_trace(run, stages, events, actions),
        0 <= i < stages.len(),
    ensures
        semsan_stage_input(stages[i]) matches Some(input) ==> exists|e: int|
            0 <= e < i && #[trigger] events[e] == SemSanEvent::TestCaseRead(Some(input)),
        stages[i] is ReadingStderr ==> exists|e: int|
            0 <= e < i && #[trigger] events[e] == SemSanEvent::SemSanExited(
                Some(Some(SEMSAN_SOLUTION_EXIT_CODE)),
            ),
        semsan_past_copy(stages[i]) ==> exists|e: int|
            0 <= e < i && copies_test_case(run, #[trigger] actions[e]),
    decreases i,
{
    if i > 0 {
        lemma_semsan_history(run, stages, events, actions, i - 1);
        let p: int = i - 1;
        assert(semsan_expects(stages[p], events[p]));
        assert(semsan_step_spec(run, stages[p], events[p], stages[i], actions[p]));
        if let Some(input) = semsan_stage_input(stages[i]) {
            match events[p] {
                SemSanEvent::TestCaseRead(_) => {
                    assert(events[p] == SemSanEvent::TestCaseRead(Some(input)));
                },
                _ => {
                    let e = choose|e: int|
                        0 <= e < p && #[trigger] events[e] == SemSanEvent::TestCaseRead(
                            Some(semsan_stage_input(stages[p])->0),
                        );
                    assert(events[e] == SemSanEvent::TestCaseRead(Some(input)));
                },
            }
        }
        if stages[i] is ReadingStderr {
            assert(events[p] == SemSanEvent::SemSanExited(Some(Some(SEMSAN_SOLUTION_EXIT_CODE))));
        }
        if stages[i] is CopyingTestCase {
            assert(copies_test_case(run, actions[p]));
        } else if semsan_past_copy(stages[i]) {
            assert(semsan_past_copy(stages[p]));
        }
    }
}

/// A SemSan reproduction reports a solution only when SemSan exited with
/// the solution exit code, after it had the test case copied into the seeds
/// directory under its file name; the solution it reports is the test case
/// that was read, with what SemSan wrote to its error stream as the trace.
pub proof fn law_semsan_solution_is_the_test_case(
    run: SemSanRun,
    stages: Seq<SemSanStage>,
    events: Seq<SemSanEvent>,
    actions: Seq<SemSanAction>,
    k: int,
    solution: ReproducedSolution,
)
    requires
        semsan_trace(run, stages, events, actions),
        0 <= k < actions.len(),
        actions[k] == SemSanAction::Finish(Ok(solution)),
    ensures
        solution.cause == SolutionCause::ExitCode(SEMSAN_SOLUTION_EXIT_CODE),
        exists|e: int|
            0 <= e < k && #[trigger] events[e] == SemSanEvent::TestCaseRead(Some(solution.input)),
        exists|e: int|
            0 <= e < k && #[trigger] events[e] == SemSanEvent::SemSanExited(
                Some(Some(SEMSAN_SOLUTION_EXIT_CODE)),
            ),
        exists|e: int| 0 <= e < k && copies_test_case(run, #[trigger] actions[e]),
        events[k] == SemSanEvent::StderrRead(Some(solution.trace)),
{
    assert(semsan_expects(stages[k], events[k]));
    assert(semsan_step_spec(run, stages[k], events[k], stages[k + 1], actions[k]));
    lemma_semsan_history(run, stages, events, actions, k);
}

/// SemSan runs with the timeout, the solution exit code, the primary and
/// then the secondary harness binary, the seeds directory and the
/// solutions directory in these positions, after the custom comparator
/// option when one is configured.
pub proof fn law_semsan_argument_positions(
    custom_comparator: bool,
    primary: Seq<char>,
    secondary: Seq<char>,
    seeds_dir: Seq<char>,
    solutions_dir: Seq<char>,
)
    ensures
        ({
            let a = spec_semsan_args(custom_comparator, primary, secondary, seeds_dir, solutions_dir);
            let k: int = if custom_comparator { 2 } else { 0 };
            &&& a.len() == k + 10
            &&& custom_comparator ==> a[0] == "--comparator"@ && a[1] == "custom"@
            &&& a[k] == "--timeout"@ && a[k + 1] == "5000"@
            &&& a[k + 2] == "--solution-exit-code"@ && a[k + 3] == "71"@
            &&& a[k + 4] == primary && a[k + 5] == secondary
            &&& a[k + 6] == seeds_dir
            &&& a[k + 7] == "--solutions"@ && a[k + 8] == solutions_dir
            &&& a[k + 9] == "--run-seeds-once"@
        }),
{
}

/// Once the error file exists, SemSan is run as the binary chosen for the
/// secondary harness, with the comparator preloaded when one is configured,
/// and with the primary harness binary, then the secondary one, the seeds
/// directory and the solutions directory of the run as its arguments.
pub proof fn law_semsan_runs_primary_then_secondary(
    run: SemSanRun,
    stage: SemSanStage,
    next: SemSanStage,
    action: SemSanAction,
)
    requires
        semsan_step_spec(run, stage, SemSanEvent::StderrFileCreated(true), next, action),
    ensures
        action matches SemSanAction::RunSemSan { program, args, preload } && {
            let k: int = if run.comparator is Some { 2 } else { 0 };
            &&& stage matches SemSanStage::CreatingStderrFile { binary, .. } && program@ == binary@
            &&& preload == run.comparator
            &&& args.len() == k + 10
            &&& run.comparator is Some ==> args[0]@ == "--comparator"@ && args[1]@ == "custom"@
            &&& args[k]@ == "--timeout"@ && args[k + 1]@ == "5000"@
            &&& args[k + 2]@ == "--solution-exit-code"@ && args[k + 3]@ == "71"@
            &&& args[k + 4]@ == run.primary_harness_binary@
            &&& args[k + 5]@ == run.secondary_harness_binary@
            &&& args[k + 6]@ == run.seeds_dir@
            &&& args[k + 7]@ == "--solutions"@ && args[k + 8]@ == run.solutions_dir@
            &&& args[k + 9]@ == "--run-seeds-once"@
        },
{
    law_semsan_argument_positions(
        run.comparator is Some,
        run.primary_harness_binary@,
        run.secondary_harness_binary@,
        run.seeds_dir@,
        run.solutions_dir@,
    );
    if let SemSanAction::RunSemSan { program, args, preload } = action {
        assert(string_views(args@).len() == args@.len());
        assert forall|i: int| 0 <= i < args@.len() implies #[trigger] string_views(args@)[i] == args@[i]@ by {}
    }
}

/// The SemSan binary runs the secondary harness on its own architecture:
/// the 32-bit ARM build for ARM, the host's plain `semsan` for a harness
/// of the host's architecture, the cross build otherwise, and the plain
/// `semsan` for any kind it does not know.
pub proof fn law_semsan_binary_matches_the_secondary(arch: Seq<char>, kind: Seq<char>)
    ensures
        kind == " ARM"@ ==> spec_semsan_binary(arch, kind) == "semsan-arm"@,
        kind == " x86-64"@ ==> spec_semsan_binary(arch, kind) == if arch == "x86_64"@ {
            "semsan"@
        } else {
            "semsan-x86_64"@
        },
        kind == " ARM aarch64"@ ==> spec_semsan_binary(arch, kind) == if arch == "aarch64"@ {
            "semsan"@
        } else {
            "semsan-aarch64"@
        },
        kind != " ARM"@ && kind != " x86-64"@ && kind != " ARM aarch64"@ ==> spec_semsan_binary(
            arch,
            kind,
        ) == "semsan"@,
{
    reveal_strlit(" ARM");
    reveal_strlit(" x86-64");
    reveal_strlit(" ARM aarch64");
    reveal_strlit("x86_64");
    reveal_strlit("aarch64");
    assert(" ARM"@ != " x86-64"@) by { assert(" ARM"@.len() != " x86-64"@.len()); }
    assert(" ARM"@ != " ARM aarch64"@) by { assert(" ARM"@.len() != " ARM aarch64"@.len()); }
    assert(" x86-64"@ != " ARM aarch64"@) by { assert(" x86-64"@.len() != " ARM aarch64"@.len()); }
    assert("x86_64"@ != "aarch64"@) by { assert("x86_64"@.len() != "aarch64"@.len()); }
}

/// A SemSan run that exits with the solution exit code reproduces the
/// solution: its error stream is read, and the reproduction succeeds with
/// the test case as input and that output as trace.  Any other exit of a
/// run reports the solution as not reproducible.
pub proof fn law_semsan_exit_code_decides(
    run: SemSanRun,
    input: Vec<u8>,
    code: Option<i32>,
    next: SemSanStage,
    action: SemSanAction,
    trace: Vec<u8>,
    last: SemSanStage,
    finish: SemSanAction,
)
    requires
        semsan_step_spec(
            run,
            SemSanStage::RunningSemSan { input },
            SemSanEvent::SemSanExited(Some(code)),
            next,
            action,
        ),
    ensures
        code == Some(71i32) ==> next == (SemSanStage::ReadingStderr { input }) && action is ReadStderr,
        code != Some(71i32) ==> next is Done && action == SemSanAction::Finish(
            Err(SemSanReproducerError::SolutionNotReproducible),
        ),
        code == Some(71i32) && semsan_step_spec(
            run,
            next,
            SemSanEvent::StderrRead(Some(trace)),
            last,
            finish,
        ) ==> finish == SemSanAction::Finish(
            Ok(ReproducedSolution { cause: SolutionCause::ExitCode(71), input, trace }),
        ),
{
}

} // verus!
