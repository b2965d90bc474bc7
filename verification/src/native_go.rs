use vstd::prelude::*;
use vstd::string::*;
use vstd::utf8::{valid_utf8, decode_utf8};
use crate::pattern::{named_capture, nested_view, spec_seed_entry};
use crate::reproducer::{ReproducedSolution, SolutionCause};
use crate::text::{push_str, string_views, utf8_text};

verus! {

/// Ways in which reproducing a crash of a native Go fuzz harness fails.
#[derive(PartialEq, Eq, Structural, Clone, Copy, Debug)]
pub enum NativeGoReproducerError {
    FailedToCreateWorkdir,
    FailedToCreateOutputFile,
    FailedToRunHarness,
    FailedToReadTestCase,
    FailedToReadOutputFile,
    SolutionNotReproducible,
}

pub open spec fn spec_native_go_error_message(e: NativeGoReproducerError) -> Seq<char> {
    match e {
        NativeGoReproducerError::FailedToCreateWorkdir => "Failed to create workdir"@,
        NativeGoReproducerError::FailedToCreateOutputFile => "Failed to create output file"@,
        NativeGoReproducerError::FailedToRunHarness => "Failed to run harness"@,
        NativeGoReproducerError::FailedToReadTestCase => "Failed to read testcase"@,
        NativeGoReproducerError::FailedToReadOutputFile => "Failed to read output file"@,
        NativeGoReproducerError::SolutionNotReproducible => "Solution not reproducible"@,
    }
}

impl NativeGoReproducerError {
    /// The text the error is displayed as.
    pub fn message(&self) -> (s: String)
        ensures
            s@ == spec_native_go_error_message(*self),
    {
        match self {
            NativeGoReproducerError::FailedToCreateWorkdir => String::from_str(
                "Failed to create workdir",
            ),
            NativeGoReproducerError::FailedToCreateOutputFile => String::from_str(
                "Failed to create output file",
            ),
            NativeGoReproducerError::FailedToRunHarness => String::from_str(
                "Failed to run harness",
            ),
            NativeGoReproducerError::FailedToReadTestCase => String::from_str(
                "Failed to read testcase",
            ),
            NativeGoReproducerError::FailedToReadOutputFile => String::from_str(
                "Failed to read output file",
            ),
            NativeGoReproducerError::SolutionNotReproducible => String::from_str(
                "Solution not reproducible",
            ),
        }
    }
}

/// Reproduces a crash of a native Go fuzz harness by running its seed
/// corpus once.
pub struct NativeGoReproducer {
    pub harness_binary: String,
}

impl NativeGoReproducer {
    pub fn new(harness_binary: String) -> (r: Self)
        ensures
            r.harness_binary == harness_binary,
    {
        NativeGoReproducer { harness_binary }
    }
}

/// Where a native Go reproduction stands.
pub enum NativeGoStage {
    CreatingWorkdir,
    CreatingOutputFile,
    RunningHarness,
    ReadingOutput,
    ReadingTestCase { trace: Vec<u8> },
    Done,
}

/// The outcome of the step a native Go reproduction asked for.
pub enum NativeGoEvent {
    WorkdirCreated(bool),
    OutputFileCreated(bool),
    /// `None` when the harness could not be run; otherwise whether it
    /// exited successfully.
    HarnessExited(Option<bool>),
    /// The output of the harness run, or `None` when it could not be read.
    OutputRead(Option<Vec<u8>>),
    /// The bytes of the failing seed corpus entry, or `None` when it could
    /// not be read.
    TestCaseRead(Option<Vec<u8>>),
}

/// The step a native Go reproduction asks to be done next.
pub enum NativeGoAction {
    CreateWorkdir,
    CreateOutputFile,
    /// Run `program` with `args`, both output streams written to the
    /// output file.
    RunHarness { program: String, args: Vec<String> },
    ReadOutput,
    /// Read the seed corpus entry `entry` of the `testdata/fuzz` directory.
    ReadTestCase { entry: String },
    Finish(Result<ReproducedSolution, NativeGoReproducerError>),
}

/// Whether `event` is the outcome of the step that `stage` waits for.
pub open spec fn native_go_expects(stage: NativeGoStage, event: NativeGoEvent) -> bool {
    match stage {
        NativeGoStage::CreatingWorkdir => event is WorkdirCreated,
        NativeGoStage::CreatingOutputFile => event is OutputFileCreated,
        NativeGoStage::RunningHarness => event is HarnessExited,
        NativeGoStage::ReadingOutput => event is OutputRead,
        NativeGoStage::ReadingTestCase { .. } => event is TestCaseRead,
        NativeGoStage::Done => false,
    }
}

/// How the reproduction goes on once the output `trace` of the failed run
/// has been searched for the failing seed corpus entry, `capture` being
/// what the search found (see `regex_named_capture`; for the line a native
/// Go harness prints, `spec_seed_entry`).
pub open spec fn native_go_located_spec(
    trace: Vec<u8>,
    capture: Option<Option<Seq<char>>>,
    next: NativeGoStage,
    action: NativeGoAction,
) -> bool {
    match capture {
        Some(Some(entry)) => {
            &&& next == (NativeGoStage::ReadingTestCase { trace })
            &&& action matches NativeGoAction::ReadTestCase { entry: e }
            &&& e@ == entry
        },
        _ => next is Done && action == NativeGoAction::Finish(
            Err(NativeGoReproducerError::SolutionNotReproducible),
        ),
    }
}

/// Goes on from the search of the output `trace` for the failing seed
/// corpus entry: reads that entry when one was found, and otherwise
/// reports the solution as not reproducible.
pub fn native_go_located(trace: Vec<u8>, capture: Option<Option<String>>) -> (r: (
    NativeGoStage,
    NativeGoAction,
))
    ensures
        native_go_located_spec(trace, nested_view(capture), r.0, r.1),
{
    match capture {
        Some(Some(entry)) => (
            NativeGoStage::ReadingTestCase { trace },
            NativeGoAction::ReadTestCase { entry },
        ),
        _ => (
            NativeGoStage::Done,
            NativeGoAction::Finish(Err(NativeGoReproducerError::SolutionNotReproducible)),
        ),
    }
}

/// How one step of a native Go reproduction goes: the next stage and
/// action after `event` arrives in `stage`.
pub open spec fn native_go_step_spec(
    reproducer: NativeGoReproducer,
    stage: NativeGoStage,
    event: NativeGoEvent,
    next: NativeGoStage,
    action: NativeGoAction,
) -> bool {
    let fail = |e: NativeGoReproducerError|
        next is Done && action == NativeGoAction::Finish(Err(e));
    match event {
        NativeGoEvent::WorkdirCreated(ok) => if ok {
            next is CreatingOutputFile && action is CreateOutputFile
        } else {
            fail(NativeGoReproducerError::FailedToCreateWorkdir)
        },
        NativeGoEvent::OutputFileCreated(ok) => if ok {
            &&& next is RunningHarness
            &&& action matches NativeGoAction::RunHarness { program, args }
            &&& program@ == "bash"@
            &&& string_views(args@) == seq![reproducer.harness_binary@, "/tmp"@]
        } else {
            fail(NativeGoReproducerError::FailedToCreateOutputFile)
        },
        NativeGoEvent::HarnessExited(status) => match status {
            Some(success) => if success {
                fail(NativeGoReproducerError::SolutionNotReproducible)
            } else {
                next is ReadingOutput && action is ReadOutput
            },
            None => fail(NativeGoReproducerError::FailedToRunHarness),
        },
        NativeGoEvent::OutputRead(out) => match out {
            Some(trace) => if valid_utf8(trace@) {
                native_go_located_spec(
                    trace,
                    Some(spec_seed_entry(decode_utf8(trace@))),
                    next,
                    action,
                )
            } else {
                fail(NativeGoReproducerError::FailedToReadOutputFile)
            },
            None => fail(NativeGoReproducerError::FailedToReadOutputFile),
        },
        NativeGoEvent::TestCaseRead(bytes) => match bytes {
            Some(input) => {
                &&& stage matches NativeGoStage::ReadingTestCase { trace }
                &&& next is Done
                &&& action == NativeGoAction::Finish(
                    Ok(ReproducedSolution { cause: SolutionCause::Crash, input, trace }),
                )
            },
            None => fail(NativeGoReproducerError::FailedToReadTestCase),
        },
    }
}

/// The first stage of a native Go reproduction and the step it asks for.
pub fn native_go_start() -> (r: (NativeGoStage, NativeGoAction))
    ensures
        r.0 is CreatingWorkdir,
        r.1 is CreateWorkdir,
{
    (NativeGoStage::CreatingWorkdir, NativeGoAction::CreateWorkdir)
}

/// Advances a native Go reproduction by the outcome of the step it asked
/// for.
pub fn native_go_step(
    reproducer: &NativeGoReproducer,
    stage: NativeGoStage,
    event: NativeGoEvent,
) -> (r: (NativeGoStage, NativeGoAction))
    requires
        native_go_expects(stage, event),
    ensures
        native_go_step_spec(*reproducer, stage, event, r.0, r.1),
{
    let fail = |e: NativeGoReproducerError| -> (r: (NativeGoStage, NativeGoAction))
        ensures
            r.0 is Done && r.1 == NativeGoAction::Finish(Err(e)),
        { (NativeGoStage::Done, NativeGoAction::Finish(Err(e))) };
    match event {
        NativeGoEvent::WorkdirCreated(ok) => if ok {
            (NativeGoStage::CreatingOutputFile, NativeGoAction::CreateOutputFile)
        } else {
            fail(NativeGoReproducerError::FailedToCreateWorkdir)
        },
        NativeGoEvent::OutputFileCreated(ok) => if ok {
            let mut args: Vec<String> = Vec::new();
            push_str(&mut args, reproducer.harness_binary.as_str());
            push_str(&mut args, "/tmp");
            proof {
                assert(string_views(args@) =~= seq![reproducer.harness_binary@, "/tmp"@]);
            }
            (
                NativeGoStage::RunningHarness,
                NativeGoAction::RunHarness { program: String::from_str("bash"), args },
            )
        } else {
            fail(NativeGoReproducerError::FailedToCreateOutputFile)
        },
        NativeGoEvent::HarnessExited(status) => match status {
            Some(success) => if success {
                fail(NativeGoReproducerError::SolutionNotReproducible)
            } else {
                (NativeGoStage::ReadingOutput, NativeGoAction::ReadOutput)
            },
            None => fail(NativeGoReproducerError::FailedToRunHarness),
        },
        NativeGoEvent::OutputRead(out) => match out {
            Some(trace) => {
                let copy = trace.clone();
                match utf8_text(copy) {
                    Some(text) => {
                        let capture = named_capture(
                            "(?m)failure while testing seed corpus entry: (?<test_case>.*)",
                            "test_case",
                            text.as_str(),
                        );
                        native_go_located(trace, capture)
                    },
                    None => fail(NativeGoReproducerError::FailedToReadOutputFile),
                }
            },
            None => fail(NativeGoReproducerError::FailedToReadOutputFile),
        },
        NativeGoEvent::TestCaseRead(bytes) => match bytes {
            Some(input) => match stage {
                NativeGoStage::ReadingTestCase { trace } => (
                    NativeGoStage::Done,
                    NativeGoAction::Finish(
                        Ok(ReproducedSolution { cause: SolutionCause::Crash, input, trace }),
                    ),
                ),
                _ => {
                    proof {
                        assert(false);
                    }
                    fail(NativeGoReproducerError::FailedToReadTestCase)
                },
            },
            None => fail(NativeGoReproducerError::FailedToReadTestCase),
        },
    }
}


/// A run of a native Go reproduction: `stages[i]` is where it stood when
/// `events[i]` arrived, leading to `stages[i + 1]` and `actions[i]`.
pub open spec fn native_go_trace(
    reproducer: NativeGoReproducer,
    stages: Seq<NativeGoStage>,
    events: Seq<NativeGoEvent>,
    actions: Seq<NativeGoAction>,
) -> bool {
    &&& stages.len() == events.len() + 1
    &&& actions.len() == events.len()
    &&& stages[0] is CreatingWorkdir
    &&& forall|i: int|
        0 <= i < events.len() ==> native_go_expects(stages[i], #[trigger] events[i])
            && native_go_step_spec(reproducer, stages[i], events[i], stages[i + 1], actions[i])
}

proof fn lemma_native_go_history(
    reproducer: NativeGoReproducer,
    stages: Seq<NativeGoStage>,
    events: Seq<NativeGoEvent>,
    actions: Seq<NativeGoAction>,
    i: int,
)
    requires
        native_go_trace(reproducer, stages, events, actions),
        0 <= i < stages.len(),
    ensures
        (stages[i] is ReadingOutput || stages[i] is ReadingTestCase) ==> exists|e: int|
            0 <= e < i && #[trigger] events[e] == NativeGoEvent::HarnessExited(Some(false)),
        stages[i] matches NativeGoStage::ReadingTestCase { trace } ==> exists|e: int|
            0 <= e < i && #[trigger] events[e] == NativeGoEvent::OutputRead(Some(trace)),
    decreases i,
{
    if i > 0 {
        lemma_native_go_history(reproducer, stages, events, actions, i - 1);
        let p: int = i - 1;
        assert(native_go_expects(stages[p], events[p]));
        assert(native_go_step_spec(reproducer, stages[p], events[p], stages[i], actions[p]));
        if stages[i] is ReadingOutput {
            assert(events[p] == NativeGoEvent::HarnessExited(Some(false)));
        }
        if let NativeGoStage::ReadingTestCase { trace } = stages[i] {
            assert(events[p] == NativeGoEvent::OutputRead(Some(trace)));
        }
    }
}

/// A native Go reproduction reports a crash only after the harness run
/// failed; the crash it reports has the seed corpus entry that was read as
/// its input and the output of the failed run as its trace.
pub proof fn law_native_go_crash_is_the_failing_entry(
    reproducer: NativeGoReproducer,
    stages: Seq<NativeGoStage>,
    events: Seq<NativeGoEvent>,
    actions: Seq<NativeGoAction>,
    k: int,
    solution: ReproducedSolution,
)
    requires
        native_go_trace(reproducer, stages, events, actions),
        0 <= k < actions.len(),
        actions[k] == NativeGoAction::Finish(Ok(solution)),
    ensures
        solution.cause == SolutionCause::Crash,
        events[k] == NativeGoEvent::TestCaseRead(Some(solution.input)),
        exists|e: int|
            0 <= e < k && #[trigger] events[e] == NativeGoEvent::OutputRead(Some(solution.trace)),
        exists|e: int|
            0 <= e < k && #[trigger] events[e] == NativeGoEvent::HarnessExited(Some(false)),
{
    assert(native_go_expects(stages[k], events[k]));
    assert(native_go_step_spec(reproducer, stages[k], events[k], stages[k + 1], actions[k]));
    lemma_native_go_history(reproducer, stages, events, actions, k);
}

/// A harness run that exits successfully did not reproduce the crash.
pub proof fn law_native_go_successful_run_is_not_reproducible(
    reproducer: NativeGoReproducer,
    next: NativeGoStage,
    action: NativeGoAction,
)
    requires
        native_go_step_spec(
            reproducer,
            NativeGoStage::RunningHarness,
            NativeGoEvent::HarnessExited(Some(true)),
            next,
            action,
        ),
    ensures
        action == NativeGoAction::Finish(Err(NativeGoReproducerError::SolutionNotReproducible)),
{
}

} // verus!
