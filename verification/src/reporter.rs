use vstd::prelude::*;
use vstd::string::*;

verus! {

/// What kind of solution a fuzzer found, with the output it produced.
#[derive(Clone, Debug)]
pub enum SolutionMetadata {
    /// The harness crashed; the stack trace.
    Crash(String),
    /// Two harness builds disagreed; the report of the difference.
    Differential(String),
    /// The harness did not finish in time; what it printed.
    Timeout(String),
}

/// A solution found by a fuzzer: its id, its input in Base64 and what kind
/// of solution it is.
#[derive(Clone, Debug)]
pub struct Solution {
    pub id: String,
    pub input_base64: String,
    pub metadata: SolutionMetadata,
}

/// Reports new solutions on the standard error stream.
#[derive(Clone, Copy, Debug)]
pub struct StdErrSolutionReporter;

/// The report of a new solution of harness `harness` of project `project`.
pub open spec fn spec_solution_report(
    project: Seq<char>,
    harness: Seq<char>,
    solution: Solution,
) -> Seq<char> {
    let where_found = "(project='"@ + project + "' harness='"@ + harness + "')\n Base64: "@
        + solution.input_base64@;
    match solution.metadata {
        SolutionMetadata::Crash(trace) => "New crash id='"@ + solution.id@ + "' "@ + where_found
            + " \n ===== stack trace ===== \n "@ + trace@ + " \n"@,
        SolutionMetadata::Differential(trace) => "New differential solution "@ + where_found
            + " \n ===== stack trace ===== \n "@ + trace@,
        SolutionMetadata::Timeout(_) => "New timeout "@ + where_found,
    }
}

/// The head of every report: where the solution was found and its input.
pub open spec fn report_origin(project: Seq<char>, harness: Seq<char>, input: Seq<char>) -> Seq<char> {
    "(project='"@ + project + "' harness='"@ + harness + "')\n Base64: "@ + input
}

/// A crash report names the crash's id, the project, the harness and the
/// input, and then holds the whole stack trace verbatim, followed only by
/// `" \n"`; a differential report ends with its whole trace; a timeout
/// report holds no output of the harness.
pub proof fn law_report_holds_the_whole_trace(
    project: Seq<char>,
    harness: Seq<char>,
    solution: Solution,
)
    ensures
        ({
            let r = spec_solution_report(project, harness, solution);
            let origin = report_origin(project, harness, solution.input_base64@);
            match solution.metadata {
                SolutionMetadata::Crash(trace) => {
                    let head = "New crash id='"@ + solution.id@ + "' "@ + origin
                        + " \n ===== stack trace ===== \n "@;
                    &&& r.len() == head.len() + trace@.len() + 2
                    &&& r.take(head.len() as int) == head
                    &&& r.subrange(head.len() as int, head.len() + trace@.len() as int) == trace@
                    &&& r.skip(head.len() + trace@.len() as int) == " \n"@
                },
                SolutionMetadata::Differential(trace) => {
                    let head = "New differential solution "@ + origin
                        + " \n ===== stack trace ===== \n "@;
                    &&& r.len() == head.len() + trace@.len()
                    &&& r.take(head.len() as int) == head
                    &&& r.skip(head.len() as int) == trace@
                },
                SolutionMetadata::Timeout(_) => r == "New timeout "@ + origin,
            }
        }),
{
    let r = spec_solution_report(project, harness, solution);
    let origin = report_origin(project, harness, solution.input_base64@);
    reveal_strlit(" \n");
    match solution.metadata {
        SolutionMetadata::Crash(trace) => {
            let head = "New crash id='"@ + solution.id@ + "' "@ + origin
                + " \n ===== stack trace ===== \n "@;
            assert(r =~= head + trace@ + " \n"@);
            assert(r.take(head.len() as int) =~= head);
            assert(r.subrange(head.len() as int, head.len() + trace@.len() as int) =~= trace@);
            assert(r.skip(head.len() + trace@.len() as int) =~= " \n"@);
        },
        SolutionMetadata::Differential(trace) => {
            let head = "New differential solution "@ + origin
                + " \n ===== stack trace ===== \n "@;
            assert(r =~= head + trace@);
            assert(r.take(head.len() as int) =~= head);
            assert(r.skip(head.len() as int) =~= trace@);
        },
        SolutionMetadata::Timeout(_) => {
            assert(r =~= "New timeout "@ + origin);
        },
    }
}

impl StdErrSolutionReporter {
    /// The text reported (as one line of the standard error stream) for a
    /// new solution of harness `harness` of project `project`.
    pub fn report_text(&self, project: &str, harness: &str, solution: &Solution) -> (r: String)
        ensures
            r@ == spec_solution_report(project@, harness@, *solution),
    {
        let mut where_found = String::from_str("(project='");
        where_found.append(project);
        where_found.append("' harness='");
        where_found.append(harness);
        where_found.append("')\n Base64: ");
        where_found.append(solution.input_base64.as_str());
        match &solution.metadata {
            SolutionMetadata::Crash(trace) => {
                let mut r = String::from_str("New crash id='");
                r.append(solution.id.as_str());
                r.append("' ");
                r.append(where_found.as_str());
                r.append(" \n ===== stack trace ===== \n ");
                r.append(trace.as_str());
                r.append(" \n");
                r
            },
            SolutionMetadata::Differential(trace) => {
                let mut r = String::from_str("New differential solution ");
                r.append(where_found.as_str());
                r.append(" \n ===== stack trace ===== \n ");
                r.append(trace.as_str());
                r
            },
            SolutionMetadata::Timeout(_) => {
                let mut r = String::from_str("New timeout ");
                r.append(where_found.as_str());
                r
            },
        }
    }
}


/// Reports solutions through the reporter `inner` and then signals the
/// owning project to quit; its reports always succeed.
#[derive(Clone)]
pub struct QuittingSolutionReporter<R> {
    pub inner: R,
    pub quit_project_sender: tokio::sync::mpsc::Sender<()>,
}

impl<R> QuittingSolutionReporter<R> {
    pub fn new(inner: R, quit_project_sender: tokio::sync::mpsc::Sender<()>) -> (r: Self)
        ensures
            r.inner == inner,
            r.quit_project_sender == quit_project_sender,
    {
        QuittingSolutionReporter { inner, quit_project_sender }
    }
}

} // verus!
