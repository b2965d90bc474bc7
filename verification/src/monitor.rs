use vstd::prelude::*;
use crate::reporter::Solution;

verus! {

/// The events of a fuzzing campaign, as far as monitors tell them apart.
#[derive(Clone, Debug)]
pub enum CampaignEvent {
    /// A harness found a new solution.
    NewSolution(String, Solution),
    /// Any other campaign event.
    Other,
}

/// The events of a project, as far as monitors tell them apart.
#[derive(PartialEq, Eq, Structural, Clone, Copy, Debug)]
pub enum ProjectEvent {
    /// Building the project failed.
    BuildFailure,
    /// Any other project event.
    Other,
}

/// A monitor that relays new solutions to its solution reporter.
pub struct SolutionReportingMonitor<R> {
    pub reporter: R,
}

impl<R> SolutionReportingMonitor<R> {
    pub fn new(reporter: R) -> (r: Self)
        ensures
            r.reporter == reporter,
    {
        SolutionReportingMonitor { reporter }
    }

    /// The harness and solution to hand to the reporter for a campaign
    /// event: those of a new solution, and nothing for any other event.
    pub fn solution_to_report(&self, event: CampaignEvent) -> (r: Option<(String, Solution)>)
        ensures
            match event {
                CampaignEvent::NewSolution(h, s) => r == Some((h, s)),
                CampaignEvent::Other => r is None,
            },
    {
        match event {
            CampaignEvent::NewSolution(harness, solution) => Some((harness, solution)),
            CampaignEvent::Other => None,
        }
    }
}

/// Whether a monitor that quits projects on build failures quits the
/// project on `event`.
pub fn quits_on(event: ProjectEvent) -> (r: bool)
    ensures
        r == (event == ProjectEvent::BuildFailure),
{
    match event {
        ProjectEvent::BuildFailure => true,
        ProjectEvent::Other => false,
    }
}


/// The sending half of a bounded tokio channel, used to signal a project
/// to quit.
#[verifier::external_type_specification]
#[verifier::external_body]
#[verifier::reject_recursive_types(T)]
pub struct ExSender<T>(tokio::sync::mpsc::Sender<T>);

/// Trusted: `Sender::clone` of tokio gives another sender of the same
/// channel; nothing is stated of it.
pub assume_specification<T>[ <tokio::sync::mpsc::Sender<T> as Clone>::clone ](
    _0: &tokio::sync::mpsc::Sender<T>,
) -> tokio::sync::mpsc::Sender<T>;

/// A monitor that signals its project to quit when the project's build
/// fails (see `quits_on`).
#[derive(Clone)]
pub struct QuittingBuildFailureMonitor {
    pub quit_project_sender: tokio::sync::mpsc::Sender<()>,
}

} // verus!
