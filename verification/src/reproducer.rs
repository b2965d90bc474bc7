use vstd::prelude::*;

verus! {

/// What made a harness run count as a reproduced solution.
#[derive(PartialEq, Eq, Structural, Clone, Copy, Debug)]
pub enum SolutionCause {
    /// The harness crashed.
    Crash,
    /// The harness exited with the exit code that signals a solution.
    ExitCode(i32),
}

/// A solution that was run again and reproduced: its cause, the input
/// that triggers it and the output the run produced.
#[derive(Debug)]
pub struct ReproducedSolution {
    pub cause: SolutionCause,
    pub input: Vec<u8>,
    pub trace: Vec<u8>,
}

} // verus!
