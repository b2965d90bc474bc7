use vstd::prelude::*;

verus! {

/// A revision of a project's source code.
pub trait Revision {
    /// Commit hash of the head of the previous revision, `None` when there
    /// was no previous revision.
    fn previous_commit_hash(&self) -> Option<&str>;

    /// Commit hash of the head of this revision.
    fn commit_hash(&self) -> &str;

    /// The files that changed between the previous revision and this one.
    fn modified_files(&self) -> &[String];
}

} // verus!
