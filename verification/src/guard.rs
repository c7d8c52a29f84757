//! The repository state guard.
//!
//! Before any pair is evaluated the orchestrator captures the repository's
//! position — the commit `HEAD` points at — in a [`StartingPosition`].  The
//! snapshot is immutable by construction: its field is private and nothing
//! ever reassigns it.  After every pair whose trial merge may have touched
//! the index or working tree, [`StartingPosition::restore`] hard-resets the
//! repository back to that commit.

use vstd::prelude::*;
use crate::backend;
use crate::outcome::AnalysisError;

verus! {

/// An immutable snapshot of the commit `HEAD` pointed at before the run.
pub struct StartingPosition {
    head_id: Vec<u8>,
}

impl StartingPosition {
    /// The snapshot holds a full-length commit identifier.
    pub closed spec fn wf(&self) -> bool {
        self.head_id@.len() == backend::OID_LEN
    }

    /// The captured commit identifier, as a mathematical sequence.
    pub closed spec fn id_seq(&self) -> Seq<u8> {
        self.head_id@
    }

    /// Captures the commit `HEAD` currently points at.
    pub fn capture(repo: &git2::Repository) -> (r: Result<StartingPosition, AnalysisError>)
        ensures
            r matches Ok(s) ==> s.wf(),
            r matches Err(e) ==> e == AnalysisError::BackendFailure,
    {
        match backend::head_commit_id(repo) {
            Ok(id) => Ok(StartingPosition { head_id: id }),
            Err(_) => Err(AnalysisError::BackendFailure),
        }
    }

    /// The captured commit identifier.
    pub fn head_id(&self) -> (r: &Vec<u8>)
        ensures
            r@ == self.id_seq(),
    {
        &self.head_id
    }

    /// Hard-resets `HEAD`, the index and the working tree back to the
    /// captured commit.
    pub fn restore(&self, repo: &git2::Repository) -> (r: Result<(), AnalysisError>)
        requires
            self.wf(),
        ensures
            r matches Err(e) ==> e == AnalysisError::BackendFailure,
    {
        let commit = match backend::lookup_commit(repo, &self.head_id) {
            Ok(c) => c,
            Err(_) => {
                return Err(AnalysisError::BackendFailure);
            },
        };
        match backend::hard_reset_to_commit(repo, &commit) {
            Ok(()) => Ok(()),
            Err(_) => Err(AnalysisError::BackendFailure),
        }
    }
}

} // verus!
