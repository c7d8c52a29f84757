//! Result and error types for a pairwise merge-compatibility run.

use vstd::prelude::*;
use crate::analysis::MergeAnalysis;

verus! {

/// The outcome of a trial three-way merge performed for a pair whose
/// classification was [`MergeAnalysis::Normal`].
#[derive(Clone, Copy, Debug, PartialEq, Eq, Structural)]
pub enum TrialMergeResult {
    /// The merged index contains conflicting entries; the working tree has
    /// been populated with the conflicted state for inspection.
    ConflictDetected,
    /// The three-way merge produced no conflicting entries.
    CleanlyResolved,
}

/// Why the evaluation of a single pair (or the surrounding run) failed.
#[derive(Clone, Copy, Debug, PartialEq, Eq, Structural)]
pub enum AnalysisError {
    /// A supplied name does not resolve to a local branch reference.
    UnknownBranch,
    /// The merge-base lookup failed for a pair that was classified as
    /// requiring a normal merge.
    NoCommonAncestor,
    /// A lower-level repository operation failed.
    BackendFailure,
}

/// Everything one evaluated pair can report.
#[derive(Clone, Copy, Debug, PartialEq, Eq, Structural)]
pub enum PairOutcome {
    /// The pair classified as fast-forwardable; no trial merge was run.
    FastForward,
    /// The pair classified as already up to date; no trial merge was run.
    UpToDate,
    /// The backend reported no merge opportunity; no trial merge was run.
    NoMergePossible,
    /// The backend reported an unrecognized analysis; no trial merge was run.
    Unrecognized,
    /// The pair classified as normal and the trial merge resolved cleanly.
    NormalCleanlyResolved,
    /// The pair classified as normal and the trial merge conflicted.
    NormalConflictDetected,
    /// The pair could not be evaluated.
    Failed(AnalysisError),
}

/// The outcome reported for a pair whose classification needed no trial
/// merge, i.e. any classification other than [`MergeAnalysis::Normal`].
pub open spec fn direct_outcome(a: MergeAnalysis) -> PairOutcome {
    match a {
        MergeAnalysis::FastForward => PairOutcome::FastForward,
        MergeAnalysis::Normal => PairOutcome::Failed(AnalysisError::BackendFailure),
        MergeAnalysis::UpToDate => PairOutcome::UpToDate,
        MergeAnalysis::NoMergePossible => PairOutcome::NoMergePossible,
        MergeAnalysis::Unrecognized => PairOutcome::Unrecognized,
    }
}

/// The outcome reported for a normal pair from its trial-merge result.
pub open spec fn trial_outcome_of(t: TrialMergeResult) -> PairOutcome {
    match t {
        TrialMergeResult::ConflictDetected => PairOutcome::NormalConflictDetected,
        TrialMergeResult::CleanlyResolved => PairOutcome::NormalCleanlyResolved,
    }
}

/// True of the outcomes a pair can report once its classification came
/// back as normal: a trial-merge result, or a failure along the way.  Only
/// on this path may the index or working tree have been touched.
pub open spec fn is_normal_path_outcome(o: PairOutcome) -> bool {
    ||| o == PairOutcome::NormalCleanlyResolved
    ||| o == PairOutcome::NormalConflictDetected
    ||| o matches PairOutcome::Failed(_)
}

/// Turns the boolean conflict query of the merged index into the trial
/// result it stands for.
pub fn trial_result_of_conflicts(has_conflicts: bool) -> (r: TrialMergeResult)
    ensures
        r == (if has_conflicts {
            TrialMergeResult::ConflictDetected
        } else {
            TrialMergeResult::CleanlyResolved
        }),
{
    if has_conflicts {
        TrialMergeResult::ConflictDetected
    } else {
        TrialMergeResult::CleanlyResolved
    }
}

/// What one evaluated pair reports: the two branch names, in the order they
/// were compared, and the outcome.
#[derive(Clone, Debug)]
pub struct PairReport {
    /// The branch merged into (the "local" side of the trial merge).
    pub into_name: String,
    /// The branch merged from (the "remote" side of the trial merge).
    pub from_name: String,
    /// What the evaluation of this pair found.
    pub outcome: PairOutcome,
}

/// The report of a whole pairwise run.
#[derive(Clone, Debug)]
pub struct RunReport {
    /// One entry per evaluated pair, in evaluation order.
    pub pairs: Vec<PairReport>,
    /// True when the run stopped early because the repository could not be
    /// captured or restored; the repository may then be left mid-trial.
    pub aborted: bool,
}

} // verus!
