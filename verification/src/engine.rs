//! The pairwise merge-compatibility engine.
//!
//! [`classify`] asks the backend how one branch could be merged into
//! another and collapses the answer into one [`MergeAnalysis`] variant.
//! [`resolve`] performs the trial three-way merge for a pair that needs a
//! content merge.  [`evaluate_pair`] runs one pair end to end, restoring
//! the repository after any trial merge, and [`run_pairwise`] drives every
//! unordered pair of a branch list through it.

use vstd::prelude::*;
use crate::analysis::{classify_bits, classification_of, MergeAnalysis};
use crate::backend;
use crate::guard::StartingPosition;
use crate::outcome::{
    direct_outcome, is_normal_path_outcome, trial_outcome_of, trial_result_of_conflicts,
    AnalysisError, PairOutcome, PairReport, RunReport, TrialMergeResult,
};
use crate::pairs::{contains_pair, pair_indices, total_pairs};

verus! {

/// Whether `p` reports the pair `(names[i], names[j])`, with `into` taken
/// from the smaller index.
pub open spec fn reports_pair(p: PairReport, names: Seq<String>, i: int, j: int) -> bool {
    &&& 0 <= i < j < names.len()
    &&& p.into_name@ == names[i]@
    &&& p.from_name@ == names[j]@
}

/// Whether some entry of `pairs` reports the pair `(names[i], names[j])`.
pub open spec fn reported(pairs: Seq<PairReport>, names: Seq<String>, i: int, j: int) -> bool {
    exists|k: int| 0 <= k < pairs.len() && reports_pair(pairs[k], names, i, j)
}

/// Whether `p` reports some pair of distinct names of the list, `into`
/// taken from the smaller index.
pub open spec fn entry_reports_a_pair(p: PairReport, names: Seq<String>) -> bool {
    exists|i: int, j: int| reports_pair(p, names, i, j)
}

/// Whether every entry of `pairs` does.
pub open spec fn each_entry_reports_a_pair(pairs: Seq<PairReport>, names: Seq<String>) -> bool {
    forall|k: int| 0 <= k < pairs.len() ==> entry_reports_a_pair(#[trigger] pairs[k], names)
}

/// Classifies the ordered pair `(into, from)`: resolves both names to
/// local branch references and collapses the backend's merge analysis of
/// merging `from`'s head into `into`'s position.  This only reads history;
/// the index and working tree are not touched.
///
/// A name that does not resolve reports `UnknownBranch`; any later backend
/// failure reports `BackendFailure`.
pub fn classify(repo: &git2::Repository, into_name: &str, from_name: &str) -> (r: Result<
    MergeAnalysis,
    AnalysisError,
>)
    ensures
        r matches Err(e) ==> e == AnalysisError::UnknownBranch || e
            == AnalysisError::BackendFailure,
{
    let our_ref = match backend::lookup_branch_ref(repo, into_name) {
        Ok(reference) => reference,
        Err(_) => {
            return Err(AnalysisError::UnknownBranch);
        },
    };
    let their_ref = match backend::lookup_branch_ref(repo, from_name) {
        Ok(reference) => reference,
        Err(_) => {
            return Err(AnalysisError::UnknownBranch);
        },
    };
    let their_head = match backend::annotated_from_ref(repo, &their_ref) {
        Ok(commit) => commit,
        Err(_) => {
            return Err(AnalysisError::BackendFailure);
        },
    };
    let bits = match backend::merge_analysis_bits(repo, &our_ref, &their_head) {
        Ok(bits) => bits,
        Err(_) => {
            return Err(AnalysisError::BackendFailure);
        },
    };
    Ok(classify_bits(bits))
}

/// Resolves both branch names to the identifiers of their head commits.
pub fn resolve_branch_heads(repo: &git2::Repository, into_name: &str, from_name: &str) -> (r:
    Result<(Vec<u8>, Vec<u8>), AnalysisError>)
    ensures
        r matches Ok(heads) ==> heads.0@.len() == backend::OID_LEN && heads.1@.len()
            == backend::OID_LEN,
        r matches Err(e) ==> e == AnalysisError::UnknownBranch || e
            == AnalysisError::BackendFailure,
{
    let our_ref = match backend::lookup_branch_ref(repo, into_name) {
        Ok(reference) => reference,
        Err(_) => {
            return Err(AnalysisError::UnknownBranch);
        },
    };
    let their_ref = match backend::lookup_branch_ref(repo, from_name) {
        Ok(reference) => reference,
        Err(_) => {
            return Err(AnalysisError::UnknownBranch);
        },
    };
    let our_head = match backend::annotated_from_ref(repo, &our_ref) {
        Ok(commit) => commit,
        Err(_) => {
            return Err(AnalysisError::BackendFailure);
        },
    };
    let their_head = match backend::annotated_from_ref(repo, &their_ref) {
        Ok(commit) => commit,
        Err(_) => {
            return Err(AnalysisError::BackendFailure);
        },
    };
    Ok((backend::annotated_commit_id(&our_head), backend::annotated_commit_id(&their_head)))
}

/// Performs the trial three-way merge for a pair classified as normal:
/// merges the trees of the two heads against the tree of their merge base
/// and inspects the resulting in-memory index.  On conflict the index is
/// written out to the working tree so the conflict markers can be
/// inspected; on a clean resolve the working tree is left untouched.
/// `HEAD` is never moved.
///
/// A missing merge base reports `NoCommonAncestor`; any other backend
/// failure reports `BackendFailure`.
pub fn resolve(repo: &git2::Repository, into_head: &Vec<u8>, from_head: &Vec<u8>) -> (r: Result<
    TrialMergeResult,
    AnalysisError,
>)
    requires
        into_head@.len() == backend::OID_LEN,
        from_head@.len() == backend::OID_LEN,
    ensures
        r matches Err(e) ==> e == AnalysisError::NoCommonAncestor || e
            == AnalysisError::BackendFailure,
{
    let base_id = match backend::merge_base_id(repo, into_head, from_head) {
        Ok(id) => id,
        Err(_) => {
            return Err(AnalysisError::NoCommonAncestor);
        },
    };
    let ancestor_commit = match backend::lookup_commit(repo, &base_id) {
        Ok(commit) => commit,
        Err(_) => {
            return Err(AnalysisError::BackendFailure);
        },
    };
    let ancestor_tree = match backend::tree_of_commit(&ancestor_commit) {
        Ok(tree) => tree,
        Err(_) => {
            return Err(AnalysisError::BackendFailure);
        },
    };
    let local_commit = match backend::lookup_commit(repo, into_head) {
        Ok(commit) => commit,
        Err(_) => {
            return Err(AnalysisError::BackendFailure);
        },
    };
    let local_tree = match backend::tree_of_commit(&local_commit) {
        Ok(tree) => tree,
        Err(_) => {
            return Err(AnalysisError::BackendFailure);
        },
    };
    let remote_commit = match backend::lookup_commit(repo, from_head) {
        Ok(commit) => commit,
        Err(_) => {
            return Err(AnalysisError::BackendFailure);
        },
    };
    let remote_tree = match backend::tree_of_commit(&remote_commit) {
        Ok(tree) => tree,
        Err(_) => {
            return Err(AnalysisError::BackendFailure);
        },
    };
    let mut merged = match backend::merge_trees_index(
        repo,
        &ancestor_tree,
        &local_tree,
        &remote_tree,
    ) {
        Ok(index) => index,
        Err(_) => {
            return Err(AnalysisError::BackendFailure);
        },
    };
    let has_conflicts = backend::index_has_conflicts(&merged);
    if has_conflicts {
        match backend::checkout_index_into_worktree(repo, &mut merged) {
            Ok(unit) => unit,
            Err(_) => {
                return Err(AnalysisError::BackendFailure);
            },
        };
    }
    Ok(trial_result_of_conflicts(has_conflicts))
}

/// The outcome a pair reports when its classification needed no trial
/// merge.
pub fn outcome_of_analysis(analysis: MergeAnalysis) -> (r: PairOutcome)
    requires
        analysis != MergeAnalysis::Normal,
    ensures
        r == direct_outcome(analysis),
{
    match analysis {
        MergeAnalysis::FastForward => PairOutcome::FastForward,
        MergeAnalysis::Normal => PairOutcome::Failed(AnalysisError::BackendFailure),
        MergeAnalysis::UpToDate => PairOutcome::UpToDate,
        MergeAnalysis::NoMergePossible => PairOutcome::NoMergePossible,
        MergeAnalysis::Unrecognized => PairOutcome::Unrecognized,
    }
}

/// The outcome a normal pair reports for its trial-merge result.
pub fn outcome_of_trial(trial: TrialMergeResult) -> (r: PairOutcome)
    ensures
        r == trial_outcome_of(trial),
        is_normal_path_outcome(r),
{
    match trial {
        TrialMergeResult::ConflictDetected => PairOutcome::NormalConflictDetected,
        TrialMergeResult::CleanlyResolved => PairOutcome::NormalCleanlyResolved,
    }
}

/// Evaluates one ordered pair end to end: classify, and for a normal
/// classification run the trial merge and then restore the repository to
/// the starting position.  The second component is true exactly when the
/// restore step failed; the run must then abort, since the repository may
/// be left mid-trial.
pub fn evaluate_pair(
    repo: &git2::Repository,
    start: &StartingPosition,
    into_name: &String,
    from_name: &String,
) -> (r: (PairOutcome, bool))
    requires
        start.wf(),
    ensures
        r.1 ==> is_normal_path_outcome(r.0),
{
    let analysis = match classify(repo, into_name.as_str(), from_name.as_str()) {
        Ok(analysis) => analysis,
        Err(e) => {
            return (PairOutcome::Failed(e), false);
        },
    };
    if analysis != MergeAnalysis::Normal {
        return (outcome_of_analysis(analysis), false);
    }
    let outcome = match resolve_branch_heads(repo, into_name.as_str(), from_name.as_str()) {
        Ok((our_head, their_head)) => match resolve(repo, &our_head, &their_head) {
            Ok(trial) => outcome_of_trial(trial),
            Err(e) => PairOutcome::Failed(e),
        },
        Err(e) => PairOutcome::Failed(e),
    };
    let restore_failed = match start.restore(repo) {
        Ok(unit) => false,
        Err(_) => true,
    };
    (outcome, restore_failed)
}

/// Evaluates every unordered pair of the branch list, in order: for
/// indices `i < j` the pair `(into = names[i], from = names[j])`.  The
/// report holds one entry per evaluated pair; when no abort occurred it
/// covers every pair exactly once.  The run aborts when the starting
/// position cannot be captured, or when a restore after a normal pair
/// fails, leaving the already-evaluated pairs in the report.
pub fn run_pairwise(repo: &git2::Repository, names: &Vec<String>) -> (r: RunReport)
    ensures
        each_entry_reports_a_pair(r.pairs@, names@),
        !r.aborted ==> r.pairs@.len() == total_pairs(names@.len() as int),
        !r.aborted ==> forall|i: int, j: int|
            0 <= i < j < names@.len() ==> #[trigger] reported(r.pairs@, names@, i, j),
        r.aborted ==> r.pairs@.len() == 0 || is_normal_path_outcome(
            r.pairs@[r.pairs@.len() - 1].outcome,
        ),
{
    let n = names.len();
    let start = match StartingPosition::capture(repo) {
        Ok(start) => start,
        Err(_) => {
            return RunReport { pairs: Vec::new(), aborted: true };
        },
    };
    let index_pairs = pair_indices(n);
    let mut pairs: Vec<PairReport> = Vec::new();
    let mut aborted = false;
    let mut k: usize = 0;
    while k < index_pairs.len() && !aborted
        invariant
            start.wf(),
            n == names@.len(),
            k <= index_pairs@.len(),
            pairs@.len() == k,
            forall|k2: int| 0 <= k2 < index_pairs@.len() ==> (#[trigger] index_pairs@[k2]).0
                < index_pairs@[k2].1 && index_pairs@[k2].1 < n,
            forall|m: int|
                0 <= m < k ==> reports_pair(
                    #[trigger] pairs@[m],
                    names@,
                    index_pairs@[m].0 as int,
                    index_pairs@[m].1 as int,
                ),
            aborted ==> k > 0 && is_normal_path_outcome(pairs@[k - 1].outcome),
        decreases index_pairs@.len() - k,
    {
        let i = index_pairs[k].0;
        let j = index_pairs[k].1;
        let (outcome, fatal) = evaluate_pair(repo, &start, &names[i], &names[j]);
        pairs.push(PairReport { into_name: names[i].clone(), from_name: names[j].clone(), outcome });
        if fatal {
            aborted = true;
        }
        k = k + 1;
    }
    proof {
        if !aborted {
            assert(k == index_pairs@.len());
            assert forall|i: int, j: int| 0 <= i < j < names@.len() implies #[trigger] reported(
                pairs@,
                names@,
                i,
                j,
            ) by {
                assert(contains_pair(index_pairs@, i as usize, j as usize));
                let m = choose|m: int|
                    0 <= m < index_pairs@.len() && index_pairs@[m] == (i as usize, j as usize);
                assert(reports_pair(pairs@[m], names@, i, j));
            }
        }
        assert forall|m: int| 0 <= m < pairs@.len() implies entry_reports_a_pair(
            #[trigger] pairs@[m],
            names@,
        ) by {
            let i = index_pairs@[m].0 as int;
            let j = index_pairs@[m].1 as int;
            assert(reports_pair(pairs@[m], names@, i, j));
        }
        assert(each_entry_reports_a_pair(pairs@, names@));
    }
    RunReport { pairs, aborted }
}

} // verus!
