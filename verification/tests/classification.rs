use merge_probe::analysis::{
    classify_bits, MergeAnalysis, FAST_FORWARD_BIT, NORMAL_BIT, UP_TO_DATE_BIT,
};
use merge_probe::outcome::{trial_result_of_conflicts, PairOutcome, TrialMergeResult};
use merge_probe::engine::{outcome_of_analysis, outcome_of_trial};
use merge_probe::pairs::pair_indices;

#[test]
fn single_flags_classify_to_their_variant() {
    assert_eq!(classify_bits(FAST_FORWARD_BIT), MergeAnalysis::FastForward);
    assert_eq!(classify_bits(NORMAL_BIT), MergeAnalysis::Normal);
    assert_eq!(classify_bits(UP_TO_DATE_BIT), MergeAnalysis::UpToDate);
    assert_eq!(classify_bits(0), MergeAnalysis::NoMergePossible);
}

#[test]
fn unrecognized_flags_classify_as_unrecognized() {
    assert_eq!(classify_bits(8), MergeAnalysis::Unrecognized);
    assert_eq!(classify_bits(16), MergeAnalysis::Unrecognized);
    assert_eq!(classify_bits(8 | 16), MergeAnalysis::Unrecognized);
}

#[test]
fn fast_forward_dominates_every_other_flag() {
    assert_eq!(classify_bits(FAST_FORWARD_BIT | NORMAL_BIT), MergeAnalysis::FastForward);
    assert_eq!(classify_bits(FAST_FORWARD_BIT | UP_TO_DATE_BIT), MergeAnalysis::FastForward);
    assert_eq!(
        classify_bits(FAST_FORWARD_BIT | NORMAL_BIT | UP_TO_DATE_BIT | 8),
        MergeAnalysis::FastForward
    );
}

#[test]
fn normal_dominates_up_to_date_and_unrecognized_flags() {
    assert_eq!(classify_bits(NORMAL_BIT | UP_TO_DATE_BIT), MergeAnalysis::Normal);
    assert_eq!(classify_bits(NORMAL_BIT | 8), MergeAnalysis::Normal);
}

#[test]
fn up_to_date_dominates_unrecognized_flags() {
    assert_eq!(classify_bits(UP_TO_DATE_BIT | 8), MergeAnalysis::UpToDate);
}

#[test]
fn conflict_query_maps_to_trial_result() {
    assert_eq!(trial_result_of_conflicts(true), TrialMergeResult::ConflictDetected);
    assert_eq!(trial_result_of_conflicts(false), TrialMergeResult::CleanlyResolved);
}

#[test]
fn non_normal_classifications_report_directly() {
    assert_eq!(outcome_of_analysis(MergeAnalysis::FastForward), PairOutcome::FastForward);
    assert_eq!(outcome_of_analysis(MergeAnalysis::UpToDate), PairOutcome::UpToDate);
    assert_eq!(outcome_of_analysis(MergeAnalysis::NoMergePossible), PairOutcome::NoMergePossible);
    assert_eq!(outcome_of_analysis(MergeAnalysis::Unrecognized), PairOutcome::Unrecognized);
}

#[test]
fn trial_results_report_as_normal_outcomes() {
    assert_eq!(
        outcome_of_trial(TrialMergeResult::ConflictDetected),
        PairOutcome::NormalConflictDetected
    );
    assert_eq!(
        outcome_of_trial(TrialMergeResult::CleanlyResolved),
        PairOutcome::NormalCleanlyResolved
    );
}

#[test]
fn pair_indices_of_small_lists() {
    assert_eq!(pair_indices(0), Vec::<(usize, usize)>::new());
    assert_eq!(pair_indices(1), Vec::<(usize, usize)>::new());
    assert_eq!(pair_indices(2), vec![(0, 1)]);
    assert_eq!(pair_indices(3), vec![(0, 1), (0, 2), (1, 2)]);
    assert_eq!(pair_indices(4), vec![(0, 1), (0, 2), (0, 3), (1, 2), (1, 3), (2, 3)]);
}

#[test]
fn pair_indices_count_matches_the_closed_form() {
    for n in 0..12usize {
        assert_eq!(pair_indices(n).len() * 2, n * n.saturating_sub(1));
    }
}
