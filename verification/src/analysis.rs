//! Classification of a backend merge-analysis verdict.
//!
//! The backend reports the opportunities for merging one branch head into
//! another as a set of bit flags that may combine.  This module fixes a
//! single deterministic precedence order that collapses those flags into
//! exactly one [`MergeAnalysis`] variant.

use vstd::prelude::*;

verus! {

/// The analysis bit reported when a normal (content) merge is required.
pub const NORMAL_BIT: u32 = 1;

/// The analysis bit reported when the merge target already contains the
/// other head, so nothing needs to be merged.
pub const UP_TO_DATE_BIT: u32 = 2;

/// The analysis bit reported when the other head can be fast-forwarded to
/// without any content merge.
pub const FAST_FORWARD_BIT: u32 = 4;

/// The outcome of classifying an ordered branch pair `(into, from)`.
#[derive(Clone, Copy, Debug, PartialEq, Eq, Structural)]
pub enum MergeAnalysis {
    /// `from`'s head is a descendant of `into`'s head: merging is a plain
    /// fast-forward with no content merge.
    FastForward,
    /// The heads have diverged from their common ancestor: a content merge
    /// is required, which may or may not conflict.
    Normal,
    /// `into`'s head already reaches `from`'s head: nothing to merge.
    UpToDate,
    /// The backend reported no merge opportunity at all.
    NoMergePossible,
    /// The backend reported flags outside the recognized set.
    Unrecognized,
}

/// The meaning of a raw analysis word: the first matching flag wins, in the
/// fixed order fast-forward, normal, up-to-date; a word with no flag at all
/// means no merge is possible, and any remaining word is unrecognized.
pub open spec fn classification_of(bits: u32) -> MergeAnalysis {
    if bits & FAST_FORWARD_BIT != 0 {
        MergeAnalysis::FastForward
    } else if bits & NORMAL_BIT != 0 {
        MergeAnalysis::Normal
    } else if bits & UP_TO_DATE_BIT != 0 {
        MergeAnalysis::UpToDate
    } else if bits == 0 {
        MergeAnalysis::NoMergePossible
    } else {
        MergeAnalysis::Unrecognized
    }
}

/// Collapses a raw analysis word into one classification, following the
/// precedence fixed by [`classification_of`].
pub fn classify_bits(bits: u32) -> (r: MergeAnalysis)
    ensures
        r == classification_of(bits),
{
    if bits & FAST_FORWARD_BIT != 0 {
        MergeAnalysis::FastForward
    } else if bits & NORMAL_BIT != 0 {
        MergeAnalysis::Normal
    } else if bits & UP_TO_DATE_BIT != 0 {
        MergeAnalysis::UpToDate
    } else if bits == 0 {
        MergeAnalysis::NoMergePossible
    } else {
        MergeAnalysis::Unrecognized
    }
}

/// The precedence order spelled out flag by flag: the fast-forward flag
/// dominates every other, the normal flag dominates up-to-date, a word with
/// only the up-to-date flag classifies as up-to-date, the empty word means
/// no merge is possible, and a word made of none of the recognized flags is
/// unrecognized.
pub proof fn lemma_classification_precedence(bits: u32)
    ensures
        bits & FAST_FORWARD_BIT != 0 ==> classification_of(bits) == MergeAnalysis::FastForward,
        bits & FAST_FORWARD_BIT == 0 && bits & NORMAL_BIT != 0 ==> classification_of(bits)
            == MergeAnalysis::Normal,
        bits & FAST_FORWARD_BIT == 0 && bits & NORMAL_BIT == 0 && bits & UP_TO_DATE_BIT != 0
            ==> classification_of(bits) == MergeAnalysis::UpToDate,
        bits == 0 ==> classification_of(bits) == MergeAnalysis::NoMergePossible,
        bits & (FAST_FORWARD_BIT | NORMAL_BIT | UP_TO_DATE_BIT) == 0 && bits != 0
            ==> classification_of(bits) == MergeAnalysis::Unrecognized,
{
    assert(bits == 0 ==> bits & 4u32 == 0 && bits & 1u32 == 0 && bits & 2u32 == 0) by (bit_vector);
    assert(bits & (4u32 | 1u32 | 2u32) == 0 ==> bits & 4u32 == 0 && bits & 1u32 == 0 && bits
        & 2u32 == 0) by (bit_vector);
}

} // verus!
