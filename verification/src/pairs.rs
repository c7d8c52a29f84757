//! Enumeration of the unordered pairs over an ordered branch list.
//!
//! For indices `i < j` into the input sequence, the pair is evaluated as
//! `(into = names[i], from = names[j])`, so every two branches are compared
//! exactly once, in a fixed lexicographic order of their index pair.

use vstd::prelude::*;

verus! {

/// Strict lexicographic order on index pairs.
pub open spec fn lex_less(a: (usize, usize), b: (usize, usize)) -> bool {
    a.0 < b.0 || (a.0 == b.0 && a.1 < b.1)
}

/// Whether the sequence holds the index pair `(i, j)`.
pub open spec fn contains_pair(s: Seq<(usize, usize)>, i: usize, j: usize) -> bool {
    exists|k: int| 0 <= k < s.len() && s[k] == (i, j)
}

/// How many pairs `(a, b)` with `i <= a < b < n` there are.
pub open spec fn pair_count_from(i: int, n: int) -> int
    decreases n - i,
{
    if i >= n {
        0
    } else {
        (n - i - 1) + pair_count_from(i + 1, n)
    }
}

/// How many unordered pairs a list of `n` names yields.
pub open spec fn total_pairs(n: int) -> int {
    pair_count_from(0, n)
}

/// The tail counts form the usual closed sum: there are
/// `(n - i) * (n - i - 1) / 2` pairs `(a, b)` with `i <= a < b < n`.
pub proof fn lemma_pair_count_from(i: int, n: int)
    requires
        0 <= i <= n,
    ensures
        pair_count_from(i, n) * 2 == (n - i) * (n - i - 1),
    decreases n - i,
{
    if i < n {
        lemma_pair_count_from(i + 1, n);
        assert(pair_count_from(i, n) == (n - i - 1) + pair_count_from(i + 1, n));
        assert(pair_count_from(i, n) * 2 == (n - i - 1) * 2 + pair_count_from(i + 1, n) * 2);
        assert((n - i - 1) * 2 + (n - i - 1) * (n - i - 2) == (n - i) * (n - i - 1))
            by (nonlinear_arith);
    } else {
        assert(pair_count_from(i, n) == 0);
        assert((n - i) * (n - i - 1) == 0) by (nonlinear_arith)
            requires
                i == n,
        ;
    }
}

/// A list of `n` names yields `n * (n - 1) / 2` unordered pairs.
pub proof fn lemma_total_pairs(n: int)
    requires
        n >= 0,
    ensures
        total_pairs(n) * 2 == n * (n - 1),
{
    lemma_pair_count_from(0, n);
}

/// Lists every index pair `(i, j)` with `i < j < n`, in lexicographic
/// order, each exactly once.
pub fn pair_indices(n: usize) -> (r: Vec<(usize, usize)>)
    ensures
        r@.len() == total_pairs(n as int),
        forall|k: int| 0 <= k < r@.len() ==> (#[trigger] r@[k]).0 < r@[k].1 && r@[k].1 < n,
        forall|k1: int, k2: int|
            0 <= k1 < k2 < r@.len() ==> lex_less(#[trigger] r@[k1], #[trigger] r@[k2]),
        forall|i: usize, j: usize| i < j && j < n ==> #[trigger] contains_pair(r@, i, j),
{
    let mut acc: Vec<(usize, usize)> = Vec::new();
    let mut i: usize = 0;
    while i < n
        invariant
            i <= n,
            acc@.len() + pair_count_from(i as int, n as int) == total_pairs(n as int),
            forall|k: int| 0 <= k < acc@.len() ==> (#[trigger] acc@[k]).0 < acc@[k].1
                && acc@[k].1 < n,
            forall|k1: int, k2: int|
                0 <= k1 < k2 < acc@.len() ==> lex_less(#[trigger] acc@[k1], #[trigger] acc@[k2]),
            forall|a: usize, b: usize|
                a < b && b < n && a < i ==> #[trigger] contains_pair(acc@, a, b),
            forall|k: int| 0 <= k < acc@.len() ==> (#[trigger] acc@[k]).0 < i,
        decreases n - i,
    {
        let mut j: usize = i + 1;
        while j < n
            invariant
                i < n,
                i + 1 <= j <= n,
                acc@.len() + (n - j) + pair_count_from(i as int + 1, n as int) == total_pairs(
                    n as int,
                ),
                forall|k: int| 0 <= k < acc@.len() ==> (#[trigger] acc@[k]).0 < acc@[k].1
                    && acc@[k].1 < n,
                forall|k1: int, k2: int|
                    0 <= k1 < k2 < acc@.len() ==> lex_less(
                        #[trigger] acc@[k1],
                        #[trigger] acc@[k2],
                    ),
                forall|a: usize, b: usize|
                    a < b && b < n && a < i ==> #[trigger] contains_pair(acc@, a, b),
                forall|b: usize| i < b && b < j ==> #[trigger] contains_pair(acc@, i, b),
                forall|k: int| 0 <= k < acc@.len() ==> (#[trigger] acc@[k]).0 < i || (acc@[k].0
                    == i && acc@[k].1 < j),
            decreases n - j,
        {
            let ghost prior = acc@;
            acc.push((i, j));
            proof {
                assert(acc@ == prior.push((i, j)));
                assert(acc@[acc@.len() - 1] == (i, j));
                assert forall|a: usize, b: usize|
                    a < b && b < n && (a < i || (a == i && b <= j)) implies #[trigger] contains_pair(
                    acc@,
                    a,
                    b,
                ) by {
                    if a == i && b == j {
                        assert(acc@[acc@.len() - 1] == (a, b));
                    } else {
                        assert(contains_pair(prior, a, b));
                        let k = choose|k: int| 0 <= k < prior.len() && prior[k] == (a, b);
                        assert(acc@[k] == (a, b));
                    }
                }
                assert forall|k1: int, k2: int| 0 <= k1 < k2 < acc@.len() implies lex_less(
                    #[trigger] acc@[k1],
                    #[trigger] acc@[k2],
                ) by {
                    if k2 == acc@.len() - 1 {
                        assert(acc@[k1] == prior[k1]);
                    } else {
                        assert(acc@[k1] == prior[k1]);
                        assert(acc@[k2] == prior[k2]);
                    }
                }
            }
            j = j + 1;
        }
        i = i + 1;
    }
    acc
}

} // verus!
