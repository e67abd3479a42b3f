//! Sums over the entries of a sample, and the laws of such sums.

use vstd::prelude::*;

verus! {

/// The sum of `weight` over the entries of `items`.
pub open spec fn weighted_sum<T>(items: Seq<T>, weight: spec_fn(T) -> nat) -> nat
    decreases items.len(),
{
    if items.len() == 0 {
        0
    } else {
        weighted_sum(items.drop_last(), weight) + weight(items.last())
    }
}

/// The sum over a concatenation is the sum of the two sums.
pub proof fn lemma_sum_concat<T>(a: Seq<T>, b: Seq<T>, weight: spec_fn(T) -> nat)
    ensures
        weighted_sum(a + b, weight) == weighted_sum(a, weight) + weighted_sum(b, weight),
    decreases b.len(),
{
    if b.len() == 0 {
        assert(a + b =~= a);
    } else {
        assert((a + b).drop_last() =~= a + b.drop_last());
        lemma_sum_concat(a, b.drop_last(), weight);
    }
}

/// Taking one entry out, wherever it stands, takes its weight out.
pub proof fn lemma_sum_remove<T>(items: Seq<T>, i: int, weight: spec_fn(T) -> nat)
    requires
        0 <= i < items.len(),
    ensures
        weighted_sum(items, weight) == weighted_sum(items.remove(i), weight) + weight(items[i]),
    decreases items.len(),
{
    if i == items.len() - 1 {
        assert(items.remove(i) =~= items.drop_last());
    } else {
        lemma_sum_remove(items.drop_last(), i, weight);
        assert(items.remove(i).drop_last() =~= items.drop_last().remove(i));
        assert(items.remove(i).last() == items.last());
    }
}

/// The sum does not depend on the order of the entries: two sequences that
/// hold the same entries the same number of times have the same sum.
pub proof fn lemma_sum_permutation<T>(a: Seq<T>, b: Seq<T>, weight: spec_fn(T) -> nat)
    requires
        a.to_multiset() == b.to_multiset(),
    ensures
        weighted_sum(a, weight) == weighted_sum(b, weight),
    decreases a.len(),
{
    a.to_multiset_ensures();
    b.to_multiset_ensures();
    if a.len() == 0 {
        assert(b.len() == 0);
    } else {
        let x = a.last();
        let last = a.len() - 1;
        assert(a[last] == x);
        assert(a.contains(x));
        assert(b.to_multiset().count(x) > 0);
        assert(b.contains(x));
        let i = choose|i: int| 0 <= i < b.len() && b[i] == x;
        assert(a.remove(last) =~= a.drop_last());
        assert(a.drop_last().to_multiset() =~= b.remove(i).to_multiset());
        lemma_sum_permutation(a.drop_last(), b.remove(i), weight);
        lemma_sum_remove(b, i, weight);
    }
}

/// A sum of weights that are each at most `bound` is at most the number of
/// entries times `bound`.
pub proof fn lemma_sum_bound<T>(items: Seq<T>, weight: spec_fn(T) -> nat, bound: nat)
    requires
        forall|x: T| #[trigger] weight(x) <= bound,
    ensures
        weighted_sum(items, weight) <= items.len() * bound,
    decreases items.len(),
{
    if items.len() > 0 {
        lemma_sum_bound(items.drop_last(), weight, bound);
        assert(items.drop_last().len() * bound + bound == items.len() * bound)
            by (nonlinear_arith)
            requires
                items.drop_last().len() + 1 == items.len(),
        ;
    }
}

} // verus!
