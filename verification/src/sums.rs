//! Sums over sequences, and how they change when the sequence does.

use vstd::prelude::*;

verus! {

/// The sum of `f` over the items of `s`.
pub open spec fn sum_by<T>(s: Seq<T>, f: spec_fn(T) -> nat) -> nat
    decreases s.len(),
{
    if s.len() == 0 {
        0
    } else {
        sum_by(s.drop_last(), f) + f(s.last())
    }
}

/// Appending an item adds its term to the sum.
pub proof fn lemma_sum_push<T>(s: Seq<T>, x: T, f: spec_fn(T) -> nat)
    ensures
        sum_by(s.push(x), f) == sum_by(s, f) + f(x),
{
    assert(s.push(x).drop_last() =~= s);
}

/// Replacing the item at `i` swaps its term for the new one.
pub proof fn lemma_sum_update<T>(s: Seq<T>, i: int, x: T, f: spec_fn(T) -> nat)
    requires
        0 <= i < s.len(),
    ensures
        sum_by(s.update(i, x), f) + f(s[i]) == sum_by(s, f) + f(x),
    decreases s.len(),
{
    if i == s.len() - 1 {
        assert(s.update(i, x).drop_last() =~= s.drop_last());
    } else {
        lemma_sum_update(s.drop_last(), i, x, f);
        assert(s.update(i, x).drop_last() =~= s.drop_last().update(i, x));
    }
}

/// Removing the item at `i` takes its term out of the sum.
pub proof fn lemma_sum_remove<T>(s: Seq<T>, i: int, f: spec_fn(T) -> nat)
    requires
        0 <= i < s.len(),
    ensures
        sum_by(s.remove(i), f) + f(s[i]) == sum_by(s, f),
    decreases s.len(),
{
    if i == s.len() - 1 {
        assert(s.remove(i) =~= s.drop_last());
    } else {
        lemma_sum_remove(s.drop_last(), i, f);
        assert(s.remove(i).drop_last() =~= s.drop_last().remove(i));
        assert(s.remove(i).last() == s.last());
    }
}

/// No term is larger than the sum.
pub proof fn lemma_sum_bounds_item<T>(s: Seq<T>, i: int, f: spec_fn(T) -> nat)
    requires
        0 <= i < s.len(),
    ensures
        f(s[i]) <= sum_by(s, f),
    decreases s.len(),
{
    if i < s.len() - 1 {
        lemma_sum_bounds_item(s.drop_last(), i, f);
    }
}

/// The two terms of distinct positions fit into the sum together.
pub proof fn lemma_sum_bounds_pair<T>(s: Seq<T>, i: int, j: int, f: spec_fn(T) -> nat)
    requires
        0 <= i < s.len(),
        0 <= j < s.len(),
        i != j,
    ensures
        f(s[i]) + f(s[j]) <= sum_by(s, f),
    decreases s.len(),
{
    let last = s.len() - 1;
    if i == last {
        lemma_sum_bounds_item(s.drop_last(), j, f);
    } else if j == last {
        lemma_sum_bounds_item(s.drop_last(), i, f);
    } else {
        lemma_sum_bounds_pair(s.drop_last(), i, j, f);
    }
}

/// The sum is zero exactly when every term is.
pub proof fn lemma_sum_zero<T>(s: Seq<T>, f: spec_fn(T) -> nat)
    ensures
        sum_by(s, f) == 0 <==> (forall|i: int| 0 <= i < s.len() ==> f(#[trigger] s[i]) == 0),
    decreases s.len(),
{
    if s.len() > 0 {
        lemma_sum_zero(s.drop_last(), f);
        if sum_by(s, f) == 0 {
            assert forall|i: int| 0 <= i < s.len() implies f(#[trigger] s[i]) == 0 by {
                if i < s.len() - 1 {
                    assert(s.drop_last()[i] == s[i]);
                }
            }
        } else if forall|i: int| 0 <= i < s.len() ==> f(#[trigger] s[i]) == 0 {
            assert forall|i: int| 0 <= i < s.drop_last().len() implies f(
                #[trigger] s.drop_last()[i],
            ) == 0 by {
                assert(s.drop_last()[i] == s[i]);
            }
            assert(f(s[s.len() - 1]) == 0);
        }
    }
}

/// The sum over a prefix is no larger than the sum over the whole.
pub proof fn lemma_sum_prefix<T>(s: Seq<T>, n: int, f: spec_fn(T) -> nat)
    requires
        0 <= n <= s.len(),
    ensures
        sum_by(s.take(n), f) <= sum_by(s, f),
    decreases s.len(),
{
    if n == s.len() {
        assert(s.take(n) =~= s);
    } else {
        lemma_sum_prefix(s.drop_last(), n, f);
        assert(s.drop_last().take(n) =~= s.take(n));
    }
}

/// The sum over a prefix grows by the term of the item that the prefix is extended with.
pub proof fn lemma_sum_take_next<T>(s: Seq<T>, n: int, f: spec_fn(T) -> nat)
    requires
        0 <= n < s.len(),
    ensures
        sum_by(s.take(n + 1), f) == sum_by(s.take(n), f) + f(s[n]),
{
    assert(s.take(n + 1).drop_last() =~= s.take(n));
}

/// Where no term is larger than `bound`, the sum is no larger than `bound` for every item.
pub proof fn lemma_sum_within<T>(s: Seq<T>, f: spec_fn(T) -> nat, bound: nat)
    requires
        forall|i: int| 0 <= i < s.len() ==> f(#[trigger] s[i]) <= bound,
    ensures
        sum_by(s, f) <= s.len() * bound,
    decreases s.len(),
{
    if s.len() > 0 {
        assert forall|i: int| 0 <= i < s.drop_last().len() implies f(#[trigger] s.drop_last()[i])
            <= bound by {
            assert(s.drop_last()[i] == s[i]);
        }
        lemma_sum_within(s.drop_last(), f, bound);
        assert(f(s[s.len() - 1]) <= bound);
        assert((s.len() - 1) * bound + bound == s.len() * bound) by (nonlinear_arith);
    } else {
        assert(0 * bound == 0) by (nonlinear_arith);
    }
}

} // verus!
