//! Finite sums over an index range, and how they change when one term
//! changes. The conservation laws of the ledger are stated with them.

use vstd::prelude::*;

verus! {

/// The sum of `f(0), ..., f(n - 1)`.
pub open spec fn sum(n: nat, f: spec_fn(int) -> int) -> int
    decreases n,
{
    if n == 0 {
        0
    } else {
        sum((n - 1) as nat, f) + f(n - 1)
    }
}

/// Sums of terms that agree are equal.
pub proof fn lemma_sum_agree(n: nat, f: spec_fn(int) -> int, g: spec_fn(int) -> int)
    requires
        forall|i: int| 0 <= i < n ==> #[trigger] f(i) == g(i),
    ensures
        sum(n, f) == sum(n, g),
    decreases n,
{
    if n > 0 {
        lemma_sum_agree((n - 1) as nat, f, g);
    }
}

/// A sum of terms that are all zero is zero.
pub proof fn lemma_sum_zero(n: nat, f: spec_fn(int) -> int)
    requires
        forall|i: int| 0 <= i < n ==> #[trigger] f(i) == 0,
    ensures
        sum(n, f) == 0,
    decreases n,
{
    if n > 0 {
        lemma_sum_zero((n - 1) as nat, f);
    }
}

/// Where one term changes by `delta` and the others stay, the sum changes
/// by `delta`.
pub proof fn lemma_sum_one_changed(
    n: nat,
    f: spec_fn(int) -> int,
    g: spec_fn(int) -> int,
    k: int,
    delta: int,
)
    requires
        0 <= k < n,
        g(k) == f(k) + delta,
        forall|i: int| 0 <= i < n && i != k ==> #[trigger] f(i) == g(i),
    ensures
        sum(n, g) == sum(n, f) + delta,
    decreases n,
{
    if n - 1 == k {
        lemma_sum_agree((n - 1) as nat, f, g);
    } else {
        lemma_sum_one_changed((n - 1) as nat, f, g, k, delta);
    }
}

/// A sum of terms that are not negative is not negative, and no term
/// exceeds it.
pub proof fn lemma_sum_bounds(n: nat, f: spec_fn(int) -> int, k: int)
    requires
        forall|i: int| 0 <= i < n ==> #[trigger] f(i) >= 0,
        0 <= k < n,
    ensures
        0 <= f(k) <= sum(n, f),
    decreases n,
{
    lemma_sum_nonnegative((n - 1) as nat, f);
    if n - 1 != k {
        lemma_sum_bounds((n - 1) as nat, f, k);
    }
}

/// A sum of terms that are not negative is not negative.
pub proof fn lemma_sum_nonnegative(n: nat, f: spec_fn(int) -> int)
    requires
        forall|i: int| 0 <= i < n ==> #[trigger] f(i) >= 0,
    ensures
        0 <= sum(n, f),
    decreases n,
{
    if n > 0 {
        lemma_sum_nonnegative((n - 1) as nat, f);
    }
}

/// The sum of sums of two families of terms is the sum of their sums.
pub proof fn lemma_sum_add(
    n: nat,
    f: spec_fn(int) -> int,
    g: spec_fn(int) -> int,
    h: spec_fn(int) -> int,
)
    requires
        forall|i: int| 0 <= i < n ==> #[trigger] h(i) == f(i) + g(i),
    ensures
        sum(n, h) == sum(n, f) + sum(n, g),
    decreases n,
{
    if n > 0 {
        lemma_sum_add((n - 1) as nat, f, g, h);
    }
}

/// A sum in which exactly the term at `k` may differ from zero is that
/// term.
pub proof fn lemma_sum_single(n: nat, f: spec_fn(int) -> int, k: int)
    requires
        0 <= k < n,
        forall|i: int| 0 <= i < n && i != k ==> #[trigger] f(i) == 0,
    ensures
        sum(n, f) == f(k),
    decreases n,
{
    if n - 1 == k {
        lemma_sum_zero((n - 1) as nat, f);
    } else {
        lemma_sum_single((n - 1) as nat, f, k);
    }
}

} // verus!
