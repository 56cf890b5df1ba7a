//! Integer parts of the ocean tide model: dissipation type and factorial ratios.

use vstd::prelude::*;

verus! {

/// Kind of dissipation in the ocean tide model.
#[derive(Debug, Clone, Copy, PartialEq, Eq, Structural)]
pub enum DissType {
    /// Kinetic energy dissipation.
    Kinetic,
    /// Potential energy dissipation.
    PE,
    /// Kinetic and potential energy dissipation.
    KinPE,
}

/// The product of the integers `lo..=hi`; 1 when the range is empty.
pub open spec fn range_product(lo: int, hi: int) -> int
    decreases hi - lo + 1,
{
    if hi < lo {
        1
    } else {
        range_product(lo, hi - 1) * hi
    }
}

/// `m!`
pub open spec fn factorial(m: nat) -> int {
    range_product(1, m as int)
}

/// A product of positive factors grows with its upper end.
proof fn lemma_range_product_monotone(lo: int, mid: int, hi: int)
    requires
        1 <= lo,
        mid <= hi,
    ensures
        1 <= range_product(lo, mid) <= range_product(lo, hi),
    decreases hi - mid,
{
    lemma_range_product_positive(lo, mid);
    if mid < hi {
        lemma_range_product_monotone(lo, mid, hi - 1);
        lemma_range_product_positive(lo, hi - 1);
        if hi >= lo {
            assert(range_product(lo, hi) == range_product(lo, hi - 1) * hi);
            assert(range_product(lo, hi - 1) <= range_product(lo, hi - 1) * hi) by (nonlinear_arith)
                requires
                    range_product(lo, hi - 1) >= 1,
                    hi >= 1,
            ;
        }
    }
}

/// A product of positive factors is positive.
proof fn lemma_range_product_positive(lo: int, hi: int)
    requires
        1 <= lo,
    ensures
        range_product(lo, hi) >= 1,
    decreases hi - lo + 1,
{
    if hi >= lo {
        lemma_range_product_positive(lo, hi - 1);
        assert(range_product(lo, hi - 1) * hi >= 1) by (nonlinear_arith)
            requires
                range_product(lo, hi - 1) >= 1,
                hi >= 1,
        ;
    }
}

/// Splitting a product range at `mid`.
proof fn lemma_range_product_split(lo: int, mid: int, hi: int)
    requires
        lo <= mid + 1,
        mid <= hi,
    ensures
        range_product(lo, mid) * range_product(mid + 1, hi) == range_product(lo, hi),
    decreases hi - mid,
{
    if hi == mid {
        assert(range_product(mid + 1, hi) == 1);
    } else {
        lemma_range_product_split(lo, mid, hi - 1);
        let a = range_product(lo, mid);
        let b = range_product(mid + 1, hi - 1);
        assert(range_product(mid + 1, hi) == b * hi);
        assert(range_product(lo, hi) == range_product(lo, hi - 1) * hi);
        assert(a * (b * hi) == (a * b) * hi) by (nonlinear_arith);
    }
}

/// The ratio of factorials `(n + s)! / (n - s)!`, that is the product of the integers
/// `n - s + 1` to `n + s`.
pub fn ratio_factorials(n: usize, s: usize) -> (r: usize)
    requires
        s <= n,
        n - s < usize::MAX,
        n + s <= usize::MAX,
        range_product(n - s + 1, n + s) <= usize::MAX,
    ensures
        r == range_product(n - s + 1, n + s),
{
    let lo: usize = n - s + 1;
    let count: usize = 2 * s;
    let mut acc: usize = 1;
    let mut k: usize = 0;
    while k < count
        invariant
            lo == n - s + 1,
            s <= n,
            n + s <= usize::MAX,
            count == 2 * s,
            k <= count,
            acc == range_product(lo as int, lo + k - 1),
            range_product(n - s + 1, n + s) <= usize::MAX,
        decreases count - k,
    {
        proof {
            lemma_range_product_monotone(lo as int, lo + k, (n + s) as int);
            assert(range_product(lo as int, lo + k) == range_product(lo as int, lo + k - 1) * (lo
                + k));
        }
        acc = acc * (lo + k);
        k = k + 1;
    }
    acc
}

/// The ratio of factorials is what its name says: multiplied by `(n - s)!` it gives
/// `(n + s)!`.
pub proof fn lemma_ratio_factorials_is_factorial_ratio(n: nat, s: nat)
    requires
        s <= n,
    ensures
        range_product(n - s + 1, (n + s) as int) * factorial((n - s) as nat) == factorial(
            n + s,
        ),
{
    lemma_range_product_split(1, n - s, (n + s) as int);
    let a = range_product(1, n - s);
    let b = range_product(n - s + 1, (n + s) as int);
    assert(a * b == b * a) by (nonlinear_arith);
    assert(factorial((n - s) as nat) == a);
    assert(factorial(n + s) == range_product(1, (n + s) as int));
}

} // verus!
