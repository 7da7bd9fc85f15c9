//! Integer arithmetic used by the sizing rules: rounded-up square roots and
//! rounded-up quotients.

use vstd::prelude::*;

verus! {

/// `root` is the least natural number whose square reaches `n`.
pub open spec fn is_ceil_sqrt(n: nat, root: nat) -> bool {
    &&& root * root >= n
    &&& root > 0 ==> (root - 1) * (root - 1) < n
}

/// The square root of `n`, rounded up.
pub open spec fn ceil_sqrt(n: nat) -> nat {
    choose|root: nat| is_ceil_sqrt(n, root)
}

/// The quotient `a / b`, rounded up. Meaningful for `b > 0`.
pub open spec fn ceil_div(a: nat, b: nat) -> nat {
    if a % b == 0 {
        a / b
    } else {
        a / b + 1
    }
}

proof fn lemma_square_monotonic(a: nat, b: nat)
    requires
        a <= b,
    ensures
        a * a <= b * b,
{
    assert(a * a <= b * b) by (nonlinear_arith)
        requires
            a <= b,
    ;
}

proof fn lemma_ceil_sqrt_exists(n: nat) -> (root: nat)
    ensures
        is_ceil_sqrt(n, root),
    decreases n,
{
    if n == 0 {
        0
    } else {
        let below = lemma_ceil_sqrt_exists((n - 1) as nat);
        if below * below >= n {
            below
        } else {
            assert((below + 1) * (below + 1) == below * below + 2 * below + 1)
                by (nonlinear_arith);
            (below + 1) as nat
        }
    }
}

/// At most one number is the rounded-up square root of `n`.
pub proof fn lemma_ceil_sqrt_unique(n: nat, a: nat, b: nat)
    requires
        is_ceil_sqrt(n, a),
        is_ceil_sqrt(n, b),
    ensures
        a == b,
{
    if a < b {
        lemma_square_monotonic(a, (b - 1) as nat);
    } else if b < a {
        lemma_square_monotonic(b, (a - 1) as nat);
    }
}

/// `ceil_sqrt(n)` meets its definition: every `n` has a rounded-up root.
pub proof fn lemma_ceil_sqrt(n: nat)
    ensures
        is_ceil_sqrt(n, ceil_sqrt(n)),
        n > 0 ==> ceil_sqrt(n) > 0,
{
    let witness = lemma_ceil_sqrt_exists(n);
    let root = ceil_sqrt(n);
    assert(is_ceil_sqrt(n, root));
    assert(root == 0 ==> root * root == 0) by (nonlinear_arith);
}

/// No number below `ceil_sqrt(n)` has a square that reaches `n`.
pub proof fn lemma_ceil_sqrt_least(n: nat, r: nat)
    requires
        r * r >= n,
    ensures
        ceil_sqrt(n) <= r,
{
    lemma_ceil_sqrt(n);
    let root = ceil_sqrt(n);
    if r < root {
        lemma_square_monotonic(r, (root - 1) as nat);
    }
}

/// Any number that meets the definition is the rounded-up square root.
pub proof fn lemma_ceil_sqrt_is(n: nat, root: nat)
    requires
        is_ceil_sqrt(n, root),
    ensures
        ceil_sqrt(n) == root,
{
    lemma_ceil_sqrt(n);
    lemma_ceil_sqrt_unique(n, root, ceil_sqrt(n));
}

/// Square root of `n`, rounded up.
pub fn ceil_sqrt_u64(n: u64) -> (root: u64)
    ensures
        root == ceil_sqrt(n as nat),
        is_ceil_sqrt(n as nat, root as nat),
        root <= 0x1_0000_0000,
{
    if n == 0 {
        proof {
            lemma_ceil_sqrt_is(0, 0);
        }
        return 0;
    }
    let mut lo: u64 = 0;
    let mut hi: u64 = 0x1_0000_0000;
    assert(0x1_0000_0000 * 0x1_0000_0000 > n) by (nonlinear_arith)
        requires
            n <= u64::MAX,
    ;
    while hi - lo > 1
        invariant
            lo < hi <= 0x1_0000_0000,
            lo * lo < n,
            hi * hi >= n,
        decreases hi - lo,
    {
        let mid: u64 = lo + (hi - lo) / 2;
        assert(mid * mid <= 0xffff_ffff * 0xffff_ffff) by (nonlinear_arith)
            requires
                mid <= 0xffff_ffff,
        ;
        if mid * mid >= n {
            hi = mid;
        } else {
            lo = mid;
        }
    }
    proof {
        assert(hi - 1 == lo);
        lemma_ceil_sqrt_is(n as nat, hi as nat);
    }
    hi
}

/// `ceil_div(a, b)` groups of `b` cover `a`, and one group fewer does not.
pub proof fn lemma_ceil_div(a: nat, b: nat)
    requires
        b > 0,
    ensures
        ceil_div(a, b) * b >= a,
        ceil_div(a, b) > 0 ==> (ceil_div(a, b) - 1) * b < a,
        ceil_div(a, b) <= a,
{
    let q0 = ceil_div(a, b);
    assert(a == b * (a / b) + a % b && 0 <= a % b < b) by (nonlinear_arith)
        requires
            b > 0,
    ;
    assert(q0 * b >= a && (q0 > 0 ==> (q0 - 1) * b < a) && q0 <= a) by (nonlinear_arith)
        requires
            a == b * (a / b) + a % b,
            0 <= a % b < b,
            b > 0,
            q0 == if a % b == 0 {
                a / b
            } else {
                a / b + 1
            },
    ;
}

/// `q` groups of `b` cover `a` exactly when `q` is at least `ceil_div(a, b)`.
pub proof fn lemma_ceil_div_least(a: nat, b: nat, q: nat)
    requires
        b > 0,
    ensures
        q * b >= a <==> ceil_div(a, b) <= q,
{
    lemma_ceil_div(a, b);
    let q0 = ceil_div(a, b);
    if q0 <= q {
        assert(q * b >= q0 * b) by (nonlinear_arith)
            requires
                q0 <= q,
                b > 0,
        ;
    } else {
        assert(q * b <= (q0 - 1) * b) by (nonlinear_arith)
            requires
                q <= q0 - 1,
                b > 0,
        ;
    }
}

/// Quotient `a / b`, rounded up.
pub fn ceil_div_u32(a: u32, b: u32) -> (q: u32)
    requires
        b > 0,
    ensures
        q == ceil_div(a as nat, b as nat),
{
    proof {
        lemma_ceil_div(a as nat, b as nat);
    }
    if a % b == 0 {
        a / b
    } else {
        a / b + 1
    }
}

} // verus!
