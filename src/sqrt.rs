use vstd::prelude::*;

verus! {

/// `r` is the integer square root of `n`: the largest natural number whose
/// square does not exceed `n`.
pub open spec fn is_root(n: int, r: int) -> bool {
    0 <= r && r * r <= n && n < (r + 1) * (r + 1)
}

/// The integer square root of `n`.
pub open spec fn root(n: int) -> int {
    choose|r: int| is_root(n, r)
}

/// A natural number has at most one integer square root.
pub proof fn lemma_root_unique(n: int, a: int, b: int)
    requires
        is_root(n, a),
        is_root(n, b),
    ensures
        a == b,
{
    if a < b {
        assert((a + 1) * (a + 1) <= b * b) by (nonlinear_arith)
            requires
                0 <= a,
                a + 1 <= b,
        ;
    } else if b < a {
        assert((b + 1) * (b + 1) <= a * a) by (nonlinear_arith)
            requires
                0 <= b,
                b + 1 <= a,
        ;
    }
}

/// Integer square root, found by counting up from zero.
pub fn isqrt(n: u32) -> (r: u32)
    ensures
        is_root(n as int, r as int),
        r == root(n as int),
{
    let mut r: u64 = 0;
    while (r + 1) * (r + 1) <= n as u64
        invariant
            r * r <= n,
            r <= 65535,
            (r + 1) * (r + 1) <= 0x1_0000_0000u64,
        decreases n - r,
    {
        assert(r + 1 <= 65535 && r < n) by (nonlinear_arith)
            requires
                (r + 1) * (r + 1) <= n,
                n <= 0xffff_ffffu32,
        ;
        assert((r + 2) * (r + 2) <= 0x1_0000_0000u64) by (nonlinear_arith)
            requires
                r + 1 <= 65535,
        ;
        r = r + 1;
    }
    proof {
        lemma_root_unique(n as int, r as int, root(n as int));
    }
    r as u32
}

} // verus!
