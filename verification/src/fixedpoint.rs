//! Exact integer arithmetic used by the pixel transforms: signed floor and
//! truncating division, an integer square root, and a 16.16 fixed-point
//! power function with a fractional exponent (computed by repeated square
//! roots over the exponent's binary digits).

use vstd::prelude::*;
use vstd::arithmetic::div_mod::lemma_fundamental_div_mod;
use vstd::arithmetic::div_mod::lemma_fundamental_div_mod_converse;
use vstd::arithmetic::mul::lemma_mul_inequality;
use vstd::arithmetic::mul::lemma_mul_upper_bound;

verus! {

/// Truncating division (toward zero) of `a` by a positive `b`.
pub open spec fn tdiv(a: int, b: int) -> int {
    if a >= 0 {
        a / b
    } else {
        -((-a) / b)
    }
}

/// Floor division of `a` by a positive `b` (what `/` means on `int`).
pub open spec fn fdiv(a: int, b: int) -> int {
    a / b
}

/// Executable truncating division on signed 64-bit values.
pub(crate) fn div_trunc(a: i64, b: i64) -> (r: i64)
    requires
        0 < b,
        -0x4000_0000_0000_0000 <= a <= 0x4000_0000_0000_0000,
    ensures
        r == tdiv(a as int, b as int),
{
    if a >= 0 {
        ((a as u64) / (b as u64)) as i64
    } else {
        let n = (-a) as u64;
        -((n / (b as u64)) as i64)
    }
}

/// Executable floor division on signed 64-bit values.
pub(crate) fn div_floor(a: i64, b: i64) -> (r: i64)
    requires
        0 < b <= 0x4000_0000_0000_0000,
        -0x4000_0000_0000_0000 <= a <= 0x4000_0000_0000_0000,
    ensures
        r == fdiv(a as int, b as int),
{
    if a >= 0 {
        ((a as u64) / (b as u64)) as i64
    } else {
        let n = (-a) as u64;
        let bu = b as u64;
        let q = (n + bu - 1) / bu;
        proof {
            lemma_fundamental_div_mod(a as int, b as int);
            let qe = (a as int) / (b as int);
            let re = (a as int) % (b as int);
            assert(a as int == (b as int) * qe + re);
            assert((n as int) + b - 1 == (-qe) * (b as int) + (b - 1 - re))
                by (nonlinear_arith)
                requires
                    n as int == -(a as int),
                    a as int == (b as int) * qe + re,
            ;
            lemma_fundamental_div_mod_converse(
                (n as int) + b - 1,
                b as int,
                -qe,
                b - 1 - re,
            );
            assert(q == -qe);
        }
        -(q as i64)
    }
}

/// Integer square root, defined by counting up.
pub open spec fn isqrt_s(n: nat) -> nat
    decreases n,
{
    if n == 0 {
        0
    } else {
        let r = isqrt_s((n - 1) as nat);
        if (r + 1) * (r + 1) <= n {
            r + 1
        } else {
            r
        }
    }
}

proof fn lemma_isqrt_bounds(n: nat)
    ensures
        isqrt_s(n) * isqrt_s(n) <= n,
        n < (isqrt_s(n) + 1) * (isqrt_s(n) + 1),
    decreases n,
{
    if n == 0 {
        assert(isqrt_s(0) == 0);
        assert(isqrt_s(n) * isqrt_s(n) <= n) by (nonlinear_arith)
            requires isqrt_s(n) == 0 && n == 0;
        assert(n < (isqrt_s(n) + 1) * (isqrt_s(n) + 1)) by (nonlinear_arith)
            requires isqrt_s(n) == 0 && n == 0;
    } else {
        lemma_isqrt_bounds((n - 1) as nat);
        let r = isqrt_s((n - 1) as nat);
        if (r + 1) * (r + 1) <= n {
            assert(isqrt_s(n) == r + 1);
            assert(n <= (r + 1) * (r + 1));
            assert((r + 1) * (r + 1) < (r + 2) * (r + 2)) by (nonlinear_arith);
            assert(isqrt_s(n) * isqrt_s(n) <= n);
            assert(n < (isqrt_s(n) + 1) * (isqrt_s(n) + 1));
        } else {
            assert(isqrt_s(n) == r);
            assert(r * r <= n);
            assert(n < (r + 1) * (r + 1));
            assert(isqrt_s(n) * isqrt_s(n) <= n);
            assert(n < (isqrt_s(n) + 1) * (isqrt_s(n) + 1));
        }
    }
}

proof fn lemma_isqrt_unique(n: nat, r: nat)
    requires
        r * r <= n,
        n < (r + 1) * (r + 1),
    ensures
        r == isqrt_s(n),
{
    lemma_isqrt_bounds(n);
    let s = isqrt_s(n);
    if r < s {
        assert((r + 1) * (r + 1) <= s * s) by (nonlinear_arith)
            requires r + 1 <= s;
        assert(false);
    }
    if s < r {
        assert((s + 1) * (s + 1) <= r * r) by (nonlinear_arith)
            requires s + 1 <= r;
        assert(false);
    }
}

/// Executable integer square root by binary search.
pub(crate) fn isqrt(n: u64) -> (r: u64)
    requires
        n <= 0x1_0000_0000,
    ensures
        r == isqrt_s(n as nat),
        r <= 0x1_0000,
{
    let mut lo: u64 = 0;
    let mut hi: u64 = 0x1_0001;
    proof {
        assert((0x1_0001 as int) * 0x1_0001 > 0x1_0000_0000);
    }
    while lo + 1 < hi
        invariant
            lo < hi <= 0x1_0001,
            (lo as int) * (lo as int) <= n,
            (n as int) < (hi as int) * (hi as int),
        decreases hi - lo,
    {
        let mid = lo + (hi - lo) / 2;
        proof {
            lemma_mul_upper_bound(mid as int, 0x1_0001, mid as int, 0x1_0001);
        }
        if mid * mid <= n {
            lo = mid;
        } else {
            hi = mid;
        }
    }
    proof {
        assert(hi == lo + 1);
        lemma_isqrt_unique(n as nat, lo as nat);
    }
    lo
}

/// 16.16 fixed-point product, truncated.
pub open spec fn mul_fp_s(a: nat, b: nat) -> nat {
    (a * b) / 65536
}

pub(crate) fn mul_fp(a: u64, b: u64) -> (r: u64)
    requires
        a <= 65536,
        b <= 65536,
    ensures
        r == mul_fp_s(a as nat, b as nat),
        r <= 65536,
{
    proof {
        lemma_mul_upper_bound(a as int, 65536, b as int, 65536);
    }
    (a * b) / 65536
}

/// 16.16 fixed-point square root.
pub open spec fn sqrt_fp_s(v: nat) -> nat {
    isqrt_s(v * 65536)
}

pub(crate) fn sqrt_fp(v: u64) -> (r: u64)
    requires
        v <= 65536,
    ensures
        r == sqrt_fp_s(v as nat),
        r <= 65536,
{
    proof {
        lemma_mul_inequality(v as int, 65536, 65536);
    }
    isqrt(v * 65536)
}

pub open spec fn pow2n(k: nat) -> nat
    decreases k,
{
    if k == 0 {
        1
    } else {
        2 * pow2n((k - 1) as nat)
    }
}

proof fn lemma_pow2n_pos(k: nat)
    ensures
        pow2n(k) >= 1,
    decreases k,
{
    if k > 0 {
        lemma_pow2n_pos((k - 1) as nat);
    }
}

proof fn lemma_pow2n_15()
    ensures
        pow2n(15) == 32768,
{
    assert(pow2n(0) == 1);
    assert(pow2n(1) == 2);
    assert(pow2n(2) == 4);
    assert(pow2n(3) == 8);
    assert(pow2n(4) == 16);
    assert(pow2n(5) == 32);
    assert(pow2n(6) == 64);
    assert(pow2n(7) == 128);
    assert(pow2n(8) == 256);
    assert(pow2n(9) == 512);
    assert(pow2n(10) == 1024);
    assert(pow2n(11) == 2048);
    assert(pow2n(12) == 4096);
    assert(pow2n(13) == 8192);
    assert(pow2n(14) == 16384);
    assert(pow2n(15) == 32768);
}

/// `x` raised to a whole number of times, in 16.16 fixed point.
pub open spec fn pow_int_s(x: nat, n: nat) -> nat
    decreases n,
{
    if n == 0 {
        65536
    } else {
        mul_fp_s(pow_int_s(x, (n - 1) as nat), x)
    }
}

/// Folds the remaining `j` binary digits of the fractional exponent `f`:
/// `cur` is the running `2^j`-th root of the base, `acc` the product so far.
pub open spec fn pow_frac_s(acc: nat, cur: nat, f: nat, j: nat) -> nat
    decreases j,
{
    if j == 0 {
        acc
    } else {
        let c2 = sqrt_fp_s(cur);
        let a2 = if (f / pow2n((j - 1) as nat)) % 2 == 1 {
            mul_fp_s(acc, c2)
        } else {
            acc
        };
        pow_frac_s(a2, c2, f, (j - 1) as nat)
    }
}

/// `x^(e/65536)` in 16.16 fixed point, for `x` in `[0, 1]` and `e` in `[0, 2]`
/// (both scaled by 65536): whole part by repeated products, fractional part
/// by repeated square roots over the exponent's binary digits.
pub open spec fn pow_fp_s(x: nat, e: nat) -> nat {
    pow_frac_s(pow_int_s(x, e / 65536), x, e % 65536, 16)
}

proof fn lemma_pow_int_bound(x: nat, n: nat)
    requires
        x <= 65536,
    ensures
        pow_int_s(x, n) <= 65536,
    decreases n,
{
    if n > 0 {
        lemma_pow_int_bound(x, (n - 1) as nat);
        lemma_mul_upper_bound(pow_int_s(x, (n - 1) as nat) as int, 65536, x as int, 65536);
    }
}

pub(crate) fn pow_fp(x: u64, e: u64) -> (r: u64)
    requires
        x <= 65536,
        e <= 0x2_0000,
    ensures
        r == pow_fp_s(x as nat, e as nat),
        r <= 65536,
{
    let n = e / 65536;
    let f = e % 65536;
    let mut acc: u64 = 65536;
    let mut i: u64 = 0;
    while i < n
        invariant
            i <= n,
            x <= 65536,
            acc == pow_int_s(x as nat, i as nat),
            acc <= 65536,
        decreases n - i,
    {
        acc = mul_fp(acc, x);
        i = i + 1;
    }
    assert(acc == pow_int_s(x as nat, n as nat));
    let ghost acc0: nat = acc as nat;
    let mut cur: u64 = x;
    let mut j: u64 = 16;
    let mut bit: u64 = 32768;
    proof {
        lemma_pow2n_15();
    }
    while j > 0
        invariant
            j <= 16,
            f < 65536,
            acc <= 65536,
            cur <= 65536,
            j >= 1 ==> bit == pow2n((j - 1) as nat) && bit >= 1,
            pow_frac_s(acc as nat, cur as nat, f as nat, j as nat) == pow_frac_s(
                acc0,
                x as nat,
                f as nat,
                16,
            ),
        decreases j,
    {
        let c2 = sqrt_fp(cur);
        if (f / bit) % 2 == 1 {
            acc = mul_fp(acc, c2);
        }
        cur = c2;
        j = j - 1;
        bit = bit / 2;
        proof {
            if j >= 1 {
                assert(pow2n(j as nat) == 2 * pow2n((j - 1) as nat));
                lemma_pow2n_pos((j - 1) as nat);
            }
        }
    }
    acc
}

} // verus!
