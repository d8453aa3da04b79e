//! Fixed-point scalar kernel.
//!
//! Every scalar of the renderer is an `Fx`: an `i64` holding a real number
//! scaled by `FX_SCALE` (so `FX_ONE` is 1.0). All operations saturate at the
//! `i64` range and truncate toward zero, and every executable operation is
//! pinned to an exact mathematical description of that rounding, so the rest
//! of the renderer can be specified and proved over plain integers.

use vstd::prelude::*;

verus! {

/// The denominator of the fixed-point representation: values are `raw / FX_SCALE`.
pub const FX_SCALE: i64 = 65536;

/// The raw value of 1.0.
pub const FX_ONE: i64 = 65536;

/// A fixed-point scalar: the real number `raw / FX_SCALE`.
#[derive(Clone, Copy, PartialEq, Eq, Structural, Debug)]
pub struct Fx {
    pub raw: i64,
}

/// Clamp a mathematical integer into the `i64` range.
pub open spec fn sat64(x: int) -> int {
    if x > i64::MAX as int {
        i64::MAX as int
    } else if x < i64::MIN as int {
        i64::MIN as int
    } else {
        x
    }
}

/// Division truncating toward zero, as the machine division does.
pub open spec fn qdiv(n: int, d: int) -> int
    recommends
        d != 0,
{
    if (n < 0) == (d < 0) {
        (vstd::math::abs(n) / vstd::math::abs(d)) as int
    } else {
        -((vstd::math::abs(n) / vstd::math::abs(d)) as int)
    }
}

/// The integer square root: the greatest `r` with `r * r <= n`.
pub open spec fn int_sqrt(n: nat) -> nat
    decreases n,
{
    if n == 0 {
        0
    } else {
        let p = int_sqrt((n - 1) as nat);
        if (p + 1) * (p + 1) <= n {
            p + 1
        } else {
            p
        }
    }
}

/// The product of two scalars in the `i64` range fits comfortably in `i128`.
pub proof fn lemma_i64_mul_in_i128(a: int, b: int)
    requires
        -0x8000000000000000 <= a <= 0x7fffffffffffffff,
        -0x8000000000000000 <= b <= 0x7fffffffffffffff,
    ensures
        -0x40000000000000000000000000000000 <= a * b <= 0x40000000000000000000000000000000,
{
    assert(-0x40000000000000000000000000000000 <= a * b <= 0x40000000000000000000000000000000)
        by (nonlinear_arith)
        requires
            -0x8000000000000000 <= a <= 0x7fffffffffffffff,
            -0x8000000000000000 <= b <= 0x7fffffffffffffff,
    {
    }
}

/// `int_sqrt(n)` is the greatest natural number whose square is at most `n`.
pub proof fn lemma_int_sqrt_bounds(n: nat)
    ensures
        int_sqrt(n) * int_sqrt(n) <= n,
        n < (int_sqrt(n) + 1) * (int_sqrt(n) + 1),
    decreases n,
{
    if n == 0 {
        assert(int_sqrt(0) == 0);
        assert(n < (int_sqrt(n) + 1) * (int_sqrt(n) + 1)) by (nonlinear_arith)
            requires
                n == 0,
                int_sqrt(n) == 0,
        {
        }
    } else {
        lemma_int_sqrt_bounds((n - 1) as nat);
        let p = int_sqrt((n - 1) as nat);
        assert(p * p <= n - 1);
        assert(n - 1 < (p + 1) * (p + 1));
        if (p + 1) * (p + 1) <= n {
            let s = (p + 1) as nat;
            assert(int_sqrt(n) == s);
            assert(n == s * s);
            assert(n < (s + 1) * (s + 1)) by (nonlinear_arith)
                requires
                    n == s * s,
                    s >= 0,
            {
            }
        } else {
            assert(int_sqrt(n) == p);
            assert(p * p <= n);
            assert(n < (p + 1) * (p + 1));
        }
    }
}

/// The square-root bounds pin the root down uniquely.
pub proof fn lemma_int_sqrt_is(n: nat, r: nat)
    requires
        r * r <= n,
        n < (r + 1) * (r + 1),
    ensures
        int_sqrt(n) == r,
{
    lemma_int_sqrt_bounds(n);
    let s = int_sqrt(n);
    if s < r {
        assert((s + 1) * (s + 1) <= r * r) by (nonlinear_arith)
            requires
                s + 1 <= r,
                s >= 0,
        {
        }
    }
    if r < s {
        assert((r + 1) * (r + 1) <= s * s) by (nonlinear_arith)
            requires
                r + 1 <= s,
                r >= 0,
        {
        }
    }
}

/// Scaling up by the fixed-point denominator and dividing it out again is
/// exact, whatever the sign.
pub proof fn lemma_qdiv_scale_exact(x: int)
    ensures
        qdiv(x * 65536, 65536) == x,
{
    vstd::arithmetic::mul::lemma_mul_is_commutative(x, 65536);
    if x >= 0 {
        vstd::arithmetic::mul::lemma_mul_nonnegative(x, 65536);
        vstd::arithmetic::div_mod::lemma_div_multiples_vanish(x, 65536);
        assert(vstd::math::abs(x * 65536) == 65536 * x);
    } else {
        assert(x * 65536 < 0) by (nonlinear_arith)
            requires
                x < 0,
        {
        }
        vstd::arithmetic::div_mod::lemma_div_multiples_vanish(-x, 65536);
        assert(-(x * 65536) == 65536 * -x) by (nonlinear_arith);
        assert(vstd::math::abs(x * 65536) == -(x * 65536));
    }
}

/// Scaling by the negated fixed-point denominator and dividing out the
/// denominator is exact negation.
pub proof fn lemma_qdiv_neg_scale_exact(x: int)
    ensures
        qdiv(x * -65536, 65536) == -x,
{
    assert(x * -65536 == (-x) * 65536) by (nonlinear_arith);
    lemma_qdiv_scale_exact(-x);
}

/// Saturate an `i128` into the `i64` range.
pub fn sat_to_i64(x: i128) -> (r: i64)
    ensures
        r as int == sat64(x as int),
{
    if x > i64::MAX as i128 {
        i64::MAX
    } else if x < i64::MIN as i128 {
        i64::MIN
    } else {
        x as i64
    }
}

/// Truncating division on `i128`, matching `qdiv`.
pub fn qdiv_i128(n: i128, d: i128) -> (r: i128)
    requires
        d != 0,
        n > i128::MIN,
        d > i128::MIN,
    ensures
        r as int == qdiv(n as int, d as int),
{
    let nm: u128 = if n < 0 {
        (-n) as u128
    } else {
        n as u128
    };
    let dm: u128 = if d < 0 {
        (-d) as u128
    } else {
        d as u128
    };
    let qm: u128 = nm / dm;
    assert(nm == vstd::math::abs(n as int));
    assert(dm == vstd::math::abs(d as int));
    proof {
        vstd::arithmetic::div_mod::lemma_div_nonincreasing(nm as int, dm as int);
    }
    if (n < 0) != (d < 0) {
        -(qm as i128)
    } else {
        qm as i128
    }
}

impl Fx {
    /// The integer `n` as a fixed-point scalar.
    pub open spec fn spec_from_int(n: i64) -> Fx {
        Fx { raw: sat64(n * FX_SCALE) as i64 }
    }

    /// Saturating fixed-point addition.
    pub open spec fn spec_plus(self, o: Fx) -> Fx {
        Fx { raw: sat64(self.raw + o.raw) as i64 }
    }

    /// Saturating fixed-point subtraction.
    pub open spec fn spec_minus(self, o: Fx) -> Fx {
        Fx { raw: sat64(self.raw - o.raw) as i64 }
    }

    /// Saturating fixed-point negation.
    pub open spec fn spec_neg(self) -> Fx {
        Fx { raw: sat64(-self.raw) as i64 }
    }

    /// Fixed-point multiplication: scale down the double-width product,
    /// truncating toward zero and saturating.
    pub open spec fn spec_times(self, o: Fx) -> Fx {
        Fx { raw: sat64(qdiv(self.raw * o.raw, FX_SCALE as int)) as i64 }
    }

    /// Fixed-point division: scale up the dividend, truncating toward zero
    /// and saturating.
    pub open spec fn spec_div(self, o: Fx) -> Fx
        recommends
            o.raw != 0,
    {
        Fx { raw: sat64(qdiv(self.raw * FX_SCALE, o.raw as int)) as i64 }
    }

    /// Fixed-point square root of a non-negative scalar.
    pub open spec fn spec_sqrt(self) -> Fx
        recommends
            self.raw >= 0,
    {
        Fx { raw: int_sqrt((self.raw * FX_SCALE) as nat) as i64 }
    }

    /// Saturating fixed-point absolute value.
    pub open spec fn spec_abs(self) -> Fx {
        Fx { raw: sat64(vstd::math::abs(self.raw as int) as int) as i64 }
    }

    pub fn from_int(n: i64) -> (r: Fx)
        ensures
            r == Fx::spec_from_int(n),
    {
        proof {
            lemma_i64_mul_in_i128(n as int, FX_SCALE as int);
        }
        let p: i128 = (n as i128) * (FX_SCALE as i128);
        Fx { raw: sat_to_i64(p) }
    }

    pub fn plus(self, o: Fx) -> (r: Fx)
        ensures
            r == self.spec_plus(o),
    {
        Fx { raw: sat_to_i64(self.raw as i128 + o.raw as i128) }
    }

    pub fn minus(self, o: Fx) -> (r: Fx)
        ensures
            r == self.spec_minus(o),
    {
        Fx { raw: sat_to_i64(self.raw as i128 - o.raw as i128) }
    }

    pub fn neg(self) -> (r: Fx)
        ensures
            r == self.spec_neg(),
    {
        Fx { raw: sat_to_i64(-(self.raw as i128)) }
    }

    pub fn times(self, o: Fx) -> (r: Fx)
        ensures
            r == self.spec_times(o),
    {
        proof {
            lemma_i64_mul_in_i128(self.raw as int, o.raw as int);
        }
        let p: i128 = (self.raw as i128) * (o.raw as i128);
        let q = qdiv_i128(p, FX_SCALE as i128);
        Fx { raw: sat_to_i64(q) }
    }

    pub fn div(self, o: Fx) -> (r: Fx)
        requires
            o.raw != 0,
        ensures
            r == self.spec_div(o),
    {
        proof {
            lemma_i64_mul_in_i128(self.raw as int, FX_SCALE as int);
        }
        let p: i128 = (self.raw as i128) * (FX_SCALE as i128);
        let q = qdiv_i128(p, o.raw as i128);
        Fx { raw: sat_to_i64(q) }
    }

    pub fn sqrt(self) -> (r: Fx)
        requires
            self.raw >= 0,
        ensures
            r == self.spec_sqrt(),
    {
        proof {
            assert((self.raw as int) * 65536 < 0x100000000000000000000) by (nonlinear_arith)
                requires
                    0 <= self.raw <= 0x7fffffffffffffff,
            {
            }
        }
        let n: u128 = (self.raw as u128) * (FX_SCALE as u128);
        let s = isqrt_u128(n);
        proof {
            lemma_int_sqrt_is(n as nat, s as nat);
            assert(s < 0x10000000000u128) by (nonlinear_arith)
                requires
                    s * s <= n,
                    n < 0x100000000000000000000u128,
            {
            }
        }
        Fx { raw: s as i64 }
    }

    /// The smaller of two scalars.
    pub open spec fn spec_min(self, o: Fx) -> Fx {
        if self.raw < o.raw {
            self
        } else {
            o
        }
    }

    pub fn min_fx(self, o: Fx) -> (r: Fx)
        ensures
            r == self.spec_min(o),
    {
        if self.raw < o.raw {
            self
        } else {
            o
        }
    }

    pub fn abs_fx(self) -> (r: Fx)
        ensures
            r == self.spec_abs(),
    {
        if self.raw < 0 {
            self.neg()
        } else {
            self
        }
    }
}

/// Integer square root by binary search.
pub fn isqrt_u128(n: u128) -> (r: u128)
    ensures
        r * r <= n,
        n < (r + 1) * (r + 1),
{
    if n == 0 {
        return 0;
    }
    let mut lo: u128 = 0;
    let mut hi: u128 = 0x10000000000000000u128;
    proof {
        assert((n as int) < (hi as int) * (hi as int)) by (nonlinear_arith)
            requires
                hi == 0x10000000000000000u128,
                n <= u128::MAX,
        {
        }
    }
    while lo + 1 < hi
        invariant
            lo < hi,
            hi <= 0x10000000000000000u128,
            lo * lo <= n,
            (n as int) < (hi as int) * (hi as int),
        decreases hi - lo,
    {
        let mid: u128 = lo + (hi - lo) / 2;
        proof {
            assert((mid as int) * (mid as int) <= u128::MAX as int) by (nonlinear_arith)
                requires
                    mid < 0x10000000000000000u128,
            {
            }
        }
        if mid * mid <= n {
            lo = mid;
        } else {
            hi = mid;
        }
    }
    lo
}

} // verus!
