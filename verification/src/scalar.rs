//! Fixed-point numbers with six decimal places and saturating arithmetic.
//!
//! Every quantity of the simulation that is not a whole number (a speed, a
//! position, a hit-point total, an elemental degree) is a [`Scalar`]: a signed
//! count of millionths. Sums, differences, products and quotients are exact up
//! to one truncation toward zero, and a result that leaves the representable
//! range stays at the end of the range that it crossed.
use vstd::prelude::*;

verus! {

/// How many raw units make one whole.
pub const SCALE: i64 = 1_000_000;

/// The nearest value to `x` that an `i64` can hold.
pub open spec fn saturated(x: int) -> int {
    if x < i64::MIN as int {
        i64::MIN as int
    } else if x > i64::MAX as int {
        i64::MAX as int
    } else {
        x
    }
}

/// The quotient of `a` by `b`, rounded toward zero. Meaningful for `b != 0`.
pub open spec fn truncated(a: int, b: int) -> int {
    if b > 0 {
        if a >= 0 {
            a / b
        } else {
            -((-a) / b)
        }
    } else {
        if a >= 0 {
            -(a / (-b))
        } else {
            (-a) / (-b)
        }
    }
}

/// A signed fixed-point number: `raw` millionths.
#[derive(Clone, Copy, Debug, PartialEq, Eq, Structural)]
pub struct Scalar {
    pub raw: i64,
}

impl View for Scalar {
    type V = int;

    /// The number of millionths that the value holds.
    open spec fn view(&self) -> int {
        self.raw as int
    }
}

impl Default for Scalar {
    fn default() -> (r: Scalar)
        ensures
            r == Scalar::zero(),
    {
        Scalar { raw: 0 }
    }
}

/// Brings a wide intermediate result back into the range of a `Scalar`.
fn narrow(x: i128) -> (r: Scalar)
    ensures
        r@ == saturated(x as int),
{
    if x < i64::MIN as i128 {
        Scalar { raw: i64::MIN }
    } else if x > i64::MAX as i128 {
        Scalar { raw: i64::MAX }
    } else {
        Scalar { raw: x as i64 }
    }
}

/// Division of wide integers that rounds toward zero whatever the signs.
fn quotient(a: i128, b: i128) -> (q: i128)
    requires
        b != 0,
        i128::MIN < a,
        i128::MIN < b,
    ensures
        q == truncated(a as int, b as int),
{
    if b > 0 {
        a / b
    } else {
        (-a) / (-b)
    }
}

/// Products of two 64-bit quantities fit comfortably in 128 bits.
proof fn lemma_product_fits(a: int, b: int)
    requires
        -0x8000_0000_0000_0000 <= a <= 0x8000_0000_0000_0000,
        -0x8000_0000_0000_0000 <= b <= 0x8000_0000_0000_0000,
    ensures
        -0x4000_0000_0000_0000_0000_0000_0000_0000 <= a * b
            <= 0x4000_0000_0000_0000_0000_0000_0000_0000,
{
    assert(-0x4000_0000_0000_0000_0000_0000_0000_0000 <= a * b
        <= 0x4000_0000_0000_0000_0000_0000_0000_0000) by (nonlinear_arith)
        requires
            -0x8000_0000_0000_0000 <= a <= 0x8000_0000_0000_0000,
            -0x8000_0000_0000_0000 <= b <= 0x8000_0000_0000_0000,
    ;
}

impl Scalar {
    pub open spec fn spec_zero() -> Scalar {
        Scalar { raw: 0 }
    }

    pub open spec fn spec_one() -> Scalar {
        Scalar { raw: SCALE }
    }

    #[verifier::when_used_as_spec(spec_zero)]
    pub fn zero() -> (r: Scalar)
        ensures
            r == Scalar::spec_zero(),
    {
        Scalar { raw: 0 }
    }

    #[verifier::when_used_as_spec(spec_one)]
    pub fn one() -> (r: Scalar)
        ensures
            r == Scalar::spec_one(),
    {
        Scalar { raw: SCALE }
    }

    /// `self + rhs`, saturated.
    pub open spec fn plus(self, rhs: Scalar) -> Scalar {
        Scalar { raw: saturated(self.raw + rhs.raw) as i64 }
    }

    /// `self - rhs`, saturated.
    pub open spec fn minus(self, rhs: Scalar) -> Scalar {
        Scalar { raw: saturated(self.raw - rhs.raw) as i64 }
    }

    /// `self * rhs`, truncated to a millionth and saturated.
    pub open spec fn times(self, rhs: Scalar) -> Scalar {
        Scalar { raw: saturated(truncated(self.raw * rhs.raw, SCALE as int)) as i64 }
    }

    /// `self / rhs`, truncated to a millionth and saturated. Meaningful for a
    /// non-zero `rhs`.
    pub open spec fn over(self, rhs: Scalar) -> Scalar {
        Scalar { raw: saturated(truncated(self.raw * SCALE, rhs.raw as int)) as i64 }
    }

    /// The fraction `num / den` of two whole numbers, truncated to a millionth.
    /// Meaningful for a non-zero `den`.
    pub open spec fn fraction(num: u32, den: u32) -> Scalar {
        Scalar { raw: ((num * SCALE) / (den as int)) as i64 }
    }

    /// The whole number `n`, saturated.
    pub open spec fn whole(n: i64) -> Scalar {
        Scalar { raw: saturated(n * SCALE) as i64 }
    }

    /// `self`, or zero where `self` is negative.
    pub open spec fn rectified(self) -> Scalar {
        if self.raw < 0 {
            Scalar::zero()
        } else {
            self
        }
    }

    /// `self`, or `cap` where `self` exceeds it.
    pub open spec fn capped(self, cap: Scalar) -> Scalar {
        if self.raw > cap.raw {
            cap
        } else {
            self
        }
    }

    /// `self` brought into the interval from zero to one.
    pub open spec fn unit_clamped(self) -> Scalar {
        self.rectified().capped(Scalar::one())
    }

    pub fn from_int(n: i64) -> (r: Scalar)
        ensures
            r == Scalar::whole(n),
    {
        proof {
            lemma_product_fits(n as int, SCALE as int);
        }
        narrow((n as i128) * (SCALE as i128))
    }

    /// The fraction `num / den`, or `None` where `den` is zero.
    pub fn from_ratio(num: u32, den: u32) -> (r: Option<Scalar>)
        ensures
            den == 0 <==> r.is_none(),
            den != 0 ==> r == Some(Scalar::fraction(num, den)),
    {
        if den == 0 {
            return None;
        }
        let scale: u64 = SCALE as u64;
        let n: u64 = (num as u64) * scale;
        let q: u64 = n / (den as u64);
        assert(q <= n) by (nonlinear_arith)
            requires
                q == n / (den as u64),
                den > 0,
        ;
        Some(Scalar { raw: q as i64 })
    }

    pub fn saturating_add(self, rhs: Scalar) -> (r: Scalar)
        ensures
            r == self.plus(rhs),
    {
        narrow((self.raw as i128) + (rhs.raw as i128))
    }

    pub fn saturating_sub(self, rhs: Scalar) -> (r: Scalar)
        ensures
            r == self.minus(rhs),
    {
        narrow((self.raw as i128) - (rhs.raw as i128))
    }

    pub fn saturating_mul(self, rhs: Scalar) -> (r: Scalar)
        ensures
            r == self.times(rhs),
    {
        proof {
            lemma_product_fits(self.raw as int, rhs.raw as int);
        }
        let wide: i128 = (self.raw as i128) * (rhs.raw as i128);
        narrow(quotient(wide, SCALE as i128))
    }

    /// `self / rhs`, or `None` where `rhs` is zero.
    pub fn checked_div(self, rhs: Scalar) -> (r: Option<Scalar>)
        ensures
            rhs@ == 0 <==> r.is_none(),
            rhs@ != 0 ==> r == Some(self.over(rhs)),
    {
        if rhs.raw == 0 {
            return None;
        }
        proof {
            lemma_product_fits(self.raw as int, SCALE as int);
        }
        let wide: i128 = (self.raw as i128) * (SCALE as i128);
        Some(narrow(quotient(wide, rhs.raw as i128)))
    }

    /// `1 / self`, or `None` where `self` is zero.
    pub fn recip(self) -> (r: Option<Scalar>)
        ensures
            self@ == 0 <==> r.is_none(),
            self@ != 0 ==> r == Some(Scalar::one().over(self)),
    {
        Scalar::one().checked_div(self)
    }

    pub fn rectify(self) -> (r: Scalar)
        ensures
            r == self.rectified(),
    {
        if self.raw < 0 {
            Scalar::zero()
        } else {
            self
        }
    }

    pub fn cap(self, cap: Scalar) -> (r: Scalar)
        ensures
            r == self.capped(cap),
    {
        if self.raw > cap.raw {
            cap
        } else {
            self
        }
    }

    pub fn clamp_unit(self) -> (r: Scalar)
        ensures
            r == self.unit_clamped(),
    {
        self.rectify().cap(Scalar::one())
    }

    /// Zero annuls every product.
    pub proof fn lemma_times_zero(x: Scalar)
        ensures
            x.times(Scalar::zero()) == Scalar::zero(),
            Scalar::zero().times(x) == Scalar::zero(),
    {
        assert(x.raw * 0 == 0) by (nonlinear_arith);
        assert(0 * x.raw == 0) by (nonlinear_arith);
    }

    /// One is neutral in every product: nothing is rounded away.
    pub proof fn lemma_times_one(x: Scalar)
        ensures
            x.times(Scalar::one()) == x,
            Scalar::one().times(x) == x,
    {
        let r: int = x.raw as int;
        let sc: int = SCALE as int;
        assert(truncated(r * sc, sc) == r) by (nonlinear_arith)
            requires
                sc == 1_000_000,
        {
            if r >= 0 {
                assert((r * sc) / sc == r);
            } else {
                assert(-(r * sc) == (-r) * sc);
                assert(((-r) * sc) / sc == -r);
            }
        }
        assert(sc * r == r * sc) by (nonlinear_arith);
    }

    /// Where a degree divides a million millions, its reciprocal is exact:
    /// multiplied by the degree it gives one.
    pub proof fn lemma_recip_exact(x: Scalar)
        requires
            x@ != 0,
            (SCALE * SCALE) % x@ == 0,
        ensures
            Scalar::one().over(x).times(x) == Scalar::one(),
            x.times(Scalar::one().over(x)) == Scalar::one(),
    {
        let d: int = x.raw as int;
        let sc: int = SCALE as int;
        let q: int = truncated(sc * sc, d);
        assert(q * d == sc * sc && -1_000_000_000_000 <= q <= 1_000_000_000_000) by (nonlinear_arith)
            requires
                d != 0,
                sc == 1_000_000,
                (sc * sc) % d == 0,
                q == truncated(sc * sc, d),
        {
            if d > 0 {
                assert(sc * sc == d * ((sc * sc) / d) + (sc * sc) % d);
            } else {
                assert((sc * sc) % (-d) == 0);
                assert(sc * sc == (-d) * ((sc * sc) / (-d)) + (sc * sc) % (-d));
            }
        }
        assert(d * q == q * d) by (nonlinear_arith);
        assert(truncated(sc * sc, sc) == sc) by (nonlinear_arith)
            requires
                sc == 1_000_000,
        ;
    }

    /// Adding or taking away zero changes nothing.
    pub proof fn lemma_plus_zero(x: Scalar)
        ensures
            x.plus(Scalar::zero()) == x,
            x.minus(Scalar::zero()) == x,
            x.minus(x) == Scalar::zero(),
    {
    }
}

} // verus!
