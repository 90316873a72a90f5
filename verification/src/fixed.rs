//! Signed fixed-point scalars with 24 fractional bits.
//!
//! Every operation is total: results that leave the 64-bit range saturate,
//! and division by zero saturates towards the sign of the dividend.

use vstd::prelude::*;

verus! {

/// Number of fractional bits in a [`Fixed`].
pub const FRAC_BITS: u32 = 24;

/// The raw representation of `1.0`.
pub const ONE_RAW: i64 = 0x100_0000;

/// Largest raw value.
pub const MAX_RAW: i64 = 0x7fff_ffff_ffff_ffff;

/// Smallest raw value.
pub const MIN_RAW: i64 = -0x8000_0000_0000_0000;

/// Clamps an integer into the raw range of a [`Fixed`].
pub open spec fn saturate(v: int) -> int {
    if v < MIN_RAW {
        MIN_RAW as int
    } else if v > MAX_RAW {
        MAX_RAW as int
    } else {
        v
    }
}

/// Raw product of two raw values: the exact product scaled back by `ONE_RAW`,
/// rounded towards negative infinity, then saturated.
pub open spec fn raw_mul(a: int, b: int) -> int {
    saturate((a * b) / (ONE_RAW as int))
}

/// Raw quotient of two raw values, rounded towards negative infinity and
/// saturated. A zero divisor gives the extreme of the dividend's sign.
pub open spec fn raw_div(a: int, b: int) -> int {
    if b == 0 {
        if a > 0 {
            MAX_RAW as int
        } else if a < 0 {
            MIN_RAW as int
        } else {
            0
        }
    } else if b > 0 {
        saturate((a * (ONE_RAW as int)) / b)
    } else {
        saturate(((-a) * (ONE_RAW as int)) / (-b))
    }
}

/// The largest `r` with `r * r <= n`.
pub open spec fn is_int_sqrt(n: int, r: int) -> bool {
    0 <= r && r * r <= n && n < (r + 1) * (r + 1)
}

/// The integer square root of `n`, rounded towards zero.
pub open spec fn sqrt_floor(n: int) -> int {
    choose|r: int| #[trigger] is_int_sqrt(n, r)
}

/// At most one integer is the rounded-down square root of `n`.
pub proof fn lemma_int_sqrt_unique(n: int, r: int)
    requires
        is_int_sqrt(n, r),
    ensures
        sqrt_floor(n) == r,
{
    let s = sqrt_floor(n);
    assert(is_int_sqrt(n, s));
    if s < r {
        lemma_square_monotone(s + 1, r);
    } else if r < s {
        lemma_square_monotone(r + 1, s);
    }
}

pub proof fn lemma_square_monotone(a: int, b: int)
    requires
        0 <= a <= b,
    ensures
        a * a <= b * b,
{
    assert(a * a <= b * b) by (nonlinear_arith)
        requires
            0 <= a <= b,
    ;
}

pub proof fn lemma_product_bound(a: int, b: int, m: int, n: int)
    requires
        -m <= a <= m,
        -n <= b <= n,
    ensures
        -(m * n) <= a * b <= m * n,
{
    assert(-(m * n) <= a * b <= m * n) by (nonlinear_arith)
        requires
            -m <= a <= m,
            -n <= b <= n,
    ;
}

/// Integer square root by bisection.
pub fn int_sqrt(n: u128) -> (r: u64)
    ensures
        is_int_sqrt(n as int, r as int),
        r == sqrt_floor(n as int),
{
    let mut lo: u128 = 0;
    let mut hi: u128 = 0x1_0000_0000_0000_0000;
    proof {
        assert(0x1_0000_0000_0000_0000int * 0x1_0000_0000_0000_0000int > u128::MAX) by (nonlinear_arith);
    }
    while hi - lo > 1
        invariant
            lo < hi <= 0x1_0000_0000_0000_0000,
            lo * lo <= n,
            n < hi * hi,
        decreases hi - lo,
    {
        let mid: u128 = lo + (hi - lo) / 2;
        proof {
            lemma_square_monotone(mid as int, 0xffff_ffff_ffff_ffff);
            assert(0xffff_ffff_ffff_ffffint * 0xffff_ffff_ffff_ffffint <= u128::MAX) by (nonlinear_arith);
        }
        if mid * mid <= n {
            lo = mid;
        } else {
            hi = mid;
        }
    }
    proof {
        lemma_int_sqrt_unique(n as int, lo as int);
    }
    lo as u64
}

/// A fixed-point number: `raw / 2^24`.
#[derive(Clone, Copy, Debug, PartialEq, Eq, Structural)]
pub struct Fixed {
    pub raw: i64,
}

impl Fixed {
    pub open spec fn spec_zero() -> Fixed {
        Fixed { raw: 0 }
    }

    /// The value `0`.
    #[verifier::when_used_as_spec(spec_zero)]
    pub fn zero() -> (r: Fixed)
        ensures
            r == Self::spec_zero(),
    {
        Fixed { raw: 0 }
    }

    pub open spec fn spec_one() -> Fixed {
        Fixed { raw: ONE_RAW }
    }

    /// The value `1`.
    #[verifier::when_used_as_spec(spec_one)]
    pub fn one() -> (r: Fixed)
        ensures
            r == Self::spec_one(),
    {
        Fixed { raw: ONE_RAW }
    }

    pub open spec fn spec_from_raw(raw: i64) -> Fixed {
        Fixed { raw }
    }

    /// Wraps a raw representation.
    #[verifier::when_used_as_spec(spec_from_raw)]
    pub fn from_raw(raw: i64) -> (r: Fixed)
        ensures
            r == Self::spec_from_raw(raw),
    {
        Fixed { raw }
    }

    pub open spec fn spec_from_wide(v: int) -> Fixed {
        Fixed { raw: saturate(v) as i64 }
    }

    /// Saturates a wide raw value.
    pub fn from_wide(v: i128) -> (r: Fixed)
        ensures
            r == Self::spec_from_wide(v as int),
    {
        if v < MIN_RAW as i128 {
            Fixed { raw: MIN_RAW }
        } else if v > MAX_RAW as i128 {
            Fixed { raw: MAX_RAW }
        } else {
            Fixed { raw: v as i64 }
        }
    }

    pub open spec fn spec_from_int(n: i32) -> Fixed {
        Fixed { raw: (n as int * (ONE_RAW as int)) as i64 }
    }

    /// The whole number `n`.
    #[verifier::when_used_as_spec(spec_from_int)]
    pub fn from_int(n: i32) -> (r: Fixed)
        ensures
            r == Self::spec_from_int(n),
            r.raw == n as int * (ONE_RAW as int),
    {
        Fixed { raw: (n as i64) * ONE_RAW }
    }

    pub open spec fn spec_from_index(n: usize) -> Fixed {
        Self::spec_from_wide(n as int * (ONE_RAW as int))
    }

    /// The whole number `n`, saturated.
    #[verifier::when_used_as_spec(spec_from_index)]
    pub fn from_index(n: usize) -> (r: Fixed)
        ensures
            r == Self::spec_from_index(n),
    {
        Self::from_wide((n as i128) * (ONE_RAW as i128))
    }

    pub open spec fn spec_from_ratio(num: i64, den: i64) -> Fixed {
        Fixed { raw: raw_div(num as int, den as int) as i64 }
    }

    /// The quotient `num / den` of two whole numbers.
    #[verifier::when_used_as_spec(spec_from_ratio)]
    pub fn from_ratio(num: i64, den: i64) -> (r: Fixed)
        ensures
            r == Self::spec_from_ratio(num, den),
    {
        Self::wide_div(num as i128, den as i128)
    }

    /// Divides two wide raw values as `raw_div` does.
    pub fn wide_div(a: i128, b: i128) -> (r: Fixed)
        requires
            -0x40_0000_0000_0000_0000_0000_0000 <= a <= 0x40_0000_0000_0000_0000_0000_0000,
            -0x40_0000_0000_0000_0000_0000_0000 <= b <= 0x40_0000_0000_0000_0000_0000_0000,
        ensures
            r.raw == raw_div(a as int, b as int),
    {
        if b == 0 {
            if a > 0 {
                Fixed { raw: MAX_RAW }
            } else if a < 0 {
                Fixed { raw: MIN_RAW }
            } else {
                Fixed { raw: 0 }
            }
        } else if b > 0 {
            assert(ONE_RAW == 0x100_0000);
            let n: i128 = a * 0x100_0000;
            match n.checked_div_euclid(b) {
                Some(q) => Self::from_wide(q),
                None => {
                    proof {
                        lemma_quotient_bound(n as int, b as int);
                    }
                    Fixed { raw: 0 }
                },
            }
        } else {
            assert(ONE_RAW == 0x100_0000);
            let n: i128 = (-a) * 0x100_0000;
            let d: i128 = -b;
            match n.checked_div_euclid(d) {
                Some(q) => Self::from_wide(q),
                None => {
                    proof {
                        lemma_quotient_bound(n as int, d as int);
                    }
                    Fixed { raw: 0 }
                },
            }
        }
    }

    pub open spec fn spec_plus(self, rhs: Fixed) -> Fixed {
        Fixed { raw: saturate(self.raw + rhs.raw) as i64 }
    }

    /// Saturating sum.
    #[verifier::when_used_as_spec(spec_plus)]
    pub fn plus(self, rhs: Fixed) -> (r: Fixed)
        ensures
            r == self.spec_plus(rhs),
    {
        Self::from_wide((self.raw as i128) + (rhs.raw as i128))
    }

    pub open spec fn spec_minus(self, rhs: Fixed) -> Fixed {
        Fixed { raw: saturate(self.raw - rhs.raw) as i64 }
    }

    /// Saturating difference.
    #[verifier::when_used_as_spec(spec_minus)]
    pub fn minus(self, rhs: Fixed) -> (r: Fixed)
        ensures
            r == self.spec_minus(rhs),
    {
        Self::from_wide((self.raw as i128) - (rhs.raw as i128))
    }

    pub open spec fn spec_neg(self) -> Fixed {
        Fixed { raw: saturate(-self.raw) as i64 }
    }

    /// Saturating negation.
    #[verifier::when_used_as_spec(spec_neg)]
    pub fn neg(self) -> (r: Fixed)
        ensures
            r == self.spec_neg(),
    {
        Self::from_wide(-(self.raw as i128))
    }

    pub open spec fn spec_abs(self) -> Fixed {
        if self.raw < 0 {
            self.spec_neg()
        } else {
            self
        }
    }

    /// Saturating magnitude.
    #[verifier::when_used_as_spec(spec_abs)]
    pub fn abs(self) -> (r: Fixed)
        ensures
            r == self.spec_abs(),
    {
        if self.raw < 0 {
            self.neg()
        } else {
            self
        }
    }

    pub open spec fn spec_times(self, rhs: Fixed) -> Fixed {
        Fixed { raw: raw_mul(self.raw as int, rhs.raw as int) as i64 }
    }

    /// Saturating product, rounded towards negative infinity.
    #[verifier::when_used_as_spec(spec_times)]
    pub fn times(self, rhs: Fixed) -> (r: Fixed)
        ensures
            r == self.spec_times(rhs),
    {
        proof {
            lemma_product_bound(
                self.raw as int,
                rhs.raw as int,
                0x8000_0000_0000_0000,
                0x8000_0000_0000_0000,
            );
            assert(0x8000_0000_0000_0000int * 0x8000_0000_0000_0000int
                == 0x4000_0000_0000_0000_0000_0000_0000_0000int) by (nonlinear_arith);
        }
        let p: i128 = (self.raw as i128) * (rhs.raw as i128);
        match p.checked_div_euclid(ONE_RAW as i128) {
            Some(q) => Self::from_wide(q),
            None => {
                proof {
                    lemma_quotient_bound(p as int, ONE_RAW as int);
                }
                Fixed { raw: 0 }
            },
        }
    }

    pub open spec fn spec_over(self, rhs: Fixed) -> Fixed {
        Fixed { raw: raw_div(self.raw as int, rhs.raw as int) as i64 }
    }

    /// Saturating quotient, rounded towards negative infinity.
    #[verifier::when_used_as_spec(spec_over)]
    pub fn over(self, rhs: Fixed) -> (r: Fixed)
        ensures
            r == self.spec_over(rhs),
    {
        Self::wide_div(self.raw as i128, rhs.raw as i128)
    }

    pub open spec fn spec_half(self) -> Fixed {
        Fixed { raw: (self.raw as int / 2) as i64 }
    }

    /// Half of the value, rounded towards negative infinity.
    #[verifier::when_used_as_spec(spec_half)]
    pub fn half(self) -> (r: Fixed)
        ensures
            r == self.spec_half(),
    {
        match self.raw.checked_div_euclid(2) {
            Some(q) => Fixed { raw: q },
            None => Fixed { raw: 0 },
        }
    }

    pub open spec fn spec_min(self, rhs: Fixed) -> Fixed {
        if rhs.raw < self.raw {
            rhs
        } else {
            self
        }
    }

    /// The smaller of two values.
    #[verifier::when_used_as_spec(spec_min)]
    pub fn min(self, rhs: Fixed) -> (r: Fixed)
        ensures
            r == self.spec_min(rhs),
    {
        if rhs.raw < self.raw {
            rhs
        } else {
            self
        }
    }

    pub open spec fn spec_max(self, rhs: Fixed) -> Fixed {
        if rhs.raw > self.raw {
            rhs
        } else {
            self
        }
    }

    /// The larger of two values.
    #[verifier::when_used_as_spec(spec_max)]
    pub fn max(self, rhs: Fixed) -> (r: Fixed)
        ensures
            r == self.spec_max(rhs),
    {
        if rhs.raw > self.raw {
            rhs
        } else {
            self
        }
    }

    pub open spec fn spec_floor(self) -> i64 {
        (self.raw as int / (ONE_RAW as int)) as i64
    }

    /// The largest whole number not above the value.
    #[verifier::when_used_as_spec(spec_floor)]
    pub fn floor(self) -> (r: i64)
        ensures
            r == self.spec_floor(),
            r == self.raw as int / (ONE_RAW as int),
    {
        match self.raw.checked_div_euclid(ONE_RAW) {
            Some(q) => q,
            None => 0,
        }
    }

    /// The whole part as an index: negative values give `0`, and values
    /// beyond `limit` give `limit`.
    pub open spec fn spec_to_index(self, limit: usize) -> usize {
        if self.raw < 0 {
            0
        } else if self.raw as int / (ONE_RAW as int) > limit as int {
            limit
        } else {
            (self.raw as int / (ONE_RAW as int)) as usize
        }
    }

    /// The whole part as an index no larger than `limit`.
    #[verifier::when_used_as_spec(spec_to_index)]
    pub fn to_index(self, limit: usize) -> (r: usize)
        ensures
            r == self.spec_to_index(limit),
            r <= limit,
    {
        if self.raw < 0 {
            0
        } else {
            let q: i64 = self.floor();
            if q as u64 > limit as u64 {
                limit
            } else {
                q as usize
            }
        }
    }

    pub open spec fn spec_sqrt(self) -> Fixed {
        if self.raw <= 0 {
            Fixed { raw: 0 }
        } else {
            Fixed { raw: sqrt_floor(self.raw as int * (ONE_RAW as int)) as i64 }
        }
    }

    /// Square root, rounded towards zero; `0` for negative values.
    #[verifier::when_used_as_spec(spec_sqrt)]
    pub fn sqrt(self) -> (r: Fixed)
        ensures
            r == self.spec_sqrt(),
            self.raw > 0 ==> is_int_sqrt(self.raw as int * (ONE_RAW as int), r.raw as int),
    {
        if self.raw <= 0 {
            Fixed { raw: 0 }
        } else {
            let n: u128 = (self.raw as u128) * (ONE_RAW as u128);
            let r: u64 = int_sqrt(n);
            proof {
                // r * r <= n < 2^87, so r < 2^44
                if r >= 0x1000_0000_0000 {
                    lemma_square_monotone(0x1000_0000_0000, r as int);
                    assert(0x1000_0000_0000int * 0x1000_0000_0000int
                        == 0x100_0000_0000_0000_0000_0000int) by (nonlinear_arith);
                }
                lemma_int_sqrt_unique(n as int, r as int);
            }
            Fixed { raw: r as i64 }
        }
    }
}

/// The whole part as an index does not fall when the value rises.
pub proof fn lemma_to_index_monotone(a: Fixed, b: Fixed, limit: usize)
    requires
        a.raw <= b.raw,
    ensures
        a.spec_to_index(limit) <= b.spec_to_index(limit),
{
    vstd::arithmetic::div_mod::lemma_div_is_ordered(a.raw as int, b.raw as int, ONE_RAW as int);
    if a.raw >= 0 {
        vstd::arithmetic::div_mod::lemma_div_pos_is_pos(a.raw as int, ONE_RAW as int);
        vstd::arithmetic::div_mod::lemma_div_pos_is_pos(b.raw as int, ONE_RAW as int);
    }
}

/// A quotient by a positive divisor is no larger in magnitude than the
/// dividend.
pub proof fn lemma_quotient_bound(n: int, d: int)
    requires
        d > 0,
    ensures
        n >= 0 ==> 0 <= n / d <= n,
        n < 0 ==> n <= n / d <= 0,
{
    assert(n >= 0 ==> 0 <= n / d <= n) by (nonlinear_arith)
        requires
            d > 0,
    ;
    assert(n < 0 ==> n <= n / d <= 0) by (nonlinear_arith)
        requires
            d > 0,
    ;
}

/// Raw value of pi.
pub const PI_RAW: i64 = 52707179;

/// Raw value of two pi.
pub const TWO_PI_RAW: i64 = 105414357;

/// Raw value of half pi.
pub const HALF_PI_RAW: i64 = 26353589;

impl Fixed {
    /// The angle brought into the half-open interval from minus pi to pi by
    /// whole turns.
    pub open spec fn spec_wrap_angle(self) -> Fixed {
        let t = self.raw as int % (TWO_PI_RAW as int);
        if t > PI_RAW {
            Fixed { raw: (t - TWO_PI_RAW) as i64 }
        } else {
            Fixed { raw: t as i64 }
        }
    }

    /// The angle brought into the interval from minus pi to pi.
    #[verifier::when_used_as_spec(spec_wrap_angle)]
    pub fn wrap_angle(self) -> (r: Fixed)
        ensures
            r == self.spec_wrap_angle(),
            -(PI_RAW as int) <= r.raw <= PI_RAW,
    {
        let t: i64 = match self.raw.checked_rem_euclid(TWO_PI_RAW) {
            Some(t) => t,
            None => 0,
        };
        if t > PI_RAW {
            Fixed { raw: t - TWO_PI_RAW }
        } else {
            Fixed { raw: t }
        }
    }

    /// The sine polynomial `x - x^3/3! + x^5/5! - ... - x^11/11!`, for an
    /// angle of at most a quarter turn.
    pub open spec fn spec_sin_series(self) -> Fixed {
        let x2 = self.spec_times(self);
        let t11 = Fixed::spec_one().spec_minus(x2.spec_over(Fixed::spec_from_int(110)));
        let t9 = Fixed::spec_one().spec_minus(x2.spec_times(t11).spec_over(Fixed::spec_from_int(72)));
        let t7 = Fixed::spec_one().spec_minus(x2.spec_times(t9).spec_over(Fixed::spec_from_int(42)));
        let t5 = Fixed::spec_one().spec_minus(x2.spec_times(t7).spec_over(Fixed::spec_from_int(20)));
        let t3 = Fixed::spec_one().spec_minus(x2.spec_times(t5).spec_over(Fixed::spec_from_int(6)));
        self.spec_times(t3)
    }

    /// Evaluates the sine polynomial by nested multiplication.
    #[verifier::when_used_as_spec(spec_sin_series)]
    pub fn sin_series(self) -> (r: Fixed)
        ensures
            r == self.spec_sin_series(),
    {
        let x2 = self.times(self);
        let t11 = Fixed::one().minus(x2.over(Fixed::from_int(110)));
        let t9 = Fixed::one().minus(x2.times(t11).over(Fixed::from_int(72)));
        let t7 = Fixed::one().minus(x2.times(t9).over(Fixed::from_int(42)));
        let t5 = Fixed::one().minus(x2.times(t7).over(Fixed::from_int(20)));
        let t3 = Fixed::one().minus(x2.times(t5).over(Fixed::from_int(6)));
        self.times(t3)
    }

    /// The value limited to the interval from minus one to one.
    pub open spec fn spec_clamp_unit(self) -> Fixed {
        if self.raw > ONE_RAW {
            Fixed { raw: ONE_RAW }
        } else if self.raw < -ONE_RAW {
            Fixed { raw: (-ONE_RAW) as i64 }
        } else {
            self
        }
    }

    /// The value limited to the interval from minus one to one.
    #[verifier::when_used_as_spec(spec_clamp_unit)]
    pub fn clamp_unit(self) -> (r: Fixed)
        ensures
            r == self.spec_clamp_unit(),
            -(ONE_RAW as int) <= r.raw <= ONE_RAW,
    {
        if self.raw > ONE_RAW {
            Fixed { raw: ONE_RAW }
        } else if self.raw < -ONE_RAW {
            Fixed { raw: -ONE_RAW }
        } else {
            self
        }
    }

    /// Sine of an angle in radians: the angle is wrapped into one turn,
    /// folded into the first quarter, and put through the sine polynomial;
    /// the result is limited to the interval from minus one to one.
    pub open spec fn spec_sin(self) -> Fixed {
        let t = self.spec_wrap_angle();
        let a = t.spec_abs();
        let folded = if a.raw > HALF_PI_RAW {
            Fixed { raw: PI_RAW }.spec_minus(a)
        } else {
            a
        };
        let s = folded.spec_sin_series().spec_clamp_unit();
        if t.raw < 0 {
            s.spec_neg()
        } else {
            s
        }
    }

    /// Sine of an angle in radians.
    #[verifier::when_used_as_spec(spec_sin)]
    pub fn sin(self) -> (r: Fixed)
        ensures
            r == self.spec_sin(),
            -(ONE_RAW as int) <= r.raw <= ONE_RAW,
    {
        let t = self.wrap_angle();
        let a = t.abs();
        let folded = if a.raw > HALF_PI_RAW {
            Fixed { raw: PI_RAW }.minus(a)
        } else {
            a
        };
        let s = folded.sin_series().clamp_unit();
        if t.raw < 0 {
            s.neg()
        } else {
            s
        }
    }

    /// Cosine of an angle in radians: the sine of the angle a quarter turn
    /// further on.
    pub open spec fn spec_cos(self) -> Fixed {
        self.spec_plus(Fixed { raw: HALF_PI_RAW }).spec_sin()
    }

    /// Cosine of an angle in radians.
    #[verifier::when_used_as_spec(spec_cos)]
    pub fn cos(self) -> (r: Fixed)
        ensures
            r == self.spec_cos(),
            -(ONE_RAW as int) <= r.raw <= ONE_RAW,
    {
        self.plus(Fixed { raw: HALF_PI_RAW }).sin()
    }

    /// Tangent of an angle in radians: sine over cosine.
    pub open spec fn spec_tan(self) -> Fixed {
        self.spec_sin().spec_over(self.spec_cos())
    }

    /// Tangent of an angle in radians.
    #[verifier::when_used_as_spec(spec_tan)]
    pub fn tan(self) -> (r: Fixed)
        ensures
            r == self.spec_tan(),
    {
        self.sin().over(self.cos())
    }

    /// An angle in degrees as radians: times pi, over 180.
    pub open spec fn spec_to_radians(self) -> Fixed {
        self.spec_times(Fixed { raw: PI_RAW }).spec_over(Fixed::spec_from_int(180))
    }

    /// An angle in degrees as radians.
    #[verifier::when_used_as_spec(spec_to_radians)]
    pub fn to_radians(self) -> (r: Fixed)
        ensures
            r == self.spec_to_radians(),
    {
        self.times(Fixed { raw: PI_RAW }).over(Fixed::from_int(180))
    }
}

} // verus!
