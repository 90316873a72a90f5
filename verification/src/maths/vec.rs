//! Two- and three-component vectors.

use vstd::prelude::*;
use crate::fixed::Fixed;

verus! {

/// Largest magnitude of a raw coordinate for which the exact predicates of
/// the geometry module are defined: `2^48`, that is `2^24` whole units.
pub const COORD_LIMIT_RAW: i64 = 0x1_0000_0000_0000;

/// The cross product of two directions given by their raw components, not
/// scaled back.
pub open spec fn wide_cross(ax: int, ay: int, bx: int, by: int) -> int {
    ax * by - ay * bx
}

/// The dot product of two directions given by their raw components, not
/// scaled back.
pub open spec fn wide_dot(ax: int, ay: int, bx: int, by: int) -> int {
    ax * bx + ay * by
}

/// The exact cross product of the directions `b - a` and `d - c`.
pub open spec fn edge_cross(a: Vec2f, b: Vec2f, c: Vec2f, d: Vec2f) -> int {
    wide_cross(
        b.x.raw - a.x.raw,
        b.y.raw - a.y.raw,
        d.x.raw - c.x.raw,
        d.y.raw - c.y.raw,
    )
}

/// The exact dot product of the directions `b - a` and `d - c`.
pub open spec fn edge_dot(a: Vec2f, b: Vec2f, c: Vec2f, d: Vec2f) -> int {
    wide_dot(
        b.x.raw - a.x.raw,
        b.y.raw - a.y.raw,
        d.x.raw - c.x.raw,
        d.y.raw - c.y.raw,
    )
}

/// The index after `i` in a ring of `n` places.
pub proof fn lemma_next_index(i: int, n: int)
    requires
        0 <= i < n,
    ensures
        (i + 1) % n == if i + 1 == n {
            0
        } else {
            i + 1
        },
{
    if i + 1 == n {
        vstd::arithmetic::div_mod::lemma_mod_self_0(n);
    } else {
        vstd::arithmetic::div_mod::lemma_small_mod((i + 1) as nat, n as nat);
    }
}

/// Products of coordinate differences stay far inside 128 bits.
pub proof fn lemma_wide_bounds(ax: int, ay: int, bx: int, by: int)
    requires
        -0x2_0000_0000_0000 <= ax <= 0x2_0000_0000_0000,
        -0x2_0000_0000_0000 <= ay <= 0x2_0000_0000_0000,
        -0x2_0000_0000_0000 <= bx <= 0x2_0000_0000_0000,
        -0x2_0000_0000_0000 <= by <= 0x2_0000_0000_0000,
    ensures
        -0x4_0000_0000_0000_0000_0000_0000 <= ax * by <= 0x4_0000_0000_0000_0000_0000_0000,
        -0x4_0000_0000_0000_0000_0000_0000 <= ay * bx <= 0x4_0000_0000_0000_0000_0000_0000,
        -0x4_0000_0000_0000_0000_0000_0000 <= ax * bx <= 0x4_0000_0000_0000_0000_0000_0000,
        -0x4_0000_0000_0000_0000_0000_0000 <= ay * by <= 0x4_0000_0000_0000_0000_0000_0000,
        -0x8_0000_0000_0000_0000_0000_0000 <= wide_cross(ax, ay, bx, by)
            <= 0x8_0000_0000_0000_0000_0000_0000,
        -0x8_0000_0000_0000_0000_0000_0000 <= wide_dot(ax, ay, bx, by)
            <= 0x8_0000_0000_0000_0000_0000_0000,
{
    crate::fixed::lemma_product_bound(ax, by, 0x2_0000_0000_0000, 0x2_0000_0000_0000);
    crate::fixed::lemma_product_bound(ay, bx, 0x2_0000_0000_0000, 0x2_0000_0000_0000);
    crate::fixed::lemma_product_bound(ax, bx, 0x2_0000_0000_0000, 0x2_0000_0000_0000);
    crate::fixed::lemma_product_bound(ay, by, 0x2_0000_0000_0000, 0x2_0000_0000_0000);
    assert(0x2_0000_0000_0000int * 0x2_0000_0000_0000int == 0x4_0000_0000_0000_0000_0000_0000int)
        by (nonlinear_arith);
}

/// Computes [`edge_cross`].
pub fn exact_edge_cross(a: Vec2f, b: Vec2f, c: Vec2f, d: Vec2f) -> (r: i128)
    requires
        a.bounded(),
        b.bounded(),
        c.bounded(),
        d.bounded(),
    ensures
        r == edge_cross(a, b, c, d),
        -0x8_0000_0000_0000_0000_0000_0000 <= r <= 0x8_0000_0000_0000_0000_0000_0000,
{
    let ax: i128 = (b.x.raw as i128) - (a.x.raw as i128);
    let ay: i128 = (b.y.raw as i128) - (a.y.raw as i128);
    let bx: i128 = (d.x.raw as i128) - (c.x.raw as i128);
    let by: i128 = (d.y.raw as i128) - (c.y.raw as i128);
    proof {
        lemma_wide_bounds(ax as int, ay as int, bx as int, by as int);
    }
    ax * by - ay * bx
}

/// Computes [`edge_dot`].
pub fn exact_edge_dot(a: Vec2f, b: Vec2f, c: Vec2f, d: Vec2f) -> (r: i128)
    requires
        a.bounded(),
        b.bounded(),
        c.bounded(),
        d.bounded(),
    ensures
        r == edge_dot(a, b, c, d),
        -0x8_0000_0000_0000_0000_0000_0000 <= r <= 0x8_0000_0000_0000_0000_0000_0000,
{
    let ax: i128 = (b.x.raw as i128) - (a.x.raw as i128);
    let ay: i128 = (b.y.raw as i128) - (a.y.raw as i128);
    let bx: i128 = (d.x.raw as i128) - (c.x.raw as i128);
    let by: i128 = (d.y.raw as i128) - (c.y.raw as i128);
    proof {
        lemma_wide_bounds(ax as int, ay as int, bx as int, by as int);
    }
    ax * bx + ay * by
}

/// A point or direction in the plane.
#[derive(Clone, Copy, Debug, PartialEq, Eq, Structural)]
pub struct Vec2f {
    pub x: Fixed,
    pub y: Fixed,
}

impl Vec2f {
    /// Both coordinates lie within [`COORD_LIMIT_RAW`] of zero.
    pub open spec fn bounded(self) -> bool {
        &&& -COORD_LIMIT_RAW <= self.x.raw <= COORD_LIMIT_RAW
        &&& -COORD_LIMIT_RAW <= self.y.raw <= COORD_LIMIT_RAW
    }

    /// Tells whether both coordinates lie within [`COORD_LIMIT_RAW`] of zero.
    pub fn is_bounded(self) -> (b: bool)
        ensures
            b == self.bounded(),
    {
        -COORD_LIMIT_RAW <= self.x.raw && self.x.raw <= COORD_LIMIT_RAW && -COORD_LIMIT_RAW
            <= self.y.raw && self.y.raw <= COORD_LIMIT_RAW
    }

    pub open spec fn spec_new(x: Fixed, y: Fixed) -> Vec2f {
        Vec2f { x, y }
    }

    #[verifier::when_used_as_spec(spec_new)]
    pub fn new(x: Fixed, y: Fixed) -> (r: Vec2f)
        ensures
            r == Self::spec_new(x, y),
    {
        Vec2f { x, y }
    }

    pub open spec fn spec_zero() -> Vec2f {
        Vec2f { x: Fixed::zero(), y: Fixed::zero() }
    }

    /// The origin.
    #[verifier::when_used_as_spec(spec_zero)]
    pub fn zero() -> (r: Vec2f)
        ensures
            r == Self::spec_zero(),
    {
        Vec2f { x: Fixed::zero(), y: Fixed::zero() }
    }

    pub open spec fn spec_uniform(a: Fixed) -> Vec2f {
        Vec2f { x: a, y: a }
    }

    /// Both components equal to `a`.
    #[verifier::when_used_as_spec(spec_uniform)]
    pub fn uniform(a: Fixed) -> (r: Vec2f)
        ensures
            r == Self::spec_uniform(a),
    {
        Vec2f { x: a, y: a }
    }

    pub open spec fn spec_plus(self, rhs: Vec2f) -> Vec2f {
        Vec2f { x: self.x.plus(rhs.x), y: self.y.plus(rhs.y) }
    }

    /// Component-wise sum.
    #[verifier::when_used_as_spec(spec_plus)]
    pub fn plus(self, rhs: Vec2f) -> (r: Vec2f)
        ensures
            r == self.spec_plus(rhs),
    {
        Vec2f { x: self.x.plus(rhs.x), y: self.y.plus(rhs.y) }
    }

    pub open spec fn spec_minus(self, rhs: Vec2f) -> Vec2f {
        Vec2f { x: self.x.minus(rhs.x), y: self.y.minus(rhs.y) }
    }

    /// Component-wise difference.
    #[verifier::when_used_as_spec(spec_minus)]
    pub fn minus(self, rhs: Vec2f) -> (r: Vec2f)
        ensures
            r == self.spec_minus(rhs),
    {
        Vec2f { x: self.x.minus(rhs.x), y: self.y.minus(rhs.y) }
    }

    pub open spec fn spec_times(self, rhs: Vec2f) -> Vec2f {
        Vec2f { x: self.x.times(rhs.x), y: self.y.times(rhs.y) }
    }

    /// Component-wise product.
    #[verifier::when_used_as_spec(spec_times)]
    pub fn times(self, rhs: Vec2f) -> (r: Vec2f)
        ensures
            r == self.spec_times(rhs),
    {
        Vec2f { x: self.x.times(rhs.x), y: self.y.times(rhs.y) }
    }

    pub open spec fn spec_over(self, rhs: Vec2f) -> Vec2f {
        Vec2f { x: self.x.over(rhs.x), y: self.y.over(rhs.y) }
    }

    /// Component-wise quotient.
    #[verifier::when_used_as_spec(spec_over)]
    pub fn over(self, rhs: Vec2f) -> (r: Vec2f)
        ensures
            r == self.spec_over(rhs),
    {
        Vec2f { x: self.x.over(rhs.x), y: self.y.over(rhs.y) }
    }

    pub open spec fn spec_scaled(self, k: Fixed) -> Vec2f {
        Vec2f { x: self.x.times(k), y: self.y.times(k) }
    }

    /// Both components multiplied by `k`.
    #[verifier::when_used_as_spec(spec_scaled)]
    pub fn scaled(self, k: Fixed) -> (r: Vec2f)
        ensures
            r == self.spec_scaled(k),
    {
        Vec2f { x: self.x.times(k), y: self.y.times(k) }
    }

    pub open spec fn spec_divided(self, k: Fixed) -> Vec2f {
        Vec2f { x: self.x.over(k), y: self.y.over(k) }
    }

    /// Both components divided by `k`.
    #[verifier::when_used_as_spec(spec_divided)]
    pub fn divided(self, k: Fixed) -> (r: Vec2f)
        ensures
            r == self.spec_divided(k),
    {
        Vec2f { x: self.x.over(k), y: self.y.over(k) }
    }

    pub open spec fn spec_half(self) -> Vec2f {
        Vec2f { x: self.x.half(), y: self.y.half() }
    }

    /// Both components halved.
    #[verifier::when_used_as_spec(spec_half)]
    pub fn half(self) -> (r: Vec2f)
        ensures
            r == self.spec_half(),
    {
        Vec2f { x: self.x.half(), y: self.y.half() }
    }

    pub open spec fn spec_neg(self) -> Vec2f {
        Vec2f { x: self.x.neg(), y: self.y.neg() }
    }

    /// The opposite vector.
    #[verifier::when_used_as_spec(spec_neg)]
    pub fn neg(self) -> (r: Vec2f)
        ensures
            r == self.spec_neg(),
    {
        Vec2f { x: self.x.neg(), y: self.y.neg() }
    }

    pub open spec fn spec_abs(self) -> Vec2f {
        Vec2f { x: self.x.abs(), y: self.y.abs() }
    }

    /// Component-wise magnitude.
    #[verifier::when_used_as_spec(spec_abs)]
    pub fn abs(self) -> (r: Vec2f)
        ensures
            r == self.spec_abs(),
    {
        Vec2f { x: self.x.abs(), y: self.y.abs() }
    }

    pub open spec fn spec_sqrt(self) -> Vec2f {
        Vec2f { x: self.x.spec_sqrt(), y: self.y.spec_sqrt() }
    }

    /// Component-wise square root.
    #[verifier::when_used_as_spec(spec_sqrt)]
    pub fn sqrt(self) -> (r: Vec2f)
        ensures
            r == self.spec_sqrt(),
    {
        Vec2f { x: self.x.sqrt(), y: self.y.sqrt() }
    }

    pub open spec fn spec_recip(self) -> Vec2f {
        Vec2f { x: Fixed::spec_one().spec_over(self.x), y: Fixed::spec_one().spec_over(self.y) }
    }

    /// Component-wise reciprocal.
    #[verifier::when_used_as_spec(spec_recip)]
    pub fn recip(self) -> (r: Vec2f)
        ensures
            r == self.spec_recip(),
    {
        Vec2f { x: Fixed::one().over(self.x), y: Fixed::one().over(self.y) }
    }

    pub open spec fn spec_dot(self, rhs: Vec2f) -> Fixed {
        self.x.times(rhs.x).plus(self.y.times(rhs.y))
    }

    /// Dot product.
    #[verifier::when_used_as_spec(spec_dot)]
    pub fn dot(self, rhs: Vec2f) -> (r: Fixed)
        ensures
            r == self.spec_dot(rhs),
    {
        self.x.times(rhs.x).plus(self.y.times(rhs.y))
    }

    pub open spec fn spec_cross(self, rhs: Vec2f) -> Fixed {
        self.x.times(rhs.y).minus(self.y.times(rhs.x))
    }

    /// The z component of the three-dimensional cross product.
    #[verifier::when_used_as_spec(spec_cross)]
    pub fn cross(self, rhs: Vec2f) -> (r: Fixed)
        ensures
            r == self.spec_cross(rhs),
    {
        self.x.times(rhs.y).minus(self.y.times(rhs.x))
    }

    pub open spec fn spec_perpendicular(self) -> Vec2f {
        Vec2f { x: self.y.neg(), y: self.x }
    }

    /// The vector turned a quarter turn counter-clockwise.
    #[verifier::when_used_as_spec(spec_perpendicular)]
    pub fn perpendicular(self) -> (r: Vec2f)
        ensures
            r == self.spec_perpendicular(),
    {
        Vec2f { x: self.y.neg(), y: self.x }
    }

    pub open spec fn spec_rotate(self, sin: Fixed, cos: Fixed) -> Vec2f {
        Vec2f {
            x: self.x.times(cos).minus(self.y.times(sin)),
            y: self.x.times(sin).plus(self.y.times(cos)),
        }
    }

    /// The vector turned by the angle whose sine and cosine are given.
    #[verifier::when_used_as_spec(spec_rotate)]
    pub fn rotate(self, sin: Fixed, cos: Fixed) -> (r: Vec2f)
        ensures
            r == self.spec_rotate(sin, cos),
    {
        Vec2f {
            x: self.x.times(cos).minus(self.y.times(sin)),
            y: self.x.times(sin).plus(self.y.times(cos)),
        }
    }

    pub open spec fn spec_magnitude_sq(self) -> Fixed {
        self.x.times(self.x).plus(self.y.times(self.y))
    }

    /// Squared length.
    #[verifier::when_used_as_spec(spec_magnitude_sq)]
    pub fn magnitude_sq(self) -> (r: Fixed)
        ensures
            r == self.spec_magnitude_sq(),
    {
        self.x.times(self.x).plus(self.y.times(self.y))
    }

    pub open spec fn spec_magnitude(self) -> Fixed {
        self.spec_magnitude_sq().sqrt()
    }

    /// Length.
    #[verifier::when_used_as_spec(spec_magnitude)]
    pub fn magnitude(self) -> (r: Fixed)
        ensures
            r == self.spec_magnitude(),
    {
        self.magnitude_sq().sqrt()
    }

    pub open spec fn spec_normalise(self) -> Vec2f {
        let m = self.spec_magnitude();
        if m.raw == 0 {
            Vec2f::zero()
        } else {
            Vec2f { x: self.x.over(m), y: self.y.over(m) }
        }
    }

    /// The vector scaled to unit length; the origin stays the origin.
    #[verifier::when_used_as_spec(spec_normalise)]
    pub fn normalise(self) -> (r: Vec2f)
        ensures
            r == self.spec_normalise(),
    {
        let m = self.magnitude();
        if m.raw == 0 {
            Vec2f::zero()
        } else {
            Vec2f { x: self.x.over(m), y: self.y.over(m) }
        }
    }

    pub open spec fn spec_lerp(self, rhs: Vec2f, t: Fixed) -> Vec2f {
        Vec2f {
            x: self.x.plus(rhs.x.minus(self.x).times(t)),
            y: self.y.plus(rhs.y.minus(self.y).times(t)),
        }
    }

    /// Linear interpolation from `self` (at `t = 0`) to `rhs` (at `t = 1`).
    #[verifier::when_used_as_spec(spec_lerp)]
    pub fn lerp(self, rhs: Vec2f, t: Fixed) -> (r: Vec2f)
        ensures
            r == self.spec_lerp(rhs, t),
    {
        Vec2f {
            x: self.x.plus(rhs.x.minus(self.x).times(t)),
            y: self.y.plus(rhs.y.minus(self.y).times(t)),
        }
    }
}

/// A point or direction in space.
#[derive(Clone, Copy, Debug, PartialEq, Eq, Structural)]
pub struct Vec3f {
    pub x: Fixed,
    pub y: Fixed,
    pub z: Fixed,
}

impl Vec3f {
    pub open spec fn spec_new(x: Fixed, y: Fixed, z: Fixed) -> Vec3f {
        Vec3f { x, y, z }
    }

    #[verifier::when_used_as_spec(spec_new)]
    pub fn new(x: Fixed, y: Fixed, z: Fixed) -> (r: Vec3f)
        ensures
            r == Self::spec_new(x, y, z),
    {
        Vec3f { x, y, z }
    }

    pub open spec fn spec_zero() -> Vec3f {
        Vec3f { x: Fixed::zero(), y: Fixed::zero(), z: Fixed::zero() }
    }

    /// The origin.
    #[verifier::when_used_as_spec(spec_zero)]
    pub fn zero() -> (r: Vec3f)
        ensures
            r == Self::spec_zero(),
    {
        Vec3f { x: Fixed::zero(), y: Fixed::zero(), z: Fixed::zero() }
    }

    pub open spec fn spec_plus(self, rhs: Vec3f) -> Vec3f {
        Vec3f { x: self.x.plus(rhs.x), y: self.y.plus(rhs.y), z: self.z.plus(rhs.z) }
    }

    /// Component-wise sum.
    #[verifier::when_used_as_spec(spec_plus)]
    pub fn plus(self, rhs: Vec3f) -> (r: Vec3f)
        ensures
            r == self.spec_plus(rhs),
    {
        Vec3f { x: self.x.plus(rhs.x), y: self.y.plus(rhs.y), z: self.z.plus(rhs.z) }
    }

    pub open spec fn spec_minus(self, rhs: Vec3f) -> Vec3f {
        Vec3f { x: self.x.minus(rhs.x), y: self.y.minus(rhs.y), z: self.z.minus(rhs.z) }
    }

    /// Component-wise difference.
    #[verifier::when_used_as_spec(spec_minus)]
    pub fn minus(self, rhs: Vec3f) -> (r: Vec3f)
        ensures
            r == self.spec_minus(rhs),
    {
        Vec3f { x: self.x.minus(rhs.x), y: self.y.minus(rhs.y), z: self.z.minus(rhs.z) }
    }

    pub open spec fn spec_scaled(self, k: Fixed) -> Vec3f {
        Vec3f { x: self.x.times(k), y: self.y.times(k), z: self.z.times(k) }
    }

    /// All components multiplied by `k`.
    #[verifier::when_used_as_spec(spec_scaled)]
    pub fn scaled(self, k: Fixed) -> (r: Vec3f)
        ensures
            r == self.spec_scaled(k),
    {
        Vec3f { x: self.x.times(k), y: self.y.times(k), z: self.z.times(k) }
    }

    pub open spec fn spec_dot(self, rhs: Vec3f) -> Fixed {
        self.x.times(rhs.x).plus(self.y.times(rhs.y)).plus(self.z.times(rhs.z))
    }

    /// Dot product.
    #[verifier::when_used_as_spec(spec_dot)]
    pub fn dot(self, rhs: Vec3f) -> (r: Fixed)
        ensures
            r == self.spec_dot(rhs),
    {
        self.x.times(rhs.x).plus(self.y.times(rhs.y)).plus(self.z.times(rhs.z))
    }

    pub open spec fn spec_cross(self, rhs: Vec3f) -> Vec3f {
        Vec3f {
            x: self.y.times(rhs.z).minus(self.z.times(rhs.y)),
            y: self.z.times(rhs.x).minus(self.x.times(rhs.z)),
            z: self.x.times(rhs.y).minus(self.y.times(rhs.x)),
        }
    }

    /// Cross product.
    #[verifier::when_used_as_spec(spec_cross)]
    pub fn cross(self, rhs: Vec3f) -> (r: Vec3f)
        ensures
            r == self.spec_cross(rhs),
    {
        Vec3f {
            x: self.y.times(rhs.z).minus(self.z.times(rhs.y)),
            y: self.z.times(rhs.x).minus(self.x.times(rhs.z)),
            z: self.x.times(rhs.y).minus(self.y.times(rhs.x)),
        }
    }

    pub open spec fn spec_magnitude_sq(self) -> Fixed {
        self.spec_dot(self)
    }

    /// Squared length.
    #[verifier::when_used_as_spec(spec_magnitude_sq)]
    pub fn magnitude_sq(self) -> (r: Fixed)
        ensures
            r == self.spec_magnitude_sq(),
    {
        self.dot(self)
    }

    pub open spec fn spec_magnitude(self) -> Fixed {
        self.spec_magnitude_sq().spec_sqrt()
    }

    /// Length.
    #[verifier::when_used_as_spec(spec_magnitude)]
    pub fn magnitude(self) -> (r: Fixed)
        ensures
            r == self.spec_magnitude(),
    {
        self.magnitude_sq().sqrt()
    }

    pub open spec fn spec_normalise(self) -> Vec3f {
        let m = self.spec_magnitude();
        if m.raw == 0 {
            Vec3f::spec_zero()
        } else {
            Vec3f { x: self.x.spec_over(m), y: self.y.spec_over(m), z: self.z.spec_over(m) }
        }
    }

    /// The vector scaled to unit length; the origin stays the origin.
    #[verifier::when_used_as_spec(spec_normalise)]
    pub fn normalise(self) -> (r: Vec3f)
        ensures
            r == self.spec_normalise(),
    {
        let m = self.magnitude();
        if m.raw == 0 {
            Vec3f::zero()
        } else {
            Vec3f { x: self.x.over(m), y: self.y.over(m), z: self.z.over(m) }
        }
    }

    pub open spec fn spec_neg(self) -> Vec3f {
        Vec3f { x: self.x.spec_neg(), y: self.y.spec_neg(), z: self.z.spec_neg() }
    }

    /// The opposite vector.
    #[verifier::when_used_as_spec(spec_neg)]
    pub fn neg(self) -> (r: Vec3f)
        ensures
            r == self.spec_neg(),
    {
        Vec3f { x: self.x.neg(), y: self.y.neg(), z: self.z.neg() }
    }

    pub open spec fn spec_from_vec2(v: Vec2f) -> Vec3f {
        Vec3f { x: v.x, y: v.y, z: Fixed::zero() }
    }

    /// The planar vector `v` at height zero.
    #[verifier::when_used_as_spec(spec_from_vec2)]
    pub fn from_vec2(v: Vec2f) -> (r: Vec3f)
        ensures
            r == Self::spec_from_vec2(v),
    {
        Vec3f { x: v.x, y: v.y, z: Fixed::zero() }
    }

    pub open spec fn spec_to_vec2(self) -> Vec2f {
        Vec2f { x: self.x, y: self.y }
    }

    /// The vector without its third component.
    #[verifier::when_used_as_spec(spec_to_vec2)]
    pub fn to_vec2(self) -> (r: Vec2f)
        ensures
            r == self.spec_to_vec2(),
    {
        Vec2f { x: self.x, y: self.y }
    }
}

} // verus!
