//! Square matrices stored column by column.

use vstd::prelude::*;
use crate::fixed::Fixed;
use crate::maths::vec::Vec2f;

verus! {

/// A two-by-two matrix. Entry `array[2 * c + r]` stands in column `c` and
/// row `r`.
#[derive(Clone, Copy, Debug)]
pub struct Mat2f {
    pub array: [Fixed; 4],
}

impl Mat2f {
    /// The entry in column `c` and row `r`.
    pub open spec fn at(&self, c: int, r: int) -> Fixed {
        self.array@[2 * c + r]
    }

    /// The matrix with the given entries, column by column.
    pub fn new(a: [Fixed; 4]) -> (m: Mat2f)
        ensures
            m.array@ == a@,
    {
        Mat2f { array: a }
    }

    /// The matrix of zeros.
    pub fn zero() -> (m: Mat2f)
        ensures
            m.array@ == seq![Fixed::spec_zero(), Fixed::spec_zero(), Fixed::spec_zero(), Fixed::spec_zero()],
    {
        let m = Mat2f { array: [Fixed::zero(), Fixed::zero(), Fixed::zero(), Fixed::zero()] };
        assert(m.array@ =~= seq![Fixed::spec_zero(), Fixed::spec_zero(), Fixed::spec_zero(), Fixed::spec_zero()]);
        m
    }

    /// The matrix that leaves every vector as it is.
    pub fn identity() -> (m: Mat2f)
        ensures
            m.array@ == seq![Fixed::spec_one(), Fixed::spec_zero(), Fixed::spec_zero(), Fixed::spec_one()],
    {
        let m = Mat2f { array: [Fixed::one(), Fixed::zero(), Fixed::zero(), Fixed::one()] };
        assert(m.array@ =~= seq![Fixed::spec_one(), Fixed::spec_zero(), Fixed::spec_zero(), Fixed::spec_one()]);
        m
    }

    /// The matrix that turns vectors by the angle with the given sine and
    /// cosine.
    pub fn from_sin_cos(sin: Fixed, cos: Fixed) -> (m: Mat2f)
        ensures
            m.array@ == seq![cos, sin, sin.spec_neg(), cos],
    {
        let m = Mat2f { array: [cos, sin, sin.neg(), cos] };
        assert(m.array@ =~= seq![cos, sin, sin.spec_neg(), cos]);
        m
    }

    /// The matrix that turns vectors by `angle` radians.
    pub fn rotation(angle: Fixed) -> (m: Mat2f)
        ensures
            m.array@ == seq![
                angle.spec_cos(),
                angle.spec_sin(),
                angle.spec_sin().spec_neg(),
                angle.spec_cos(),
            ],
    {
        Self::from_sin_cos(angle.sin(), angle.cos())
    }

    /// The matrix that multiplies each coordinate by that of `scale`.
    pub fn scale(scale: Vec2f) -> (m: Mat2f)
        ensures
            m.array@ == seq![scale.x, Fixed::spec_zero(), Fixed::spec_zero(), scale.y],
    {
        let m = Mat2f { array: [scale.x, Fixed::zero(), Fixed::zero(), scale.y] };
        assert(m.array@ =~= seq![scale.x, Fixed::spec_zero(), Fixed::spec_zero(), scale.y]);
        m
    }

    pub open spec fn spec_determinant(&self) -> Fixed {
        self.at(0, 0).spec_times(self.at(1, 1)).spec_minus(self.at(1, 0).spec_times(self.at(0, 1)))
    }

    /// The determinant.
    #[verifier::when_used_as_spec(spec_determinant)]
    pub fn determinant(&self) -> (d: Fixed)
        ensures
            d == self.spec_determinant(),
    {
        self.array[0].times(self.array[3]).minus(self.array[2].times(self.array[1]))
    }

    /// The inverse: the adjugate, each entry multiplied by the reciprocal of
    /// the determinant.
    pub fn inverse(&self) -> (m: Mat2f)
        requires
            self.spec_determinant().raw != 0,
        ensures
            ({
                let k = Fixed::spec_one().spec_over(self.spec_determinant());
                m.array@ == seq![
                    self.at(1, 1).spec_times(k),
                    self.at(0, 1).spec_neg().spec_times(k),
                    self.at(1, 0).spec_neg().spec_times(k),
                    self.at(0, 0).spec_times(k),
                ]
            }),
    {
        let det = self.determinant();
        let denom = Fixed::one().over(det);
        let m = Mat2f {
            array: [
                self.array[3].times(denom),
                self.array[1].neg().times(denom),
                self.array[2].neg().times(denom),
                self.array[0].times(denom),
            ],
        };
        assert(m.array@ =~= seq![
            self.at(1, 1).spec_times(denom),
            self.at(0, 1).spec_neg().spec_times(denom),
            self.at(1, 0).spec_neg().spec_times(denom),
            self.at(0, 0).spec_times(denom),
        ]);
        m
    }

    /// The matrix mirrored at its diagonal.
    pub fn transpose(&self) -> (m: Mat2f)
        ensures
            m.array@ == seq![self.at(0, 0), self.at(1, 0), self.at(0, 1), self.at(1, 1)],
    {
        let m = Mat2f { array: [self.array[0], self.array[2], self.array[1], self.array[3]] };
        assert(m.array@ =~= seq![self.at(0, 0), self.at(1, 0), self.at(0, 1), self.at(1, 1)]);
        m
    }

    pub open spec fn spec_apply(&self, v: Vec2f) -> Vec2f {
        Vec2f {
            x: self.at(0, 0).spec_times(v.x).spec_plus(self.at(1, 0).spec_times(v.y)),
            y: self.at(0, 1).spec_times(v.x).spec_plus(self.at(1, 1).spec_times(v.y)),
        }
    }

    /// The product of the matrix with the column vector `v`.
    #[verifier::when_used_as_spec(spec_apply)]
    pub fn apply(&self, v: Vec2f) -> (r: Vec2f)
        ensures
            r == self.spec_apply(v),
    {
        Vec2f {
            x: self.array[0].times(v.x).plus(self.array[2].times(v.y)),
            y: self.array[1].times(v.x).plus(self.array[3].times(v.y)),
        }
    }

    /// The product of two matrices: applying the result is applying `rhs`
    /// and then `self`, up to rounding.
    pub fn times(&self, rhs: &Mat2f) -> (m: Mat2f)
        ensures
            m.array@ == seq![
                self.spec_apply(Vec2f { x: rhs.at(0, 0), y: rhs.at(0, 1) }).x,
                self.spec_apply(Vec2f { x: rhs.at(0, 0), y: rhs.at(0, 1) }).y,
                self.spec_apply(Vec2f { x: rhs.at(1, 0), y: rhs.at(1, 1) }).x,
                self.spec_apply(Vec2f { x: rhs.at(1, 0), y: rhs.at(1, 1) }).y,
            ],
    {
        let c0 = self.apply(Vec2f { x: rhs.array[0], y: rhs.array[1] });
        let c1 = self.apply(Vec2f { x: rhs.array[2], y: rhs.array[3] });
        let m = Mat2f { array: [c0.x, c0.y, c1.x, c1.y] };
        assert(m.array@ =~= seq![c0.x, c0.y, c1.x, c1.y]);
        m
    }
}

/// A three-by-three matrix. Entry `array[3 * c + r]` stands in column `c`
/// and row `r`.
#[derive(Clone, Copy, Debug)]
pub struct Mat3f {
    pub array: [Fixed; 9],
}

/// `a * b - c * d`.
pub open spec fn minor(a: Fixed, b: Fixed, c: Fixed, d: Fixed) -> Fixed {
    a.spec_times(b).spec_minus(c.spec_times(d))
}

fn minor_of(a: Fixed, b: Fixed, c: Fixed, d: Fixed) -> (r: Fixed)
    ensures
        r == minor(a, b, c, d),
{
    a.times(b).minus(c.times(d))
}

impl Mat3f {
    /// The entry in column `c` and row `r`.
    pub open spec fn at(&self, c: int, r: int) -> Fixed {
        self.array@[3 * c + r]
    }

    /// The matrix with the given entries, column by column.
    pub fn new(a: [Fixed; 9]) -> (m: Mat3f)
        ensures
            m.array@ == a@,
    {
        Mat3f { array: a }
    }

    pub open spec fn spec_determinant(&self) -> Fixed {
        let (a, b, c) = (self.at(0, 0), self.at(0, 1), self.at(0, 2));
        let (d, e, f) = (self.at(1, 0), self.at(1, 1), self.at(1, 2));
        let (g, h, i) = (self.at(2, 0), self.at(2, 1), self.at(2, 2));
        a.spec_times(minor(e, i, f, h)).spec_minus(b.spec_times(minor(d, i, f, g))).spec_plus(
            c.spec_times(minor(d, h, e, g)),
        )
    }

    /// The determinant, expanded along the first column.
    #[verifier::when_used_as_spec(spec_determinant)]
    pub fn determinant(&self) -> (det: Fixed)
        ensures
            det == self.spec_determinant(),
    {
        let (a, b, c) = (self.array[0], self.array[1], self.array[2]);
        let (d, e, f) = (self.array[3], self.array[4], self.array[5]);
        let (g, h, i) = (self.array[6], self.array[7], self.array[8]);
        a.times(minor_of(e, i, f, h)).minus(b.times(minor_of(d, i, f, g))).plus(
            c.times(minor_of(d, h, e, g)),
        )
    }

    /// The entries of the inverse, column by column: the adjugate, each
    /// entry multiplied by the reciprocal of the determinant.
    pub open spec fn inverse_entries(&self) -> Seq<Fixed> {
        let (a, b, c) = (self.at(0, 0), self.at(0, 1), self.at(0, 2));
        let (d, e, f) = (self.at(1, 0), self.at(1, 1), self.at(1, 2));
        let (g, h, i) = (self.at(2, 0), self.at(2, 1), self.at(2, 2));
        let k = Fixed::spec_one().spec_over(self.spec_determinant());
        seq![
            minor(e, i, f, h).spec_times(k),
            minor(b, i, c, h).spec_neg().spec_times(k),
            minor(b, f, c, e).spec_times(k),
            minor(d, i, f, g).spec_neg().spec_times(k),
            minor(a, i, c, g).spec_times(k),
            minor(a, f, c, d).spec_neg().spec_times(k),
            minor(d, h, e, g).spec_times(k),
            minor(a, h, b, g).spec_neg().spec_times(k),
            minor(a, e, b, d).spec_times(k),
        ]
    }

    /// The inverse.
    pub fn inverse(&self) -> (m: Mat3f)
        requires
            self.spec_determinant().raw != 0,
        ensures
            m.array@ == self.inverse_entries(),
    {
        let (a, b, c) = (self.array[0], self.array[1], self.array[2]);
        let (d, e, f) = (self.array[3], self.array[4], self.array[5]);
        let (g, h, i) = (self.array[6], self.array[7], self.array[8]);
        let det = self.determinant();
        let k = Fixed::one().over(det);
        let m = Mat3f {
            array: [
                minor_of(e, i, f, h).times(k),
                minor_of(b, i, c, h).neg().times(k),
                minor_of(b, f, c, e).times(k),
                minor_of(d, i, f, g).neg().times(k),
                minor_of(a, i, c, g).times(k),
                minor_of(a, f, c, d).neg().times(k),
                minor_of(d, h, e, g).times(k),
                minor_of(a, h, b, g).neg().times(k),
                minor_of(a, e, b, d).times(k),
            ],
        };
        assert(m.array@ =~= self.inverse_entries());
        m
    }
}

} // verus!
