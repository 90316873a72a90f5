//! Triangles.

use vstd::prelude::*;
use crate::fixed::Fixed;
use crate::maths::aabb::AABB;
use crate::maths::segment::Segment;
use crate::maths::vec::exact_edge_cross;
use crate::maths::vec::Vec2f;
use crate::maths::vec::Vec3f;

verus! {

/// The triangle with corners `a`, `b` and `c`.
#[derive(Clone, Copy, Debug, PartialEq, Eq, Structural)]
pub struct Triangle {
    pub a: Vec2f,
    pub b: Vec2f,
    pub c: Vec2f,
}

impl Triangle {
    /// Every corner is within the coordinate limit.
    pub open spec fn bounded(&self) -> bool {
        self.a.bounded() && self.b.bounded() && self.c.bounded()
    }

    pub open spec fn spec_new(a: Vec2f, b: Vec2f, c: Vec2f) -> Triangle {
        Triangle { a, b, c }
    }

    #[verifier::when_used_as_spec(spec_new)]
    pub fn new(a: Vec2f, b: Vec2f, c: Vec2f) -> (r: Triangle)
        ensures
            r == Self::spec_new(a, b, c),
    {
        Triangle { a, b, c }
    }

    pub open spec fn spec_area(&self) -> Fixed {
        self.b.spec_minus(self.a).spec_cross(self.c.spec_minus(self.a)).spec_abs().spec_half()
    }

    /// Half the magnitude of the cross product of two sides.
    #[verifier::when_used_as_spec(spec_area)]
    pub fn area(&self) -> (r: Fixed)
        ensures
            r == self.spec_area(),
    {
        let parallelogram_area = self.b.minus(self.a).cross(self.c.minus(self.a)).abs();
        parallelogram_area.half()
    }

    pub open spec fn spec_barycentric_from_inv_area(&self, point: Vec2f, inv_area: Fixed) -> Vec3f {
        Vec3f {
            x: Triangle { a: self.b, b: self.c, c: point }.spec_area().spec_times(inv_area),
            y: Triangle { a: self.a, b: self.c, c: point }.spec_area().spec_times(inv_area),
            z: Triangle { a: self.a, b: self.b, c: point }.spec_area().spec_times(inv_area),
        }
    }

    /// The areas of the three triangles that `point` makes with each side,
    /// each multiplied by `inv_area`.
    #[verifier::when_used_as_spec(spec_barycentric_from_inv_area)]
    pub fn barycentric_from_inv_area(&self, point: Vec2f, inv_area: Fixed) -> (r: Vec3f)
        ensures
            r == self.spec_barycentric_from_inv_area(point, inv_area),
    {
        let area_bcp = Triangle::new(self.b, self.c, point).area();
        let area_acp = Triangle::new(self.a, self.c, point).area();
        let area_abp = Triangle::new(self.a, self.b, point).area();
        let u = area_bcp.times(inv_area);
        let v = area_acp.times(inv_area);
        let w = area_abp.times(inv_area);
        Vec3f::new(u, v, w)
    }

    pub open spec fn spec_barycentric(&self, point: Vec2f) -> Vec3f {
        self.spec_barycentric_from_inv_area(point, Fixed::spec_one().spec_over(self.spec_area()))
    }

    /// The weights of the three corners at `point`.
    #[verifier::when_used_as_spec(spec_barycentric)]
    pub fn barycentric(&self, point: Vec2f) -> (r: Vec3f)
        ensures
            r == self.spec_barycentric(point),
    {
        let area = self.area();
        let inv_area = Fixed::one().over(area);
        self.barycentric_from_inv_area(point, inv_area)
    }

    /// The three edges, each from one corner back to the one before it.
    pub open spec fn edge(&self, i: int) -> Segment {
        if i == 0 {
            Segment { a: self.b, b: self.a }
        } else if i == 1 {
            Segment { a: self.c, b: self.b }
        } else {
            Segment { a: self.a, b: self.c }
        }
    }

    pub open spec fn spec_contains_point(&self, point: Vec2f) -> bool {
        &&& self.edge(0).on_negative_side(point) == self.edge(1).on_negative_side(point)
        &&& self.edge(1).on_negative_side(point) == self.edge(2).on_negative_side(point)
    }

    /// `point` lies on the same side of all three edges.
    #[verifier::when_used_as_spec(spec_contains_point)]
    pub fn contains_point(&self, point: Vec2f) -> (r: bool)
        requires
            self.bounded(),
            point.bounded(),
        ensures
            r == self.spec_contains_point(point),
    {
        let edge_1: i128 = exact_edge_cross(self.b, point, self.b, self.a);
        let edge_2: i128 = exact_edge_cross(self.c, point, self.c, self.b);
        let edge_3: i128 = exact_edge_cross(self.a, point, self.a, self.c);
        let sign_1: bool = edge_1 < 0;
        let sign_2: bool = edge_2 < 0;
        let sign_3: bool = edge_3 < 0;
        sign_1 == sign_2 && sign_2 == sign_3
    }

    pub open spec fn spec_intersects_ray(&self, ray: &Segment) -> bool {
        ||| self.edge(0).spec_intersects(ray)
        ||| self.edge(1).spec_intersects(ray)
        ||| self.edge(2).spec_intersects(ray)
    }

    /// `ray` crosses one of the three edges.
    #[verifier::when_used_as_spec(spec_intersects_ray)]
    pub fn intersects_ray(&self, ray: &Segment) -> (r: bool)
        requires
            self.bounded(),
            ray.bounded(),
        ensures
            r == self.spec_intersects_ray(ray),
    {
        let edge_1 = Segment::new(self.b, self.a);
        if edge_1.intersects(ray) {
            return true;
        }
        let edge_2 = Segment::new(self.c, self.b);
        if edge_2.intersects(ray) {
            return true;
        }
        let edge_3 = Segment::new(self.a, self.c);
        edge_3.intersects(ray)
    }

    pub open spec fn spec_extents(&self) -> AABB {
        AABB {
            min: Vec2f {
                x: self.a.x.spec_min(self.b.x).spec_min(self.c.x),
                y: self.a.y.spec_min(self.b.y).spec_min(self.c.y),
            },
            max: Vec2f {
                x: self.a.x.spec_max(self.b.x).spec_max(self.c.x),
                y: self.a.y.spec_max(self.b.y).spec_max(self.c.y),
            },
        }
    }

    /// The smallest box around the three corners.
    #[verifier::when_used_as_spec(spec_extents)]
    pub fn extents(&self) -> (r: AABB)
        ensures
            r == self.spec_extents(),
    {
        let min_x = self.a.x.min(self.b.x).min(self.c.x);
        let min_y = self.a.y.min(self.b.y).min(self.c.y);
        let max_x = self.a.x.max(self.b.x).max(self.c.x);
        let max_y = self.a.y.max(self.b.y).max(self.c.y);
        AABB::new(Vec2f::new(min_x, min_y), Vec2f::new(max_x, max_y))
    }

    pub open spec fn spec_centre(&self) -> Vec2f {
        Vec2f {
            x: self.a.x.spec_plus(self.b.x).spec_plus(self.c.x).spec_over(Fixed::spec_from_int(3)),
            y: self.a.y.spec_plus(self.b.y).spec_plus(self.c.y).spec_over(Fixed::spec_from_int(3)),
        }
    }

    /// The mean of the three corners.
    #[verifier::when_used_as_spec(spec_centre)]
    pub fn centre(&self) -> (r: Vec2f)
        ensures
            r == self.spec_centre(),
    {
        let x = self.a.x.plus(self.b.x).plus(self.c.x).over(Fixed::from_int(3));
        let y = self.a.y.plus(self.b.y).plus(self.c.y).over(Fixed::from_int(3));
        Vec2f::new(x, y)
    }

    /// Moves the triangle by `translation`.
    pub fn translate(&mut self, translation: Vec2f)
        ensures
            final(self).a == old(self).a.spec_plus(translation),
            final(self).b == old(self).b.spec_plus(translation),
            final(self).c == old(self).c.spec_plus(translation),
    {
        self.a = self.a.plus(translation);
        self.b = self.b.plus(translation);
        self.c = self.c.plus(translation);
    }

    /// Multiplies the corners by `scale`, coordinate by coordinate.
    pub fn scale(&mut self, scale: Vec2f)
        ensures
            final(self).a == old(self).a.spec_times(scale),
            final(self).b == old(self).b.spec_times(scale),
            final(self).c == old(self).c.spec_times(scale),
    {
        self.a = self.a.times(scale);
        self.b = self.b.times(scale);
        self.c = self.c.times(scale);
    }

    /// Turns the corners about the origin.
    pub fn rotate(&mut self, sin: Fixed, cos: Fixed)
        ensures
            final(self).a == old(self).a.spec_rotate(sin, cos),
            final(self).b == old(self).b.spec_rotate(sin, cos),
            final(self).c == old(self).c.spec_rotate(sin, cos),
    {
        self.a = self.a.rotate(sin, cos);
        self.b = self.b.rotate(sin, cos);
        self.c = self.c.rotate(sin, cos);
    }

    /// The three corners.
    pub fn points(&self) -> (r: Vec<Vec2f>)
        ensures
            r@ == seq![self.a, self.b, self.c],
    {
        let mut r: Vec<Vec2f> = Vec::new();
        r.push(self.a);
        r.push(self.b);
        r.push(self.c);
        assert(r@ =~= seq![self.a, self.b, self.c]);
        r
    }
}

} // verus!
