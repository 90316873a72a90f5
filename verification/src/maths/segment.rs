//! Line segments.

use vstd::prelude::*;
use crate::fixed::Fixed;
use crate::maths::aabb::AABB;
use crate::maths::polygon::Polygon;
use crate::maths::vec::edge_cross;
use crate::maths::vec::edge_dot;
use crate::maths::vec::exact_edge_cross;
use crate::maths::vec::exact_edge_dot;
use crate::maths::vec::Vec2f;

verus! {

/// The segment from `a` to `b`.
#[derive(Clone, Copy, Debug, PartialEq, Eq, Structural)]
pub struct Segment {
    pub a: Vec2f,
    pub b: Vec2f,
}

/// The quotient `n / d` lies in the closed unit interval.
pub open spec fn in_unit(n: int, d: int) -> bool {
    if d > 0 {
        0 <= n <= d
    } else {
        d <= n <= 0
    }
}

fn ratio_in_unit(n: i128, d: i128) -> (r: bool)
    ensures
        r == in_unit(n as int, d as int),
{
    if d > 0 {
        0 <= n && n <= d
    } else {
        d <= n && n <= 0
    }
}

impl Segment {
    /// Both ends are within the coordinate limit.
    pub open spec fn bounded(&self) -> bool {
        self.a.bounded() && self.b.bounded()
    }

    pub open spec fn spec_new(a: Vec2f, b: Vec2f) -> Segment {
        Segment { a, b }
    }

    #[verifier::when_used_as_spec(spec_new)]
    pub fn new(a: Vec2f, b: Vec2f) -> (r: Segment)
        ensures
            r == Self::spec_new(a, b),
    {
        Segment { a, b }
    }

    /// The segment from the origin to the origin.
    pub fn zero() -> (r: Segment)
        ensures
            r == Segment::spec_new(Vec2f::spec_zero(), Vec2f::spec_zero()),
    {
        Segment { a: Vec2f::zero(), b: Vec2f::zero() }
    }

    pub open spec fn spec_edge_side(&self, point: Vec2f) -> Fixed {
        point.spec_minus(self.a).spec_cross(self.b.spec_minus(self.a))
    }

    /// Cross product of the direction from `a` to `point` with the direction
    /// of the segment: positive on one side of the line, negative on the
    /// other.
    #[verifier::when_used_as_spec(spec_edge_side)]
    pub fn edge_side(&self, point: Vec2f) -> (r: Fixed)
        ensures
            r == self.spec_edge_side(point),
    {
        let edge = self.b.minus(self.a);
        let point = point.minus(self.a);
        point.cross(edge)
    }

    /// The exact sign of [`Segment::edge_side`]: whether `point` lies
    /// strictly on the negative side.
    pub open spec fn on_negative_side(&self, point: Vec2f) -> bool {
        edge_cross(self.a, point, self.a, self.b) < 0
    }

    /// The cross product of the two directions; zero if and only if the
    /// segments are parallel.
    pub open spec fn cross_with(&self, other: &Segment) -> int {
        edge_cross(self.a, self.b, other.a, other.b)
    }

    /// Numerator of the position along `self` at which the lines meet; the
    /// denominator is [`Segment::cross_with`].
    pub open spec fn meet_along_self(&self, other: &Segment) -> int {
        edge_cross(self.a, other.a, other.a, other.b)
    }

    /// Numerator of the position along `other` at which the lines meet.
    pub open spec fn meet_along_other(&self, other: &Segment) -> int {
        edge_cross(self.a, other.a, self.a, self.b)
    }

    pub open spec fn spec_intersects(&self, other: &Segment) -> bool {
        &&& self.cross_with(other) != 0
        &&& in_unit(self.meet_along_self(other), self.cross_with(other))
        &&& in_unit(self.meet_along_other(other), self.cross_with(other))
    }

    /// The segments are not parallel and share a point.
    #[verifier::when_used_as_spec(spec_intersects)]
    pub fn intersects(&self, other: &Segment) -> (r: bool)
        requires
            self.bounded(),
            other.bounded(),
        ensures
            r == self.spec_intersects(other),
    {
        let cross: i128 = exact_edge_cross(self.a, self.b, other.a, other.b);
        if cross == 0 {
            return false;
        }
        let t: i128 = exact_edge_cross(self.a, other.a, other.a, other.b);
        let u: i128 = exact_edge_cross(self.a, other.a, self.a, self.b);
        ratio_in_unit(t, cross) && ratio_in_unit(u, cross)
    }

    /// The point of `self` at the position where the lines meet, with the
    /// position rounded down to the precision of a [`Fixed`].
    pub open spec fn meeting_point(&self, other: &Segment) -> Vec2f {
        let t = Fixed {
            raw: crate::fixed::raw_div(self.meet_along_self(other), self.cross_with(other)) as i64,
        };
        self.a.spec_plus(self.b.spec_minus(self.a).spec_scaled(t))
    }

    pub open spec fn spec_intersection(&self, other: &Segment) -> Option<Vec2f> {
        if self.spec_intersects(other) {
            Some(self.meeting_point(other))
        } else {
            None
        }
    }

    /// The point that two segments share, if they are not parallel and
    /// share one.
    #[verifier::when_used_as_spec(spec_intersection)]
    pub fn intersection(&self, other: &Segment) -> (r: Option<Vec2f>)
        requires
            self.bounded(),
            other.bounded(),
        ensures
            r == self.spec_intersection(other),
    {
        let cross: i128 = exact_edge_cross(self.a, self.b, other.a, other.b);
        if cross == 0 {
            return None;
        }
        let t: i128 = exact_edge_cross(self.a, other.a, other.a, other.b);
        let u: i128 = exact_edge_cross(self.a, other.a, self.a, self.b);
        if ratio_in_unit(t, cross) && ratio_in_unit(u, cross) {
            let along: Fixed = Fixed::wide_div(t, cross);
            Some(self.a.plus(self.b.minus(self.a).scaled(along)))
        } else {
            None
        }
    }

    /// Both ends lie beyond the same side of `bounds`.
    pub open spec fn beyond_one_side(&self, bounds: &AABB) -> bool {
        ||| self.a.x.raw < bounds.min.x.raw && self.b.x.raw < bounds.min.x.raw
        ||| self.a.x.raw > bounds.max.x.raw && self.b.x.raw > bounds.max.x.raw
        ||| self.a.y.raw < bounds.min.y.raw && self.b.y.raw < bounds.min.y.raw
        ||| self.a.y.raw > bounds.max.y.raw && self.b.y.raw > bounds.max.y.raw
    }

    fn is_beyond_one_side(&self, bounds: &AABB) -> (r: bool)
        ensures
            r == self.beyond_one_side(bounds),
    {
        (self.a.x.raw < bounds.min.x.raw && self.b.x.raw < bounds.min.x.raw) || (self.a.x.raw
            > bounds.max.x.raw && self.b.x.raw > bounds.max.x.raw) || (self.a.y.raw
            < bounds.min.y.raw && self.b.y.raw < bounds.min.y.raw) || (self.a.y.raw
            > bounds.max.y.raw && self.b.y.raw > bounds.max.y.raw)
    }

    pub open spec fn spec_overlaps_bounds(&self, bounds: &AABB) -> bool {
        ||| bounds.spec_contains_point(self.a)
        ||| bounds.spec_contains_point(self.b)
        ||| (!self.beyond_one_side(bounds) && bounds.spec_intersects_ray(self))
    }

    /// The segment has an end inside `bounds`, or its ends do not lie beyond
    /// one same side and it crosses an edge.
    #[verifier::when_used_as_spec(spec_overlaps_bounds)]
    pub fn overlaps_bounds(&self, bounds: &AABB) -> (r: bool)
        requires
            self.bounded(),
            bounds.bounded(),
        ensures
            r == self.spec_overlaps_bounds(bounds),
    {
        if bounds.contains_point(self.a) || bounds.contains_point(self.b) {
            return true;
        }
        if self.is_beyond_one_side(bounds) {
            return false;
        }
        bounds.intersects_ray(self)
    }

    pub open spec fn spec_overlaps_polygon(&self, polygon: &Polygon) -> bool {
        &&& !self.beyond_one_side(&polygon.spec_extents())
        &&& {
            ||| polygon.spec_intersects_ray(self)
            ||| polygon.spec_contains_point(self.a)
            ||| polygon.spec_contains_point(self.b)
        }
    }

    /// The ends do not lie beyond one same side of the polygon's extents,
    /// and the segment crosses an edge of the polygon or has an end inside
    /// it.
    #[verifier::when_used_as_spec(spec_overlaps_polygon)]
    pub fn overlaps_polygon(&self, polygon: &Polygon) -> (r: bool)
        requires
            self.bounded(),
            polygon.bounded(),
        ensures
            r == self.spec_overlaps_polygon(polygon),
    {
        let bounds = polygon.extents();
        if self.is_beyond_one_side(&bounds) {
            return false;
        }
        if polygon.intersects_ray(self) {
            return true;
        }
        polygon.contains_point(self.a) || polygon.contains_point(self.b)
    }

    /// Moves each end into `bounds`: an end left or right of the bounds goes
    /// along the line of the segment to the side it is beyond; after that an
    /// end below or above the bounds goes straight to the side it is beyond.
    pub open spec fn clipped_end(&self, bounds: &AABB, point: Vec2f) -> Vec2f {
        let slope = self.b.y.spec_minus(self.a.y).spec_over(self.b.x.spec_minus(self.a.x));
        let moved = if point.x.raw < bounds.min.x.raw {
            Vec2f {
                x: bounds.min.x,
                y: self.a.y.spec_plus(slope.spec_times(bounds.min.x.spec_minus(self.a.x))),
            }
        } else if point.x.raw > bounds.max.x.raw {
            Vec2f {
                x: bounds.max.x,
                y: self.a.y.spec_plus(slope.spec_times(bounds.max.x.spec_minus(self.a.x))),
            }
        } else {
            point
        };
        if moved.y.raw < bounds.min.y.raw {
            Vec2f { x: moved.x, y: bounds.min.y }
        } else if moved.y.raw > bounds.max.y.raw {
            Vec2f { x: moved.x, y: bounds.max.y }
        } else {
            moved
        }
    }

    pub open spec fn spec_clip_bounds(&self, bounds: &AABB) -> Segment {
        Segment { a: self.clipped_end(bounds, self.a), b: self.clipped_end(bounds, self.b) }
    }

    fn clip_end(&self, bounds: &AABB, point: Vec2f) -> (r: Vec2f)
        ensures
            r == self.clipped_end(bounds, point),
    {
        let slope = self.b.y.minus(self.a.y).over(self.b.x.minus(self.a.x));
        let moved = if point.x.raw < bounds.min.x.raw {
            Vec2f {
                x: bounds.min.x,
                y: self.a.y.plus(slope.times(bounds.min.x.minus(self.a.x))),
            }
        } else if point.x.raw > bounds.max.x.raw {
            Vec2f {
                x: bounds.max.x,
                y: self.a.y.plus(slope.times(bounds.max.x.minus(self.a.x))),
            }
        } else {
            point
        };
        if moved.y.raw < bounds.min.y.raw {
            Vec2f { x: moved.x, y: bounds.min.y }
        } else if moved.y.raw > bounds.max.y.raw {
            Vec2f { x: moved.x, y: bounds.max.y }
        } else {
            moved
        }
    }

    /// The segment with both ends moved into `bounds`.
    #[verifier::when_used_as_spec(spec_clip_bounds)]
    pub fn clip_bounds(&self, bounds: &AABB) -> (r: Segment)
        ensures
            r == self.spec_clip_bounds(bounds),
    {
        Segment::new(self.clip_end(bounds, self.a), self.clip_end(bounds, self.b))
    }

    /// Position of the foot of `point` on the line of the segment, as a
    /// numerator over the squared length.
    pub open spec fn foot_numerator(&self, point: Vec2f) -> int {
        edge_dot(self.a, point, self.a, self.b)
    }

    /// Squared length as an exact integer.
    pub open spec fn wide_length_sq(&self) -> int {
        edge_dot(self.a, self.b, self.a, self.b)
    }

    pub open spec fn spec_point_distance_sq(&self, point: Vec2f) -> Fixed {
        if in_unit(self.foot_numerator(point), self.wide_length_sq()) {
            let t = Fixed {
                raw: crate::fixed::raw_div(self.foot_numerator(point), self.wide_length_sq())
                    as i64,
            };
            let projection = self.a.spec_plus(self.b.spec_minus(self.a).spec_scaled(t));
            projection.spec_minus(point).spec_magnitude_sq()
        } else {
            point.spec_minus(self.a).spec_magnitude_sq().spec_min(
                point.spec_minus(self.b).spec_magnitude_sq(),
            )
        }
    }

    /// Squared distance from `point` to the nearest point of the segment.
    #[verifier::when_used_as_spec(spec_point_distance_sq)]
    pub fn point_distance_sq(&self, point: Vec2f) -> (r: Fixed)
        requires
            self.bounded(),
            point.bounded(),
            self.a != self.b,
        ensures
            r == self.spec_point_distance_sq(point),
    {
        let displacement_proj: i128 = exact_edge_dot(self.a, point, self.a, self.b);
        let ab_sq: i128 = exact_edge_dot(self.a, self.b, self.a, self.b);
        if ratio_in_unit(displacement_proj, ab_sq) {
            let t: Fixed = Fixed::wide_div(displacement_proj, ab_sq);
            let projection = self.a.plus(self.b.minus(self.a).scaled(t));
            projection.minus(point).magnitude_sq()
        } else {
            let dist_a = point.minus(self.a).magnitude_sq();
            let dist_b = point.minus(self.b).magnitude_sq();
            dist_a.min(dist_b)
        }
    }

    pub open spec fn spec_point_distance(&self, point: Vec2f) -> Fixed {
        self.spec_point_distance_sq(point).spec_sqrt()
    }

    /// Distance from `point` to the nearest point of the segment.
    #[verifier::when_used_as_spec(spec_point_distance)]
    pub fn point_distance(&self, point: Vec2f) -> (r: Fixed)
        requires
            self.bounded(),
            point.bounded(),
            self.a != self.b,
        ensures
            r == self.spec_point_distance(point),
    {
        self.point_distance_sq(point).sqrt()
    }

    pub open spec fn spec_length_sq(&self) -> Fixed {
        self.b.spec_minus(self.a).spec_magnitude_sq()
    }

    /// Squared length.
    #[verifier::when_used_as_spec(spec_length_sq)]
    pub fn length_sq(&self) -> (r: Fixed)
        ensures
            r == self.spec_length_sq(),
    {
        self.b.minus(self.a).magnitude_sq()
    }

    pub open spec fn spec_length(&self) -> Fixed {
        self.b.spec_minus(self.a).spec_magnitude()
    }

    /// Length.
    #[verifier::when_used_as_spec(spec_length)]
    pub fn length(&self) -> (r: Fixed)
        ensures
            r == self.spec_length(),
    {
        self.b.minus(self.a).magnitude()
    }

    pub open spec fn spec_direction(&self) -> Vec2f {
        self.b.spec_minus(self.a).spec_normalise()
    }

    /// Unit vector from `a` towards `b`.
    #[verifier::when_used_as_spec(spec_direction)]
    pub fn direction(&self) -> (r: Vec2f)
        ensures
            r == self.spec_direction(),
    {
        self.b.minus(self.a).normalise()
    }

    pub open spec fn spec_normal(&self) -> Vec2f {
        Vec2f { x: self.spec_direction().y.spec_neg(), y: self.spec_direction().x }
    }

    /// Unit vector a quarter turn counter-clockwise from the direction.
    #[verifier::when_used_as_spec(spec_normal)]
    pub fn normal(&self) -> (r: Vec2f)
        ensures
            r == self.spec_normal(),
    {
        let dir = self.direction();
        Vec2f::new(dir.y.neg(), dir.x)
    }

    pub open spec fn spec_contains_point(&self, point: Vec2f) -> bool {
        in_unit(self.foot_numerator(point), self.wide_length_sq())
    }

    /// The foot of `point` on the line of the segment lies between the
    /// ends.
    #[verifier::when_used_as_spec(spec_contains_point)]
    pub fn contains_point(&self, point: Vec2f) -> (r: bool)
        requires
            self.bounded(),
            point.bounded(),
        ensures
            r == self.spec_contains_point(point),
    {
        let n: i128 = exact_edge_dot(self.a, point, self.a, self.b);
        let d: i128 = exact_edge_dot(self.a, self.b, self.a, self.b);
        ratio_in_unit(n, d)
    }

    /// Same as [`Segment::intersects`].
    pub fn intersects_ray(&self, ray: &Segment) -> (r: bool)
        requires
            self.bounded(),
            ray.bounded(),
        ensures
            r == self.spec_intersects(ray),
    {
        self.intersects(ray)
    }

    pub open spec fn spec_extents(&self) -> AABB {
        AABB {
            min: Vec2f { x: self.a.x.spec_min(self.b.x), y: self.a.y.spec_min(self.b.y) },
            max: Vec2f { x: self.a.x.spec_max(self.b.x), y: self.a.y.spec_max(self.b.y) },
        }
    }

    /// The smallest box that holds both ends.
    #[verifier::when_used_as_spec(spec_extents)]
    pub fn extents(&self) -> (r: AABB)
        ensures
            r == self.spec_extents(),
    {
        AABB::new(
            Vec2f::new(self.a.x.min(self.b.x), self.a.y.min(self.b.y)),
            Vec2f::new(self.a.x.max(self.b.x), self.a.y.max(self.b.y)),
        )
    }

    /// A segment covers no area.
    pub fn area(&self) -> (r: Fixed)
        ensures
            r == Fixed::spec_zero(),
    {
        Fixed::zero()
    }

    pub open spec fn spec_centre(&self) -> Vec2f {
        self.a.spec_plus(self.b).spec_half()
    }

    /// The point midway between the ends.
    #[verifier::when_used_as_spec(spec_centre)]
    pub fn centre(&self) -> (r: Vec2f)
        ensures
            r == self.spec_centre(),
    {
        self.a.plus(self.b).half()
    }

    /// Moves the segment by `translation`.
    pub fn translate(&mut self, translation: Vec2f)
        ensures
            final(self).a == old(self).a.spec_plus(translation),
            final(self).b == old(self).b.spec_plus(translation),
    {
        self.a = self.a.plus(translation);
        self.b = self.b.plus(translation);
    }

    /// Multiplies both ends by `scale`, coordinate by coordinate.
    pub fn scale(&mut self, scale: Vec2f)
        ensures
            final(self).a == old(self).a.spec_times(scale),
            final(self).b == old(self).b.spec_times(scale),
    {
        self.a = self.a.times(scale);
        self.b = self.b.times(scale);
    }

    /// Turns both ends about the origin.
    pub fn rotate(&mut self, sin: Fixed, cos: Fixed)
        ensures
            final(self).a == old(self).a.spec_rotate(sin, cos),
            final(self).b == old(self).b.spec_rotate(sin, cos),
    {
        self.a = self.a.rotate(sin, cos);
        self.b = self.b.rotate(sin, cos);
    }

    /// The two ends.
    pub fn points(&self) -> (r: Vec<Vec2f>)
        ensures
            r@ == seq![self.a, self.b],
    {
        let mut r: Vec<Vec2f> = Vec::new();
        r.push(self.a);
        r.push(self.b);
        assert(r@ =~= seq![self.a, self.b]);
        r
    }
}

} // verus!
