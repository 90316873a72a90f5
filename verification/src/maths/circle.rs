//! Circles.

use vstd::prelude::*;
use crate::fixed::Fixed;
use crate::maths::aabb::AABB;
use crate::maths::segment::Segment;
use crate::maths::vec::Vec2f;

verus! {

/// Raw value of the ratio of a circle's circumference to its diameter.
pub const PI_RAW: i64 = 52707179;

/// The circle of the points within `radius` of `centre`.
#[derive(Clone, Copy, Debug, PartialEq, Eq, Structural)]
pub struct Circle {
    pub centre: Vec2f,
    pub radius: Fixed,
}

impl Circle {
    pub open spec fn spec_new(centre: Vec2f, radius: Fixed) -> Circle {
        Circle { centre, radius }
    }

    #[verifier::when_used_as_spec(spec_new)]
    pub fn new(centre: Vec2f, radius: Fixed) -> (r: Circle)
        ensures
            r == Self::spec_new(centre, radius),
    {
        Circle { centre, radius }
    }

    pub open spec fn spec_intersects(&self, other: &Circle) -> bool {
        self.centre.spec_minus(other.centre).spec_magnitude_sq().raw <= self.radius.spec_plus(
            other.radius,
        ).spec_times(self.radius.spec_plus(other.radius)).raw
    }

    /// The centres are no further apart than the sum of the radii.
    #[verifier::when_used_as_spec(spec_intersects)]
    pub fn intersects(&self, other: &Circle) -> (r: bool)
        ensures
            r == self.spec_intersects(other),
    {
        let reach = self.radius.plus(other.radius);
        self.centre.minus(other.centre).magnitude_sq().raw <= reach.times(reach).raw
    }

    pub open spec fn spec_contains(&self, other: &Circle) -> bool {
        self.radius.spec_times(self.radius).raw >= self.centre.spec_minus(
            other.centre,
        ).spec_magnitude_sq().spec_plus(other.radius.spec_times(other.radius)).raw
    }

    /// The squared radius is at least the squared distance of the centres
    /// plus the squared radius of `other`.
    #[verifier::when_used_as_spec(spec_contains)]
    pub fn contains(&self, other: &Circle) -> (r: bool)
        ensures
            r == self.spec_contains(other),
    {
        self.radius.times(self.radius).raw >= self.centre.minus(other.centre).magnitude_sq().plus(
            other.radius.times(other.radius),
        ).raw
    }

    pub open spec fn spec_contains_point(&self, point: Vec2f) -> bool {
        point.spec_minus(self.centre).spec_magnitude_sq().raw <= self.radius.spec_times(
            self.radius,
        ).raw
    }

    /// `point` is no further from the centre than the radius.
    #[verifier::when_used_as_spec(spec_contains_point)]
    pub fn contains_point(&self, point: Vec2f) -> (r: bool)
        ensures
            r == self.spec_contains_point(point),
    {
        point.minus(self.centre).magnitude_sq().raw <= self.radius.times(self.radius).raw
    }

    pub open spec fn spec_intersects_ray(&self, ray: &Segment) -> bool {
        ray.spec_point_distance_sq(self.centre).raw <= self.radius.spec_times(self.radius).raw
    }

    /// The centre is no further from `ray` than the radius.
    #[verifier::when_used_as_spec(spec_intersects_ray)]
    pub fn intersects_ray(&self, ray: &Segment) -> (r: bool)
        requires
            ray.bounded(),
            self.centre.bounded(),
            ray.a != ray.b,
        ensures
            r == self.spec_intersects_ray(ray),
    {
        let dist = ray.point_distance_sq(self.centre);
        dist.raw <= self.radius.times(self.radius).raw
    }

    pub open spec fn spec_extents(&self) -> AABB {
        AABB {
            min: self.centre.spec_minus(Vec2f::spec_uniform(self.radius)),
            max: self.centre.spec_plus(Vec2f::spec_uniform(self.radius)),
        }
    }

    /// The smallest box around the circle.
    #[verifier::when_used_as_spec(spec_extents)]
    pub fn extents(&self) -> (r: AABB)
        ensures
            r == self.spec_extents(),
    {
        AABB::new(
            self.centre.minus(Vec2f::uniform(self.radius)),
            self.centre.plus(Vec2f::uniform(self.radius)),
        )
    }

    pub open spec fn spec_area(&self) -> Fixed {
        Fixed { raw: PI_RAW }.spec_times(self.radius).spec_times(self.radius)
    }

    /// The area of the disc.
    #[verifier::when_used_as_spec(spec_area)]
    pub fn area(&self) -> (r: Fixed)
        ensures
            r == self.spec_area(),
    {
        Fixed::from_raw(PI_RAW).times(self.radius).times(self.radius)
    }

    /// The centre.
    pub fn centre(&self) -> (r: Vec2f)
        ensures
            r == self.centre,
    {
        self.centre
    }

    /// Moves the circle by `translation`.
    pub fn translate(&mut self, translation: Vec2f)
        ensures
            final(self).centre == old(self).centre.spec_plus(translation),
            final(self).radius == old(self).radius,
    {
        self.centre = self.centre.plus(translation);
    }

    /// Multiplies the centre by `scale`, coordinate by coordinate, and the
    /// radius by the larger coordinate of `scale`.
    pub fn scale(&mut self, scale: Vec2f)
        ensures
            final(self).centre == old(self).centre.spec_times(scale),
            final(self).radius == old(self).radius.spec_times(scale.x.spec_max(scale.y)),
    {
        self.centre = self.centre.times(scale);
        self.radius = self.radius.times(scale.x.max(scale.y));
    }

    /// Turns the centre about the origin.
    pub fn rotate(&mut self, sin: Fixed, cos: Fixed)
        ensures
            final(self).centre == old(self).centre.spec_rotate(sin, cos),
            final(self).radius == old(self).radius,
    {
        self.centre = self.centre.rotate(sin, cos);
    }
}

} // verus!
