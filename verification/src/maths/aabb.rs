//! Axis-aligned boxes.

use vstd::prelude::*;
use crate::fixed::Fixed;
use crate::maths::segment::Segment;
use crate::maths::vec::Vec2f;

verus! {

/// The box of the points `p` with `min <= p <= max` in both coordinates.
#[derive(Clone, Copy, Debug, PartialEq, Eq, Structural)]
pub struct AABB {
    pub min: Vec2f,
    pub max: Vec2f,
}

impl AABB {
    /// Both corners are within the coordinate limit.
    pub open spec fn bounded(self) -> bool {
        self.min.bounded() && self.max.bounded()
    }

    pub open spec fn spec_new(min: Vec2f, max: Vec2f) -> AABB {
        AABB { min, max }
    }

    #[verifier::when_used_as_spec(spec_new)]
    pub fn new(min: Vec2f, max: Vec2f) -> (r: AABB)
        ensures
            r == Self::spec_new(min, max),
    {
        AABB { min, max }
    }

    pub open spec fn spec_from_dimensions(centre: Vec2f, dimensions: Vec2f) -> AABB {
        AABB {
            min: centre.spec_minus(dimensions.spec_half()),
            max: centre.spec_plus(dimensions.spec_half()),
        }
    }

    /// The box around `centre` with the given width and height.
    #[verifier::when_used_as_spec(spec_from_dimensions)]
    pub fn from_dimensions(centre: Vec2f, dimensions: Vec2f) -> (r: AABB)
        ensures
            r == Self::spec_from_dimensions(centre, dimensions),
    {
        let half_dimensions = dimensions.half();
        Self::new(centre.minus(half_dimensions), centre.plus(half_dimensions))
    }

    pub open spec fn spec_intersects(&self, other: &AABB) -> bool {
        &&& self.min.x.raw <= other.max.x.raw
        &&& self.max.x.raw >= other.min.x.raw
        &&& self.min.y.raw <= other.max.y.raw
        &&& self.max.y.raw >= other.min.y.raw
    }

    /// The two boxes share a point.
    #[verifier::when_used_as_spec(spec_intersects)]
    pub fn intersects(&self, other: &AABB) -> (r: bool)
        ensures
            r == self.spec_intersects(other),
    {
        self.min.x.raw <= other.max.x.raw && self.max.x.raw >= other.min.x.raw && self.min.y.raw
            <= other.max.y.raw && self.max.y.raw >= other.min.y.raw
    }

    pub open spec fn spec_contains(&self, other: &AABB) -> bool {
        &&& self.min.x.raw <= other.min.x.raw
        &&& self.max.x.raw >= other.max.x.raw
        &&& self.min.y.raw <= other.min.y.raw
        &&& self.max.y.raw >= other.max.y.raw
    }

    /// `other` lies inside this box.
    #[verifier::when_used_as_spec(spec_contains)]
    pub fn contains(&self, other: &AABB) -> (r: bool)
        ensures
            r == self.spec_contains(other),
    {
        self.min.x.raw <= other.min.x.raw && self.max.x.raw >= other.max.x.raw && self.min.y.raw
            <= other.min.y.raw && self.max.y.raw >= other.max.y.raw
    }

    pub open spec fn spec_contains_point(&self, point: Vec2f) -> bool {
        &&& point.x.raw >= self.min.x.raw
        &&& point.x.raw <= self.max.x.raw
        &&& point.y.raw >= self.min.y.raw
        &&& point.y.raw <= self.max.y.raw
    }

    /// `point` lies inside this box or on its edge.
    #[verifier::when_used_as_spec(spec_contains_point)]
    pub fn contains_point(&self, point: Vec2f) -> (r: bool)
        ensures
            r == self.spec_contains_point(point),
    {
        point.x.raw >= self.min.x.raw && point.x.raw <= self.max.x.raw && point.y.raw
            >= self.min.y.raw && point.y.raw <= self.max.y.raw
    }

    /// The four edges in the order bottom, right, top, left.
    pub open spec fn edge(&self, i: int) -> Segment {
        if i == 0 {
            Segment {
                a: Vec2f { x: self.min.x, y: self.min.y },
                b: Vec2f { x: self.max.x, y: self.min.y },
            }
        } else if i == 1 {
            Segment {
                a: Vec2f { x: self.max.x, y: self.min.y },
                b: Vec2f { x: self.max.x, y: self.max.y },
            }
        } else if i == 2 {
            Segment {
                a: Vec2f { x: self.max.x, y: self.max.y },
                b: Vec2f { x: self.min.x, y: self.max.y },
            }
        } else {
            Segment {
                a: Vec2f { x: self.min.x, y: self.max.y },
                b: Vec2f { x: self.min.x, y: self.min.y },
            }
        }
    }

    pub open spec fn spec_intersects_ray(&self, ray: &Segment) -> bool {
        ||| ray.spec_intersects(&self.edge(0))
        ||| ray.spec_intersects(&self.edge(1))
        ||| ray.spec_intersects(&self.edge(2))
        ||| ray.spec_intersects(&self.edge(3))
    }

    /// `ray` crosses one of the four edges.
    #[verifier::when_used_as_spec(spec_intersects_ray)]
    pub fn intersects_ray(&self, ray: &Segment) -> (r: bool)
        requires
            self.bounded(),
            ray.bounded(),
        ensures
            r == self.spec_intersects_ray(ray),
    {
        let e1 = Segment::new(
            Vec2f::new(self.min.x, self.min.y),
            Vec2f::new(self.max.x, self.min.y),
        );
        if ray.intersects(&e1) {
            return true;
        }
        let e2 = Segment::new(
            Vec2f::new(self.max.x, self.min.y),
            Vec2f::new(self.max.x, self.max.y),
        );
        if ray.intersects(&e2) {
            return true;
        }
        let e3 = Segment::new(
            Vec2f::new(self.max.x, self.max.y),
            Vec2f::new(self.min.x, self.max.y),
        );
        if ray.intersects(&e3) {
            return true;
        }
        let e4 = Segment::new(
            Vec2f::new(self.min.x, self.max.y),
            Vec2f::new(self.min.x, self.min.y),
        );
        ray.intersects(&e4)
    }

    /// The box itself.
    pub fn extents(&self) -> (r: AABB)
        ensures
            r == *self,
    {
        *self
    }

    pub open spec fn spec_area(&self) -> Fixed {
        self.max.x.spec_minus(self.min.x).spec_times(self.max.y.spec_minus(self.min.y))
    }

    /// Width times height.
    #[verifier::when_used_as_spec(spec_area)]
    pub fn area(&self) -> (r: Fixed)
        ensures
            r == self.spec_area(),
    {
        self.max.x.minus(self.min.x).times(self.max.y.minus(self.min.y))
    }

    pub open spec fn spec_centre(&self) -> Vec2f {
        self.min.spec_plus(self.max).spec_half()
    }

    /// The point midway between the corners.
    #[verifier::when_used_as_spec(spec_centre)]
    pub fn centre(&self) -> (r: Vec2f)
        ensures
            r == self.spec_centre(),
    {
        self.min.plus(self.max).half()
    }

    /// Moves the box by `translation`.
    pub fn translate(&mut self, translation: Vec2f)
        ensures
            final(self).min == old(self).min.spec_plus(translation),
            final(self).max == old(self).max.spec_plus(translation),
    {
        self.min = self.min.plus(translation);
        self.max = self.max.plus(translation);
    }

    /// Multiplies both corners by `scale`, coordinate by coordinate.
    pub fn scale(&mut self, scale: Vec2f)
        ensures
            final(self).min == old(self).min.spec_times(scale),
            final(self).max == old(self).max.spec_times(scale),
    {
        self.min = self.min.times(scale);
        self.max = self.max.times(scale);
    }
}

} // verus!
