//! Any one of the shapes, with what all shapes can do.

use vstd::prelude::*;
use crate::fixed::Fixed;
use crate::maths::aabb::AABB;
use crate::maths::circle::Circle;
use crate::maths::polygon::Polygon;
use crate::maths::sat::all_bounded;
use crate::maths::sat::has_separating_edge;
use crate::maths::sat::separating_axis_test;
use crate::maths::segment::Segment;
use crate::maths::triangle::Triangle;
use crate::maths::vec::Vec2f;

verus! {

/// A box, a circle, a polygon, a segment or a triangle.
#[derive(Debug)]
pub enum Shape {
    AABB(AABB),
    Circle(Circle),
    Polygon(Polygon),
    Segment(Segment),
    Triangle(Triangle),
}

impl Shape {
    /// Every point that gives the shape is within the coordinate limit.
    pub open spec fn bounded(&self) -> bool {
        match self {
            Shape::AABB(aabb) => aabb.bounded(),
            Shape::Circle(circle) => circle.centre.bounded(),
            Shape::Polygon(polygon) => polygon.bounded(),
            Shape::Segment(segment) => segment.bounded(),
            Shape::Triangle(triangle) => triangle.bounded(),
        }
    }

    /// The shape is given by corners: it is no box and no circle.
    pub open spec fn cornered(&self) -> bool {
        !(self is AABB) && !(self is Circle)
    }

    pub open spec fn spec_contains_point(&self, point: Vec2f) -> bool {
        match self {
            Shape::AABB(aabb) => aabb.spec_contains_point(point),
            Shape::Circle(circle) => circle.spec_contains_point(point),
            Shape::Polygon(polygon) => polygon.spec_contains_point(point),
            Shape::Segment(segment) => segment.spec_contains_point(point),
            Shape::Triangle(triangle) => triangle.spec_contains_point(point),
        }
    }

    /// Whether the shape holds `point`.
    pub fn contains_point(&self, point: Vec2f) -> (r: bool)
        requires
            self.bounded(),
            point.bounded(),
        ensures
            r == self.spec_contains_point(point),
    {
        match self {
            Shape::AABB(aabb) => aabb.contains_point(point),
            Shape::Circle(circle) => circle.contains_point(point),
            Shape::Polygon(polygon) => polygon.contains_point(point),
            Shape::Segment(segment) => segment.contains_point(point),
            Shape::Triangle(triangle) => triangle.contains_point(point),
        }
    }

    pub open spec fn spec_intersects_ray(&self, ray: &Segment) -> bool {
        match self {
            Shape::AABB(aabb) => aabb.spec_intersects_ray(ray),
            Shape::Circle(circle) => circle.spec_intersects_ray(ray),
            Shape::Polygon(polygon) => polygon.spec_intersects_ray(ray),
            Shape::Segment(segment) => segment.spec_intersects(ray),
            Shape::Triangle(triangle) => triangle.spec_intersects_ray(ray),
        }
    }

    /// Whether `ray` meets the shape: an edge of a shape with edges, the
    /// disc of a circle.
    pub fn intersects_ray(&self, ray: &Segment) -> (r: bool)
        requires
            self.bounded(),
            ray.bounded(),
            ray.a != ray.b,
        ensures
            r == self.spec_intersects_ray(ray),
    {
        match self {
            Shape::AABB(aabb) => aabb.intersects_ray(ray),
            Shape::Circle(circle) => circle.intersects_ray(ray),
            Shape::Polygon(polygon) => polygon.intersects_ray(ray),
            Shape::Segment(segment) => segment.intersects_ray(ray),
            Shape::Triangle(triangle) => triangle.intersects_ray(ray),
        }
    }

    pub open spec fn spec_extents(&self) -> AABB {
        match self {
            Shape::AABB(aabb) => *aabb,
            Shape::Circle(circle) => circle.spec_extents(),
            Shape::Polygon(polygon) => polygon.spec_extents(),
            Shape::Segment(segment) => segment.spec_extents(),
            Shape::Triangle(triangle) => triangle.spec_extents(),
        }
    }

    /// The smallest box around the shape.
    pub fn extents(&self) -> (r: AABB)
        ensures
            r == self.spec_extents(),
    {
        match self {
            Shape::AABB(aabb) => aabb.extents(),
            Shape::Circle(circle) => circle.extents(),
            Shape::Polygon(polygon) => polygon.extents(),
            Shape::Segment(segment) => segment.extents(),
            Shape::Triangle(triangle) => triangle.extents(),
        }
    }

    pub open spec fn spec_area(&self) -> Fixed {
        match self {
            Shape::AABB(aabb) => aabb.spec_area(),
            Shape::Circle(circle) => circle.spec_area(),
            Shape::Polygon(polygon) => polygon.spec_area(),
            Shape::Segment(segment) => Fixed::spec_zero(),
            Shape::Triangle(triangle) => triangle.spec_area(),
        }
    }

    /// The area of the shape.
    pub fn area(&self) -> (r: Fixed)
        ensures
            r == self.spec_area(),
    {
        match self {
            Shape::AABB(aabb) => aabb.area(),
            Shape::Circle(circle) => circle.area(),
            Shape::Polygon(polygon) => polygon.area(),
            Shape::Segment(segment) => segment.area(),
            Shape::Triangle(triangle) => triangle.area(),
        }
    }

    pub open spec fn spec_centre(&self) -> Vec2f {
        match self {
            Shape::AABB(aabb) => aabb.spec_centre(),
            Shape::Circle(circle) => circle.centre,
            Shape::Polygon(polygon) => polygon.spec_centre(),
            Shape::Segment(segment) => segment.spec_centre(),
            Shape::Triangle(triangle) => triangle.spec_centre(),
        }
    }

    /// The middle of the shape.
    pub fn centre(&self) -> (r: Vec2f)
        ensures
            r == self.spec_centre(),
    {
        match self {
            Shape::AABB(aabb) => aabb.centre(),
            Shape::Circle(circle) => circle.centre(),
            Shape::Polygon(polygon) => polygon.centre(),
            Shape::Segment(segment) => segment.centre(),
            Shape::Triangle(triangle) => triangle.centre(),
        }
    }

    /// The corners of a shape that is given by corners.
    pub open spec fn spec_points(&self) -> Seq<Vec2f> {
        match self {
            Shape::Polygon(polygon) => polygon.vertices@,
            Shape::Segment(segment) => seq![segment.a, segment.b],
            Shape::Triangle(triangle) => seq![triangle.a, triangle.b, triangle.c],
            _ => Seq::empty(),
        }
    }

    /// The corners of a polygon, a segment or a triangle.
    pub fn points(&self) -> (r: Vec<Vec2f>)
        requires
            self.cornered(),
        ensures
            r@ == self.spec_points(),
    {
        match self {
            Shape::Polygon(polygon) => {
                let mut r: Vec<Vec2f> = Vec::new();
                let mut i: usize = 0;
                while i < polygon.vertices.len()
                    invariant
                        i <= polygon.vertices@.len(),
                        r@ == polygon.vertices@.subrange(0, i as int),
                    decreases polygon.vertices@.len() - i,
                {
                    r.push(polygon.vertices[i]);
                    assert(r@ =~= polygon.vertices@.subrange(0, i + 1));
                    i = i + 1;
                }
                assert(r@ =~= polygon.vertices@);
                r
            },
            Shape::Segment(segment) => segment.points(),
            Shape::Triangle(triangle) => triangle.points(),
            _ => Vec::new(),
        }
    }

    /// Whether two shapes given by corners overlap: no normal of an edge of
    /// either parts them.
    pub fn overlaps(&self, other: &Shape) -> (r: bool)
        requires
            self.cornered(),
            other.cornered(),
            self.bounded(),
            other.bounded(),
        ensures
            r == (!has_separating_edge(self.spec_points(), other.spec_points())
                && !has_separating_edge(other.spec_points(), self.spec_points())),
    {
        let a = self.points();
        let b = other.points();
        separating_axis_test(a.as_slice(), b.as_slice())
    }

    /// What moving by `translation` makes of the points of the shape.
    pub open spec fn moved(&self, after: &Shape, translation: Vec2f) -> bool {
        match (self, after) {
            (Shape::AABB(a), Shape::AABB(b)) => b.min == a.min.spec_plus(translation) && b.max
                == a.max.spec_plus(translation),
            (Shape::Circle(a), Shape::Circle(b)) => b.centre == a.centre.spec_plus(translation)
                && b.radius == a.radius,
            (Shape::Polygon(a), Shape::Polygon(b)) => b.vertices@.len() == a.vertices@.len()
                && forall|i: int|
                0 <= i < a.vertices@.len() ==> b.vertices@[i] == a.vertices@[i].spec_plus(
                    translation,
                ),
            (Shape::Segment(a), Shape::Segment(b)) => b.a == a.a.spec_plus(translation) && b.b
                == a.b.spec_plus(translation),
            (Shape::Triangle(a), Shape::Triangle(b)) => b.a == a.a.spec_plus(translation) && b.b
                == a.b.spec_plus(translation) && b.c == a.c.spec_plus(translation),
            _ => false,
        }
    }

    /// Moves the shape by `translation`.
    pub fn translate(&mut self, translation: Vec2f)
        ensures
            old(self).moved(final(self), translation),
    {
        match self {
            Shape::AABB(aabb) => aabb.translate(translation),
            Shape::Circle(circle) => circle.translate(translation),
            Shape::Polygon(polygon) => polygon.translate(translation),
            Shape::Segment(segment) => segment.translate(translation),
            Shape::Triangle(triangle) => triangle.translate(translation),
        }
    }

    /// What scaling by `scale` makes of the points of the shape.
    pub open spec fn scaled(&self, after: &Shape, scale: Vec2f) -> bool {
        match (self, after) {
            (Shape::AABB(a), Shape::AABB(b)) => b.min == a.min.spec_times(scale) && b.max
                == a.max.spec_times(scale),
            (Shape::Circle(a), Shape::Circle(b)) => b.centre == a.centre.spec_times(scale)
                && b.radius == a.radius.spec_times(scale.x.spec_max(scale.y)),
            (Shape::Polygon(a), Shape::Polygon(b)) => b.vertices@.len() == a.vertices@.len()
                && forall|i: int|
                0 <= i < a.vertices@.len() ==> b.vertices@[i] == a.vertices@[i].spec_times(scale),
            (Shape::Segment(a), Shape::Segment(b)) => b.a == a.a.spec_times(scale) && b.b
                == a.b.spec_times(scale),
            (Shape::Triangle(a), Shape::Triangle(b)) => b.a == a.a.spec_times(scale) && b.b
                == a.b.spec_times(scale) && b.c == a.c.spec_times(scale),
            _ => false,
        }
    }

    /// Multiplies the points of the shape by `scale`, coordinate by
    /// coordinate.
    pub fn scale(&mut self, scale: Vec2f)
        ensures
            old(self).scaled(final(self), scale),
    {
        match self {
            Shape::AABB(aabb) => aabb.scale(scale),
            Shape::Circle(circle) => circle.scale(scale),
            Shape::Polygon(polygon) => polygon.scale(scale),
            Shape::Segment(segment) => segment.scale(scale),
            Shape::Triangle(triangle) => triangle.scale(scale),
        }
    }

    /// What turning about the origin makes of the points of the shape.
    pub open spec fn turned(&self, after: &Shape, sin: Fixed, cos: Fixed) -> bool {
        match (self, after) {
            (Shape::Circle(a), Shape::Circle(b)) => b.centre == a.centre.spec_rotate(sin, cos)
                && b.radius == a.radius,
            (Shape::Polygon(a), Shape::Polygon(b)) => b.vertices@.len() == a.vertices@.len()
                && forall|i: int|
                0 <= i < a.vertices@.len() ==> b.vertices@[i] == a.vertices@[i].spec_rotate(
                    sin,
                    cos,
                ),
            (Shape::Segment(a), Shape::Segment(b)) => b.a == a.a.spec_rotate(sin, cos) && b.b
                == a.b.spec_rotate(sin, cos),
            (Shape::Triangle(a), Shape::Triangle(b)) => b.a == a.a.spec_rotate(sin, cos) && b.b
                == a.b.spec_rotate(sin, cos) && b.c == a.c.spec_rotate(sin, cos),
            _ => false,
        }
    }

    /// Turns the shape about the origin by the angle with the given sine
    /// and cosine. A box, whose sides lie along the axes, cannot be
    /// turned.
    pub fn rotate(&mut self, sin: Fixed, cos: Fixed)
        requires
            !(*old(self) is AABB),
        ensures
            old(self).turned(final(self), sin, cos),
    {
        match self {
            Shape::AABB(aabb) => {},
            Shape::Circle(circle) => circle.rotate(sin, cos),
            Shape::Polygon(polygon) => polygon.rotate(sin, cos),
            Shape::Segment(segment) => segment.rotate(sin, cos),
            Shape::Triangle(triangle) => triangle.rotate(sin, cos),
        }
    }
}

} // verus!
