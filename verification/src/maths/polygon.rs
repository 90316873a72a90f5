//! Polygons given by their corners in order.

use vstd::prelude::*;
use crate::fixed::Fixed;
use crate::fixed::MAX_RAW;
use crate::fixed::MIN_RAW;
use crate::maths::aabb::AABB;
use crate::maths::segment::Segment;
use crate::maths::vec::Vec2f;
use crate::maths::vec::COORD_LIMIT_RAW;

verus! {

/// A closed chain of corners; each corner is joined to the next and the last
/// to the first.
#[derive(Debug)]
pub struct Polygon {
    pub vertices: Vec<Vec2f>,
}

/// The edge from corner `i` to the corner after it.
pub open spec fn edge_of(vertices: Seq<Vec2f>, i: int) -> Segment {
    Segment { a: vertices[i], b: vertices[(i + 1) % (vertices.len() as int)] }
}

/// How many of the first `n` edges `ray` crosses.
pub open spec fn crossings(vertices: Seq<Vec2f>, ray: Segment, n: int) -> int
    decreases n,
{
    if n <= 0 {
        0
    } else {
        crossings(vertices, ray, n - 1) + if edge_of(vertices, n - 1).spec_intersects(&ray) {
            1int
        } else {
            0int
        }
    }
}

/// The ray from `point` to the right, as far as coordinates reach.
pub open spec fn ray_right_of(point: Vec2f) -> Segment {
    Segment { a: point, b: Vec2f { x: Fixed { raw: COORD_LIMIT_RAW }, y: point.y } }
}

/// The smallest box around the first `n` corners. Around no corners it is
/// the box turned inside out that every corner widens.
pub open spec fn extents_upto(vertices: Seq<Vec2f>, n: int) -> AABB
    decreases n,
{
    if n <= 0 {
        AABB {
            min: Vec2f { x: Fixed { raw: MAX_RAW }, y: Fixed { raw: MAX_RAW } },
            max: Vec2f { x: Fixed { raw: MIN_RAW }, y: Fixed { raw: MIN_RAW } },
        }
    } else {
        let e = extents_upto(vertices, n - 1);
        let v = vertices[n - 1];
        AABB {
            min: Vec2f { x: e.min.x.spec_min(v.x), y: e.min.y.spec_min(v.y) },
            max: Vec2f { x: e.max.x.spec_max(v.x), y: e.max.y.spec_max(v.y) },
        }
    }
}

/// The sum of the first `n` corners.
pub open spec fn corner_sum(vertices: Seq<Vec2f>, n: int) -> Vec2f
    decreases n,
{
    if n <= 0 {
        Vec2f::spec_zero()
    } else {
        corner_sum(vertices, n - 1).spec_plus(vertices[n - 1])
    }
}

/// The sum over the first `n` edges of the cross product of the two ends.
pub open spec fn cross_sum(vertices: Seq<Vec2f>, n: int) -> Fixed
    decreases n,
{
    if n <= 0 {
        Fixed::spec_zero()
    } else {
        cross_sum(vertices, n - 1).spec_plus(
            edge_of(vertices, n - 1).a.spec_cross(edge_of(vertices, n - 1).b),
        )
    }
}

impl Polygon {
    /// Every corner is within the coordinate limit.
    pub open spec fn bounded(&self) -> bool {
        forall|i: int| 0 <= i < self.vertices@.len() ==> (#[trigger] self.vertices@[i]).bounded()
    }

    /// Tells whether every corner is within the coordinate limit.
    pub fn is_bounded(&self) -> (r: bool)
        ensures
            r == self.bounded(),
    {
        let mut i: usize = 0;
        while i < self.vertices.len()
            invariant
                i <= self.vertices@.len(),
                forall|k: int| 0 <= k < i ==> (#[trigger] self.vertices@[k]).bounded(),
            decreases self.vertices@.len() - i,
        {
            if !self.vertices[i].is_bounded() {
                return false;
            }
            i = i + 1;
        }
        true
    }

    /// A polygon without corners.
    pub fn new() -> (r: Polygon)
        ensures
            r.vertices@.len() == 0,
    {
        Polygon { vertices: Vec::new() }
    }

    /// The polygon with the given corners.
    pub fn from_vertices(vertices: Vec<Vec2f>) -> (r: Polygon)
        ensures
            r.vertices == vertices,
    {
        Polygon { vertices }
    }

    /// The four corners of the rectangle around `centre` with the given
    /// width and height, from the corner of least coordinates on,
    /// counter-clockwise.
    pub open spec fn rect_corners(centre: Vec2f, dimensions: Vec2f) -> Seq<Vec2f> {
        let h = dimensions.spec_half();
        seq![
            centre.spec_plus(Vec2f { x: h.x.spec_neg(), y: h.y.spec_neg() }),
            centre.spec_plus(Vec2f { x: h.x, y: h.y.spec_neg() }),
            centre.spec_plus(Vec2f { x: h.x, y: h.y }),
            centre.spec_plus(Vec2f { x: h.x.spec_neg(), y: h.y }),
        ]
    }

    /// The rectangle around `centre` with the given width and height.
    pub fn from_rect(centre: Vec2f, dimensions: Vec2f) -> (r: Polygon)
        ensures
            r.vertices@ == Self::rect_corners(centre, dimensions),
    {
        let half_dimensions = dimensions.half();
        let mut vertices: Vec<Vec2f> = Vec::new();
        vertices.push(centre.plus(Vec2f::new(half_dimensions.x.neg(), half_dimensions.y.neg())));
        vertices.push(centre.plus(Vec2f::new(half_dimensions.x, half_dimensions.y.neg())));
        vertices.push(centre.plus(Vec2f::new(half_dimensions.x, half_dimensions.y)));
        vertices.push(centre.plus(Vec2f::new(half_dimensions.x.neg(), half_dimensions.y)));
        assert(vertices@ =~= Self::rect_corners(centre, dimensions));
        Polygon { vertices }
    }

    fn edge(&self, i: usize) -> (e: Segment)
        requires
            i < self.vertices@.len(),
        ensures
            e == edge_of(self.vertices@, i as int),
    {
        let n: usize = self.vertices.len();
        let j: usize = if i + 1 == n {
            0
        } else {
            i + 1
        };
        proof {
            crate::maths::vec::lemma_next_index(i as int, n as int);
        }
        Segment::new(self.vertices[i], self.vertices[j])
    }

    pub open spec fn spec_contains_point(&self, point: Vec2f) -> bool {
        crossings(self.vertices@, ray_right_of(point), self.vertices@.len() as int) % 2 == 1
    }

    /// The ray from `point` to the right crosses an odd number of edges.
    #[verifier::when_used_as_spec(spec_contains_point)]
    pub fn contains_point(&self, point: Vec2f) -> (r: bool)
        requires
            self.bounded(),
            point.bounded(),
        ensures
            r == self.spec_contains_point(point),
    {
        let ray = Segment::new(point, Vec2f::new(Fixed::from_raw(COORD_LIMIT_RAW), point.y));
        let mut inside: bool = false;
        let mut i: usize = 0;
        while i < self.vertices.len()
            invariant
                i <= self.vertices@.len(),
                self.bounded(),
                ray.bounded(),
                ray == ray_right_of(point),
                crossings(self.vertices@, ray, i as int) >= 0,
                inside == (crossings(self.vertices@, ray, i as int) % 2 == 1),
            decreases self.vertices@.len() - i,
        {
            let edge = self.edge(i);
            proof {
                crate::maths::vec::lemma_next_index(i as int, self.vertices@.len() as int);
            }
            assert(self.vertices@[(i + 1) % (self.vertices@.len() as int)].bounded());
            if edge.intersects(&ray) {
                inside = !inside;
            }
            i = i + 1;
        }
        inside
    }

    pub open spec fn spec_intersects_ray(&self, ray: &Segment) -> bool {
        exists|i: int|
            0 <= i < self.vertices@.len() && (#[trigger] edge_of(self.vertices@, i)).spec_intersects(
                ray,
            )
    }

    /// `ray` crosses an edge.
    #[verifier::when_used_as_spec(spec_intersects_ray)]
    pub fn intersects_ray(&self, ray: &Segment) -> (r: bool)
        requires
            self.bounded(),
            ray.bounded(),
        ensures
            r == self.spec_intersects_ray(ray),
    {
        let mut i: usize = 0;
        while i < self.vertices.len()
            invariant
                i <= self.vertices@.len(),
                self.bounded(),
                ray.bounded(),
                forall|k: int|
                    0 <= k < i ==> !(#[trigger] edge_of(self.vertices@, k)).spec_intersects(ray),
            decreases self.vertices@.len() - i,
        {
            let edge = self.edge(i);
            proof {
                crate::maths::vec::lemma_next_index(i as int, self.vertices@.len() as int);
            }
            assert(self.vertices@[(i + 1) % (self.vertices@.len() as int)].bounded());
            if edge.intersects(ray) {
                return true;
            }
            i = i + 1;
        }
        false
    }

    pub open spec fn spec_extents(&self) -> AABB {
        extents_upto(self.vertices@, self.vertices@.len() as int)
    }

    /// The smallest box around all corners.
    #[verifier::when_used_as_spec(spec_extents)]
    pub fn extents(&self) -> (r: AABB)
        ensures
            r == self.spec_extents(),
    {
        let mut min_x = Fixed::from_raw(MAX_RAW);
        let mut min_y = Fixed::from_raw(MAX_RAW);
        let mut max_x = Fixed::from_raw(MIN_RAW);
        let mut max_y = Fixed::from_raw(MIN_RAW);
        let mut i: usize = 0;
        while i < self.vertices.len()
            invariant
                i <= self.vertices@.len(),
                extents_upto(self.vertices@, i as int) == (AABB {
                    min: Vec2f { x: min_x, y: min_y },
                    max: Vec2f { x: max_x, y: max_y },
                }),
            decreases self.vertices@.len() - i,
        {
            let vertex = self.vertices[i];
            min_x = min_x.min(vertex.x);
            min_y = min_y.min(vertex.y);
            max_x = max_x.max(vertex.x);
            max_y = max_y.max(vertex.y);
            i = i + 1;
        }
        AABB::new(Vec2f::new(min_x, min_y), Vec2f::new(max_x, max_y))
    }

    pub open spec fn spec_area(&self) -> Fixed {
        cross_sum(self.vertices@, self.vertices@.len() as int).spec_abs().spec_half()
    }

    /// Half the magnitude of the summed cross products of the ends of each
    /// edge.
    #[verifier::when_used_as_spec(spec_area)]
    pub fn area(&self) -> (r: Fixed)
        ensures
            r == self.spec_area(),
    {
        let mut area = Fixed::zero();
        let mut i: usize = 0;
        while i < self.vertices.len()
            invariant
                i <= self.vertices@.len(),
                area == cross_sum(self.vertices@, i as int),
            decreases self.vertices@.len() - i,
        {
            let edge = self.edge(i);
            area = area.plus(edge.a.cross(edge.b));
            i = i + 1;
        }
        area.abs().half()
    }

    pub open spec fn spec_centre(&self) -> Vec2f {
        corner_sum(self.vertices@, self.vertices@.len() as int).spec_divided(
            Fixed::spec_from_index(self.vertices@.len() as usize),
        )
    }

    /// The mean of the corners.
    #[verifier::when_used_as_spec(spec_centre)]
    pub fn centre(&self) -> (r: Vec2f)
        ensures
            r == self.spec_centre(),
    {
        let mut centre = Vec2f::zero();
        let mut i: usize = 0;
        while i < self.vertices.len()
            invariant
                i <= self.vertices@.len(),
                centre == corner_sum(self.vertices@, i as int),
            decreases self.vertices@.len() - i,
        {
            centre = centre.plus(self.vertices[i]);
            i = i + 1;
        }
        centre.divided(Fixed::from_index(self.vertices.len()))
    }

    /// Moves every corner by `translation`.
    pub fn translate(&mut self, translation: Vec2f)
        ensures
            final(self).vertices@.len() == old(self).vertices@.len(),
            forall|i: int|
                0 <= i < old(self).vertices@.len() ==> final(self).vertices@[i] == old(
                    self,
                ).vertices@[i].spec_plus(translation),
    {
        let mut i: usize = 0;
        while i < self.vertices.len()
            invariant
                i <= self.vertices@.len(),
                self.vertices@.len() == old(self).vertices@.len(),
                forall|k: int|
                    0 <= k < i ==> self.vertices@[k] == old(self).vertices@[k].spec_plus(
                        translation,
                    ),
                forall|k: int|
                    i <= k < self.vertices@.len() ==> self.vertices@[k] == old(self).vertices@[k],
            decreases self.vertices@.len() - i,
        {
            let moved = self.vertices[i].plus(translation);
            self.vertices[i] = moved;
            i = i + 1;
        }
    }

    /// Multiplies every corner by `scale`, coordinate by coordinate.
    pub fn scale(&mut self, scale: Vec2f)
        ensures
            final(self).vertices@.len() == old(self).vertices@.len(),
            forall|i: int|
                0 <= i < old(self).vertices@.len() ==> final(self).vertices@[i] == old(
                    self,
                ).vertices@[i].spec_times(scale),
    {
        let mut i: usize = 0;
        while i < self.vertices.len()
            invariant
                i <= self.vertices@.len(),
                self.vertices@.len() == old(self).vertices@.len(),
                forall|k: int|
                    0 <= k < i ==> self.vertices@[k] == old(self).vertices@[k].spec_times(scale),
                forall|k: int|
                    i <= k < self.vertices@.len() ==> self.vertices@[k] == old(self).vertices@[k],
            decreases self.vertices@.len() - i,
        {
            let moved = self.vertices[i].times(scale);
            self.vertices[i] = moved;
            i = i + 1;
        }
    }

    /// Turns every corner about the origin.
    pub fn rotate(&mut self, sin: Fixed, cos: Fixed)
        ensures
            final(self).vertices@.len() == old(self).vertices@.len(),
            forall|i: int|
                0 <= i < old(self).vertices@.len() ==> final(self).vertices@[i] == old(
                    self,
                ).vertices@[i].spec_rotate(sin, cos),
    {
        let mut i: usize = 0;
        while i < self.vertices.len()
            invariant
                i <= self.vertices@.len(),
                self.vertices@.len() == old(self).vertices@.len(),
                forall|k: int|
                    0 <= k < i ==> self.vertices@[k] == old(self).vertices@[k].spec_rotate(
                        sin,
                        cos,
                    ),
                forall|k: int|
                    i <= k < self.vertices@.len() ==> self.vertices@[k] == old(self).vertices@[k],
            decreases self.vertices@.len() - i,
        {
            let moved = self.vertices[i].rotate(sin, cos);
            self.vertices[i] = moved;
            i = i + 1;
        }
    }

    /// The corners in order.
    pub fn points(&self) -> (r: &[Vec2f])
        ensures
            r@ == self.vertices@,
    {
        self.vertices.as_slice()
    }
}

} // verus!
