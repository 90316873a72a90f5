//! Colliders and what becomes of them when they meet.

use vstd::prelude::*;
use crate::fixed::Fixed;
use crate::fixed::MAX_RAW;
use crate::fixed::MIN_RAW;
use crate::maths::aabb::AABB;
use crate::maths::circle::Circle;
use crate::maths::segment::Segment;
use crate::maths::vec::lemma_next_index;
use crate::maths::vec::Vec2f;

verus! {

/// How two shapes overlap: the direction in which to part them and how far.
#[derive(Clone, Copy, Debug, PartialEq, Eq, Structural)]
pub struct Collision {
    pub normal: Vec2f,
    pub depth: Fixed,
}

impl Collision {
    pub open spec fn spec_new(normal: Vec2f, depth: Fixed) -> Collision {
        Collision { normal, depth }
    }

    #[verifier::when_used_as_spec(spec_new)]
    pub fn new(normal: Vec2f, depth: Fixed) -> (r: Collision)
        ensures
            r == Self::spec_new(normal, depth),
    {
        Collision { normal, depth }
    }

    pub fn normal(&self) -> (r: Vec2f)
        ensures
            r == self.normal,
    {
        self.normal
    }

    pub fn depth(&self) -> (r: Fixed)
        ensures
            r == self.depth,
    {
        self.depth
    }
}

/// The least and the greatest dot product of the first `n` points with
/// `axis`; with no points, the greatest and the least value there is.
pub open spec fn projected(points: Seq<Vec2f>, axis: Vec2f, n: int) -> (Fixed, Fixed)
    decreases n,
{
    if n <= 0 {
        (Fixed { raw: MAX_RAW }, Fixed { raw: MIN_RAW })
    } else {
        let prev = projected(points, axis, n - 1);
        let q = points[n - 1].spec_dot(axis);
        (prev.0.spec_min(q), prev.1.spec_max(q))
    }
}

fn project_onto(points: &[Vec2f], axis: Vec2f) -> (r: (Fixed, Fixed))
    ensures
        r == projected(points@, axis, points@.len() as int),
{
    let mut low = Fixed::from_raw(MAX_RAW);
    let mut high = Fixed::from_raw(MIN_RAW);
    let mut i: usize = 0;
    while i < points.len()
        invariant
            i <= points@.len(),
            (low, high) == projected(points@, axis, i as int),
        decreases points@.len() - i,
    {
        let q = points[i].dot(axis);
        low = low.min(q);
        high = high.max(q);
        i = i + 1;
    }
    (low, high)
}

/// What is known after some axes have been tried: whether one of them
/// parts the shapes, and the least overlap found with its axis.
#[derive(Clone, Copy, Debug, PartialEq, Eq, Structural)]
pub struct AxisScan {
    pub parted: bool,
    pub min_depth: Fixed,
    pub normal: Vec2f,
}

/// The scan after the normal of edge `i` of `edges` has been tried.
pub open spec fn axis_tried(scan: AxisScan, edges: Seq<Vec2f>, others: Seq<Vec2f>, i: int)
    -> AxisScan {
    let axis = edges[(i + 1) % (edges.len() as int)].spec_minus(edges[i]).spec_perpendicular();
    let a = projected(edges, axis, edges.len() as int);
    let b = projected(others, axis, others.len() as int);
    if scan.parted || a.1.raw < b.0.raw || a.0.raw > b.1.raw {
        AxisScan { parted: true, ..scan }
    } else {
        let depth = a.1.spec_minus(b.0).spec_min(b.1.spec_minus(a.0));
        if depth.raw < scan.min_depth.raw {
            AxisScan { parted: false, min_depth: depth, normal: axis }
        } else {
            scan
        }
    }
}

/// The scan after the normals of the first `n` edges of `edges` have been
/// tried.
pub open spec fn axes_tried(scan: AxisScan, edges: Seq<Vec2f>, others: Seq<Vec2f>, n: int)
    -> AxisScan
    decreases n,
{
    if n <= 0 {
        scan
    } else {
        axis_tried(axes_tried(scan, edges, others, n - 1), edges, others, n - 1)
    }
}

fn try_axes(scan: AxisScan, edges: &[Vec2f], others: &[Vec2f]) -> (r: AxisScan)
    ensures
        r == axes_tried(scan, edges@, others@, edges@.len() as int),
{
    let mut scan = scan;
    let ghost start = scan;
    let n: usize = edges.len();
    let mut i: usize = 0;
    while i < n
        invariant
            i <= n,
            n == edges@.len(),
            scan == axes_tried(start, edges@, others@, i as int),
        decreases n - i,
    {
        let j: usize = if i + 1 == n {
            0
        } else {
            i + 1
        };
        proof {
            lemma_next_index(i as int, n as int);
        }
        let axis = edges[j].minus(edges[i]).perpendicular();
        let a = project_onto(edges, axis);
        let b = project_onto(others, axis);
        if scan.parted || a.1.raw < b.0.raw || a.0.raw > b.1.raw {
            scan = AxisScan { parted: true, ..scan };
        } else {
            let depth = a.1.minus(b.0).min(b.1.minus(a.0));
            if depth.raw < scan.min_depth.raw {
                scan = AxisScan { parted: false, min_depth: depth, normal: axis };
            }
        }
        i = i + 1;
    }
    scan
}

pub open spec fn spec_sat_collision_polygons(points_a: Seq<Vec2f>, points_b: Seq<Vec2f>)
    -> Option<Collision> {
    let first = axes_tried(
        AxisScan { parted: false, min_depth: Fixed { raw: MAX_RAW }, normal: Vec2f::spec_zero() },
        points_a,
        points_b,
        points_a.len() as int,
    );
    let second = axes_tried(first, points_b, points_a, points_b.len() as int);
    if second.parted {
        None
    } else {
        Some(Collision { normal: second.normal.spec_normalise(), depth: second.min_depth })
    }
}

/// How two convex polygons overlap: along the normal of every edge of
/// either, the spans of the two are compared. If some normal parts them
/// they do not meet; else they overlap least along the first normal of
/// least overlap, by that much.
pub fn sat_collision_polygons(points_a: &[Vec2f], points_b: &[Vec2f]) -> (r: Option<Collision>)
    ensures
        r == spec_sat_collision_polygons(points_a@, points_b@),
{
    let start = AxisScan {
        parted: false,
        min_depth: Fixed::from_raw(MAX_RAW),
        normal: Vec2f::zero(),
    };
    let first = try_axes(start, points_a, points_b);
    let second = try_axes(first, points_b, points_a);
    if second.parted {
        None
    } else {
        Some(Collision::new(second.normal.normalise(), second.min_depth))
    }
}

/// The point among the first `n` that is nearest to `centre`, with its
/// squared distance; with no points, the origin at the greatest distance
/// there is.
pub open spec fn nearest_point(points: Seq<Vec2f>, centre: Vec2f, n: int) -> (Vec2f, Fixed)
    decreases n,
{
    if n <= 0 {
        (Vec2f::spec_zero(), Fixed { raw: MAX_RAW })
    } else {
        let prev = nearest_point(points, centre, n - 1);
        let distance = centre.spec_minus(points[n - 1]).spec_magnitude_sq();
        if distance.raw < prev.1.raw {
            (points[n - 1], distance)
        } else {
            prev
        }
    }
}

pub open spec fn spec_sat_collision_circle_polygon(circle: &Circle, points: Seq<Vec2f>) -> Option<
    Collision,
> {
    let normal = circle.centre.spec_minus(
        nearest_point(points, circle.centre, points.len() as int).0,
    );
    let polygon = projected(points, normal, points.len() as int);
    let min_circle = circle.centre.spec_dot(normal).spec_minus(circle.radius);
    let max_circle = circle.centre.spec_dot(normal).spec_plus(circle.radius);
    if polygon.1.raw < min_circle.raw || polygon.0.raw > max_circle.raw {
        None
    } else {
        Some(
            Collision {
                normal: normal.spec_normalise(),
                depth: polygon.1.spec_minus(min_circle).spec_min(
                    max_circle.spec_minus(polygon.0),
                ),
            },
        )
    }
}

/// How a circle and a convex polygon overlap along the direction from the
/// nearest corner of the polygon to the centre of the circle.
pub fn sat_collision_circle_polygon(circle: &Circle, points: &[Vec2f]) -> (r: Option<Collision>)
    ensures
        r == spec_sat_collision_circle_polygon(circle, points@),
{
    let mut closest_point = Vec2f::zero();
    let mut closest_distance = Fixed::from_raw(MAX_RAW);
    let mut i: usize = 0;
    while i < points.len()
        invariant
            i <= points@.len(),
            (closest_point, closest_distance) == nearest_point(points@, circle.centre, i as int),
        decreases points@.len() - i,
    {
        let distance = circle.centre.minus(points[i]).magnitude_sq();
        if distance.raw < closest_distance.raw {
            closest_distance = distance;
            closest_point = points[i];
        }
        i = i + 1;
    }
    let normal = circle.centre.minus(closest_point);
    let polygon = project_onto(points, normal);
    let min_circle = circle.centre.dot(normal).minus(circle.radius);
    let max_circle = circle.centre.dot(normal).plus(circle.radius);
    if polygon.1.raw < min_circle.raw || polygon.0.raw > max_circle.raw {
        return None;
    }
    let depth = polygon.1.minus(min_circle).min(max_circle.minus(polygon.0));
    Some(Collision::new(normal.normalise(), depth))
}

pub open spec fn spec_collision_circles(circle_a: &Circle, circle_b: &Circle) -> Option<Collision> {
    let displacement = circle_a.centre.spec_minus(circle_b.centre);
    let radius_sum = circle_a.radius.spec_plus(circle_b.radius);
    if displacement.spec_magnitude_sq().raw > radius_sum.spec_times(radius_sum).raw {
        None
    } else {
        let distance = displacement.spec_magnitude();
        Some(
            Collision {
                normal: if distance.raw == 0 {
                    Vec2f { x: Fixed::spec_one(), y: Fixed::spec_zero() }
                } else {
                    displacement.spec_divided(distance)
                },
                depth: radius_sum.spec_minus(distance),
            },
        )
    }
}

/// How two circles overlap: along the line of their centres, by as much as
/// the sum of the radii is more than the distance of the centres.
#[verifier::when_used_as_spec(spec_collision_circles)]
pub fn collision_circles(circle_a: &Circle, circle_b: &Circle) -> (r: Option<Collision>)
    ensures
        r == spec_collision_circles(circle_a, circle_b),
{
    let displacement = circle_a.centre.minus(circle_b.centre);
    let distance_sq = displacement.magnitude_sq();
    let radius_sum = circle_a.radius.plus(circle_b.radius);
    if distance_sq.raw > radius_sum.times(radius_sum).raw {
        return None;
    }
    let distance = displacement.magnitude();
    let depth = radius_sum.minus(distance);
    let normal = if distance.raw == 0 {
        Vec2f::new(Fixed::one(), Fixed::zero())
    } else {
        displacement.divided(distance)
    };
    Some(Collision::new(normal, depth))
}

pub open spec fn spec_collision_circle_segment(circle: &Circle, segment: &Segment) -> Option<
    Collision,
> {
    let distance_sq = segment.spec_point_distance_sq(circle.centre);
    if distance_sq.raw > circle.radius.spec_times(circle.radius).raw {
        None
    } else {
        Some(
            Collision {
                normal: segment.spec_normal(),
                depth: circle.radius.spec_minus(distance_sq.spec_sqrt()),
            },
        )
    }
}

/// How a circle and a segment overlap: along the normal of the segment, by
/// as much as the radius is more than the distance of the centre from the
/// segment.
#[verifier::when_used_as_spec(spec_collision_circle_segment)]
pub fn collision_circle_segment(circle: &Circle, segment: &Segment) -> (r: Option<Collision>)
    requires
        segment.bounded(),
        circle.centre.bounded(),
        segment.a != segment.b,
    ensures
        r == spec_collision_circle_segment(circle, segment),
{
    let distance_sq = segment.point_distance_sq(circle.centre);
    if distance_sq.raw > circle.radius.times(circle.radius).raw {
        return None;
    }
    let distance = distance_sq.sqrt();
    let depth = circle.radius.minus(distance);
    Some(Collision::new(segment.normal(), depth))
}

/// A shape that can meet others.
#[derive(Clone, Copy, Debug, PartialEq, Eq, Structural)]
pub enum Collider {
    AABB(AABB),
    Circle(Circle),
    Segment(Segment),
}

impl Collider {
    pub fn from_aabb(aabb: AABB) -> (r: Collider)
        ensures
            r == Collider::AABB(aabb),
    {
        Collider::AABB(aabb)
    }

    pub fn from_circle(circle: Circle) -> (r: Collider)
        ensures
            r == Collider::Circle(circle),
    {
        Collider::Circle(circle)
    }

    pub fn from_segment(segment: Segment) -> (r: Collider)
        ensures
            r == Collider::Segment(segment),
    {
        Collider::Segment(segment)
    }

    /// What the exact tests of the shape ask of it: nothing of a box or a
    /// circle, of a segment that its ends are within the coordinate limit.
    pub open spec fn exact(&self) -> bool {
        match *self {
            Collider::Segment(segment) => segment.bounded(),
            _ => true,
        }
    }

    pub open spec fn spec_contains_point(&self, point: Vec2f) -> bool {
        match *self {
            Collider::AABB(aabb) => aabb.spec_contains_point(point),
            Collider::Circle(circle) => circle.spec_contains_point(point),
            Collider::Segment(segment) => segment.spec_contains_point(point),
        }
    }

    /// Whether the shape holds `point`.
    pub fn contains_point(&self, point: Vec2f) -> (r: bool)
        requires
            self.exact(),
            point.bounded(),
        ensures
            r == self.spec_contains_point(point),
    {
        match self {
            Collider::AABB(aabb) => aabb.contains_point(point),
            Collider::Circle(circle) => circle.contains_point(point),
            Collider::Segment(segment) => segment.contains_point(point),
        }
    }

    /// The corners of a shape that has corners: the ends of a segment.
    pub open spec fn spec_points(&self) -> Seq<Vec2f> {
        match *self {
            Collider::Segment(segment) => seq![segment.a, segment.b],
            _ => Seq::empty(),
        }
    }

    /// The corners of a segment.
    pub fn points(&self) -> (r: Vec<Vec2f>)
        requires
            *self is Segment,
        ensures
            r@ == self.spec_points(),
    {
        match self {
            Collider::Segment(segment) => segment.points(),
            _ => Vec::new(),
        }
    }

    pub open spec fn spec_intersects(&self, other: &Collider) -> Option<Collision> {
        match (*self, *other) {
            (Collider::Circle(a), Collider::Circle(b)) => spec_collision_circles(&a, &b),
            (Collider::Circle(circle), shape) => spec_sat_collision_circle_polygon(
                &circle,
                shape.spec_points(),
            ),
            (shape, Collider::Circle(circle)) => spec_sat_collision_circle_polygon(
                &circle,
                shape.spec_points(),
            ),
            _ => spec_sat_collision_polygons(self.spec_points(), other.spec_points()),
        }
    }

    /// How the shape overlaps `other`, if it does. Boxes have no corners to
    /// test and are left out.
    pub fn intersects(&self, other: &Collider) -> (r: Option<Collision>)
        requires
            !(*self is AABB),
            !(*other is AABB),
        ensures
            r == self.spec_intersects(other),
    {
        match (self, other) {
            (Collider::Circle(a), Collider::Circle(b)) => collision_circles(a, b),
            (Collider::Circle(circle), shape) => {
                let points = shape.points();
                sat_collision_circle_polygon(circle, points.as_slice())
            },
            (shape, Collider::Circle(circle)) => {
                let points = shape.points();
                sat_collision_circle_polygon(circle, points.as_slice())
            },
            _ => {
                let a = self.points();
                let b = other.points();
                sat_collision_polygons(a.as_slice(), b.as_slice())
            },
        }
    }

    pub open spec fn spec_extents(&self) -> AABB {
        match *self {
            Collider::AABB(aabb) => aabb,
            Collider::Circle(circle) => circle.spec_extents(),
            Collider::Segment(segment) => segment.spec_extents(),
        }
    }

    /// The smallest box around the shape.
    pub fn extents(&self) -> (r: AABB)
        ensures
            r == self.spec_extents(),
    {
        match self {
            Collider::AABB(aabb) => aabb.extents(),
            Collider::Circle(circle) => circle.extents(),
            Collider::Segment(segment) => segment.extents(),
        }
    }

    pub open spec fn spec_area(&self) -> Fixed {
        match *self {
            Collider::AABB(aabb) => aabb.spec_area(),
            Collider::Circle(circle) => circle.spec_area(),
            Collider::Segment(segment) => Fixed::spec_zero(),
        }
    }

    /// The area of the shape.
    pub fn area(&self) -> (r: Fixed)
        ensures
            r == self.spec_area(),
    {
        match self {
            Collider::AABB(aabb) => aabb.area(),
            Collider::Circle(circle) => circle.area(),
            Collider::Segment(segment) => segment.area(),
        }
    }

    pub open spec fn spec_centre(&self) -> Vec2f {
        match *self {
            Collider::AABB(aabb) => aabb.spec_centre(),
            Collider::Circle(circle) => circle.centre,
            Collider::Segment(segment) => segment.spec_centre(),
        }
    }

    /// The middle of the shape.
    pub fn centre(&self) -> (r: Vec2f)
        ensures
            r == self.spec_centre(),
    {
        match self {
            Collider::AABB(aabb) => aabb.centre(),
            Collider::Circle(circle) => circle.centre(),
            Collider::Segment(segment) => segment.centre(),
        }
    }

    pub open spec fn spec_intersects_ray(&self, ray: &Segment) -> bool {
        match *self {
            Collider::AABB(aabb) => aabb.spec_intersects_ray(ray),
            Collider::Circle(circle) => circle.spec_intersects_ray(ray),
            Collider::Segment(segment) => segment.spec_intersects(ray),
        }
    }

    /// Whether `ray` meets the shape.
    pub fn intersects_ray(&self, ray: &Segment) -> (r: bool)
        requires
            ray.bounded(),
            ray.a != ray.b,
            match *self {
                Collider::AABB(aabb) => aabb.bounded(),
                Collider::Circle(circle) => circle.centre.bounded(),
                Collider::Segment(segment) => segment.bounded(),
            },
        ensures
            r == self.spec_intersects_ray(ray),
    {
        match self {
            Collider::AABB(aabb) => aabb.intersects_ray(ray),
            Collider::Circle(circle) => circle.intersects_ray(ray),
            Collider::Segment(segment) => segment.intersects_ray(ray),
        }
    }

    pub open spec fn spec_scaled(self, scale: Vec2f) -> Collider {
        match self {
            Collider::AABB(aabb) => Collider::AABB(
                AABB { min: aabb.min.spec_times(scale), max: aabb.max.spec_times(scale) },
            ),
            Collider::Circle(circle) => Collider::Circle(
                Circle {
                    centre: circle.centre.spec_times(scale),
                    radius: circle.radius.spec_times(scale.x.spec_max(scale.y)),
                },
            ),
            Collider::Segment(segment) => Collider::Segment(
                Segment { a: segment.a.spec_times(scale), b: segment.b.spec_times(scale) },
            ),
        }
    }

    /// Multiplies the points of the shape by `scale`, coordinate by
    /// coordinate.
    pub fn scale(&mut self, scale: Vec2f)
        ensures
            *final(self) == old(self).spec_scaled(scale),
    {
        let scaled = match *self {
            Collider::AABB(aabb) => Collider::AABB(
                AABB { min: aabb.min.times(scale), max: aabb.max.times(scale) },
            ),
            Collider::Circle(circle) => Collider::Circle(
                Circle {
                    centre: circle.centre.times(scale),
                    radius: circle.radius.times(scale.x.max(scale.y)),
                },
            ),
            Collider::Segment(segment) => Collider::Segment(
                Segment { a: segment.a.times(scale), b: segment.b.times(scale) },
            ),
        };
        *self = scaled;
    }

    pub open spec fn spec_rotated(self, sin: Fixed, cos: Fixed) -> Collider {
        match self {
            Collider::AABB(aabb) => self,
            Collider::Circle(circle) => Collider::Circle(
                Circle { centre: circle.centre.spec_rotate(sin, cos), radius: circle.radius },
            ),
            Collider::Segment(segment) => Collider::Segment(
                Segment { a: segment.a.spec_rotate(sin, cos), b: segment.b.spec_rotate(sin, cos) },
            ),
        }
    }

    /// Turns the shape about the origin. A box, whose sides lie along the
    /// axes, cannot be turned.
    pub fn rotate(&mut self, sin: Fixed, cos: Fixed)
        requires
            !(*old(self) is AABB),
        ensures
            *final(self) == old(self).spec_rotated(sin, cos),
    {
        let turned = match *self {
            Collider::AABB(aabb) => Collider::AABB(aabb),
            Collider::Circle(circle) => Collider::Circle(
                Circle { centre: circle.centre.rotate(sin, cos), radius: circle.radius },
            ),
            Collider::Segment(segment) => Collider::Segment(
                Segment { a: segment.a.rotate(sin, cos), b: segment.b.rotate(sin, cos) },
            ),
        };
        *self = turned;
    }

    pub open spec fn spec_translated(self, translation: Vec2f) -> Collider {
        match self {
            Collider::AABB(aabb) => Collider::AABB(
                AABB {
                    min: aabb.min.spec_plus(translation),
                    max: aabb.max.spec_plus(translation),
                },
            ),
            Collider::Circle(circle) => Collider::Circle(
                Circle { centre: circle.centre.spec_plus(translation), radius: circle.radius },
            ),
            Collider::Segment(segment) => Collider::Segment(
                Segment {
                    a: segment.a.spec_plus(translation),
                    b: segment.b.spec_plus(translation),
                },
            ),
        }
    }

    /// Moves the shape by `translation`.
    pub fn translate(&mut self, translation: Vec2f)
        ensures
            *final(self) == old(self).spec_translated(translation),
    {
        let moved = match *self {
            Collider::AABB(aabb) => Collider::AABB(
                AABB { min: aabb.min.plus(translation), max: aabb.max.plus(translation) },
            ),
            Collider::Circle(circle) => Collider::Circle(
                Circle { centre: circle.centre.plus(translation), radius: circle.radius },
            ),
            Collider::Segment(segment) => Collider::Segment(
                Segment { a: segment.a.plus(translation), b: segment.b.plus(translation) },
            ),
        };
        *self = moved;
    }
}

/// A body that moves and meets others.
#[derive(Clone, Copy, Debug, PartialEq, Eq, Structural)]
pub struct RigidBody {
    pub id: usize,
    pub collider: Collider,
    pub bounds: AABB,
    pub fixed: bool,
    pub mass: Fixed,
    pub inv_mass: Fixed,
    pub velocity: Vec2f,
    pub position: Vec2f,
}

impl RigidBody {
    pub open spec fn spec_new(collider: Collider, mass: Fixed, fixed: bool, id: usize) -> RigidBody {
        RigidBody {
            id,
            collider,
            bounds: collider.spec_extents(),
            fixed,
            mass,
            inv_mass: if fixed {
                Fixed::spec_zero()
            } else {
                Fixed::spec_one().spec_over(mass)
            },
            velocity: Vec2f::spec_zero(),
            position: Vec2f::spec_zero(),
        }
    }

    /// A body at rest at the origin. A body that is fixed has no inverse
    /// mass.
    #[verifier::when_used_as_spec(spec_new)]
    pub fn new(collider: Collider, mass: Fixed, fixed: bool, id: usize) -> (r: RigidBody)
        ensures
            r == Self::spec_new(collider, mass, fixed, id),
    {
        let bounds = collider.extents();
        let inv_mass = if fixed {
            Fixed::zero()
        } else {
            Fixed::one().over(mass)
        };
        RigidBody {
            id,
            collider,
            bounds,
            fixed,
            mass,
            inv_mass,
            velocity: Vec2f::zero(),
            position: Vec2f::zero(),
        }
    }

    pub open spec fn spec_translated(self, translation: Vec2f) -> RigidBody {
        RigidBody {
            position: self.position.spec_plus(translation),
            collider: self.collider.spec_translated(translation),
            bounds: AABB {
                min: self.bounds.min.spec_plus(translation),
                max: self.bounds.max.spec_plus(translation),
            },
            ..self
        }
    }

    /// Moves the body, its collider and its bounds by `translation`.
    pub fn translate(&mut self, translation: Vec2f)
        ensures
            *final(self) == old(self).spec_translated(translation),
    {
        self.position = self.position.plus(translation);
        self.collider.translate(translation);
        self.bounds.translate(translation);
    }

    /// Moves the body as far as its velocity takes it in `delta_seconds`.
    pub fn integrate_position(&mut self, delta_seconds: Fixed)
        ensures
            *final(self) == old(self).spec_translated(old(self).velocity.spec_scaled(delta_seconds)),
    {
        let translation = self.velocity.scaled(delta_seconds);
        self.translate(translation);
    }
}

} // verus!
