use pseudo3d::fixed::Fixed;
use pseudo3d::maths::aabb::AABB;
use pseudo3d::maths::circle::Circle;
use pseudo3d::maths::polygon::Polygon;
use pseudo3d::maths::sat::separating_axis_test;
use pseudo3d::maths::segment::Segment;
use pseudo3d::maths::shape::Shape;
use pseudo3d::maths::triangle::Triangle;
use pseudo3d::maths::vec::Vec2f;

fn fx(v: f64) -> Fixed {
    Fixed::from_raw((v * 16777216.0).round() as i64)
}

fn as_f64(f: Fixed) -> f64 {
    f.raw as f64 / 16777216.0
}

fn vec(x: f64, y: f64) -> Vec2f {
    Vec2f::new(fx(x), fx(y))
}

#[test]
fn aabb_intersects_test() {
    let aabb_1 = AABB::new(vec(0.0, 0.0), vec(10.0, 10.0));
    let aabb_2 = AABB::new(vec(2.0, 2.0), vec(8.0, 8.0));
    let aabb_3 = AABB::new(vec(11.0, 11.0), vec(12.0, 12.0));

    // intersects
    assert!(aabb_1.intersects(&aabb_2));

    // does not intersect
    assert!(!aabb_1.intersects(&aabb_3));
}

#[test]
fn aabb_contains_test() {
    let aabb_1 = AABB::new(vec(0.0, 0.0), vec(10.0, 10.0));
    let aabb_2 = AABB::new(vec(2.0, 2.0), vec(8.0, 8.0));

    // contains
    assert!(aabb_1.contains(&aabb_2));

    // does not contain
    assert!(!aabb_2.contains(&aabb_1));
}

#[test]
fn aabb_contains_point_test() {
    let aabb = AABB::new(vec(0.0, 0.0), vec(10.0, 10.0));

    // contains
    assert!(aabb.contains_point(vec(2.0, 2.0)));

    // does not contain
    assert!(!aabb.contains_point(vec(11.0, 11.0)));
}

#[test]
fn area_test() {
    let aabb = AABB::new(vec(0.0, 0.0), vec(10.0, 10.0));

    assert_eq!(as_f64(aabb.area()), 100.0);
}

#[test]
fn centre_test() {
    let aabb = AABB::new(vec(0.0, 0.0), vec(10.0, 10.0));

    assert_eq!(aabb.centre(), vec(5.0, 5.0));
}

#[test]
fn aabb_from_dimensions_is_centred() {
    let aabb = AABB::from_dimensions(vec(5.0, 5.0), vec(10.0, 4.0));
    assert_eq!(aabb.min, vec(0.0, 3.0));
    assert_eq!(aabb.max, vec(10.0, 7.0));
}

#[test]
fn aabb_intersects_ray_crosses_an_edge() {
    let aabb = AABB::new(vec(0.0, 0.0), vec(10.0, 10.0));
    assert!(aabb.intersects_ray(&Segment::new(vec(5.0, 5.0), vec(15.0, 5.0))));
    assert!(!aabb.intersects_ray(&Segment::new(vec(1.0, 1.0), vec(2.0, 2.0))));
}

#[test]
fn circle_intersects_test() {
    let circle_1 = Circle::new(vec(0.0, 0.0), fx(1.0));
    let circle_2 = Circle::new(vec(0.5, 0.0), fx(1.0));
    let circle_3 = Circle::new(vec(5.0, 0.0), fx(1.0));

    // intersects
    assert!(circle_1.intersects(&circle_2));

    // does not intersect
    assert!(!circle_1.intersects(&circle_3));
}

#[test]
fn circle_contains_test() {
    let circle_1 = Circle::new(vec(0.0, 0.0), fx(1.0));
    let circle_2 = Circle::new(vec(0.0, 0.0), fx(0.5));
    let circle_3 = Circle::new(vec(0.0, 0.0), fx(3.0));

    // contains
    assert!(circle_1.contains(&circle_2));

    // does not contain
    assert!(!circle_1.contains(&circle_3));
}

#[test]
fn circle_contains_point_test() {
    let circle = Circle::new(vec(0.0, 0.0), fx(1.0));

    // contains
    assert!(circle.contains_point(vec(0.5, 0.5)));

    // does not contain
    assert!(!circle.contains_point(vec(2.0, 2.0)));
}

#[test]
fn circle_intersects_ray_test() {
    let circle = Circle::new(vec(0.0, 0.0), fx(1.0));

    // intersects
    assert!(circle.intersects_ray(&Segment::new(vec(0.1, 0.1), vec(2.0, 2.0))));

    // does not intersect
    assert!(!circle.intersects_ray(&Segment::new(vec(2.0, 2.0), vec(3.0, 3.0))));
}

#[test]
fn polygon_contains_point_test() {
    let polygon = Polygon::from_vertices(vec![
        vec(0.0, 0.0),
        vec(1.0, 0.0),
        vec(1.0, 1.0),
        vec(0.0, 1.0),
    ]);

    // contains
    assert!(polygon.contains_point(vec(0.5, 0.5)));

    // does not contain
    assert!(!polygon.contains_point(vec(1.5, 0.5)));
}

#[test]
fn polygon_intersects_ray_test() {
    let polygon = Polygon::from_vertices(vec![
        vec(0.0, 0.0),
        vec(1.0, 0.0),
        vec(1.0, 1.0),
        vec(0.0, 1.0),
    ]);

    // intersects
    assert!(polygon.intersects_ray(&Segment::new(vec(0.5, 0.5), vec(2.0, 1.0))));

    // does not intersect
    assert!(!polygon.intersects_ray(&Segment::new(vec(1.5, 0.5), vec(3.0, 0.0))));
}

#[test]
fn polygon_from_rect_has_four_corners() {
    let polygon = Polygon::from_rect(vec(1.0, 1.0), vec(2.0, 4.0));
    assert_eq!(
        polygon.points(),
        &[vec(0.0, -1.0), vec(2.0, -1.0), vec(2.0, 3.0), vec(0.0, 3.0)][..]
    );
    assert_eq!(as_f64(polygon.area()), 8.0);
    assert_eq!(polygon.centre(), vec(1.0, 1.0));
    let extents = polygon.extents();
    assert_eq!(extents.min, vec(0.0, -1.0));
    assert_eq!(extents.max, vec(2.0, 3.0));
}

#[test]
fn polygon_without_corners_holds_no_point() {
    let polygon = Polygon::new();
    assert!(!polygon.contains_point(vec(0.0, 0.0)));
    assert!(!polygon.intersects_ray(&Segment::new(vec(0.0, 0.0), vec(1.0, 1.0))));
}

#[test]
fn overlaps_test() {
    let triangle = Triangle::new(vec(0.0, 0.0), vec(1.0, 0.0), vec(0.0, 1.0));

    // intersects
    let segment = Segment::new(vec(0.2, 0.2), vec(2.0, 2.0));
    assert!(separating_axis_test(&triangle.points(), &segment.points()));

    // does not intersect
    let segment = Segment::new(vec(2.0, 2.0), vec(4.0, 4.0));
    assert!(!separating_axis_test(&triangle.points(), &segment.points()));
}

#[test]
fn segment_intersects_test() {
    let seg_1 = Segment::new(vec(0.0, 0.0), vec(10.0, 10.0));
    let seg_2 = Segment::new(vec(0.0, 5.0), vec(10.0, 0.0));
    let seg_3 = Segment::new(vec(10.0, 0.0), vec(20.0, 10.0));
    let seg_4 = Segment::new(vec(20.0, 0.0), vec(25.0, 30.0));

    // intersects
    assert!(seg_1.intersects(&seg_2));

    // does not intersect (parallel)
    assert!(!seg_1.intersects(&seg_3));

    // does not intersect (not parallel)
    assert!(!seg_1.intersects(&seg_4));
}

#[test]
fn intersection_test() {
    let seg_1 = Segment::new(vec(0.0, 0.0), vec(10.0, 10.0));
    let seg_2 = Segment::new(vec(0.0, 5.0), vec(10.0, 0.0));
    let seg_3 = Segment::new(vec(10.0, 0.0), vec(20.0, 10.0));
    let seg_4 = Segment::new(vec(20.0, 0.0), vec(25.0, 30.0));

    // intersects
    let intersection = seg_1.intersection(&seg_2).unwrap();
    let answer = vec(10.0 / 3.0, 10.0 / 3.0);
    let delta = intersection.minus(answer).abs();
    assert!(as_f64(delta.x) < 0.0001 && as_f64(delta.y) < 0.0001);

    // does not intersect (parallel)
    assert_eq!(seg_1.intersection(&seg_3), None);

    // does not intersect (not parallel)
    assert_eq!(seg_1.intersection(&seg_4), None);
}

#[test]
fn length_sq_test() {
    let seg = Segment::new(vec(0.0, 0.0), vec(10.0, 10.0));

    assert_eq!(as_f64(seg.length_sq()), 200.0);
}

#[test]
fn length_test() {
    let seg = Segment::new(vec(0.0, 0.0), vec(10.0, 10.0));

    assert_eq!(as_f64(seg.length()) as f32, f32::sqrt(200.0));
}

#[test]
fn direction_test() {
    let seg = Segment::new(vec(0.0, 0.0), vec(10.0, 10.0));

    let dir = seg.direction();
    let answer = vec(1.0 / f64::sqrt(2.0), 1.0 / f64::sqrt(2.0));
    let delta = dir.minus(answer).abs();
    assert!(as_f64(delta.x) < 0.0001 && as_f64(delta.y) < 0.0001);
}

#[test]
fn normal_test() {
    let seg = Segment::new(vec(0.0, 0.0), vec(10.0, 10.0));

    let normal = seg.normal();
    let answer = vec(-1.0 / f64::sqrt(2.0), 1.0 / f64::sqrt(2.0));
    let delta = normal.minus(answer).abs();
    assert!(as_f64(delta.x) < 0.0001 && as_f64(delta.y) < 0.0001);
}

#[test]
fn clip_bounds_test() {
    let seg = Segment::new(vec(6.0, 14.0), vec(13.0, 12.0));
    let bounds = AABB::new(Vec2f::zero(), vec(10.0, 10.0));

    let clipped = seg.clip_bounds(&bounds);

    let answer = Segment::new(vec(6.0, 10.0), vec(10.0, 10.0));

    assert_eq!(clipped.a, answer.a);
    assert_eq!(clipped.b, answer.b);
}

#[test]
fn clip_bounds_moves_an_end_along_the_line() {
    // The second end lies right of the bounds: it goes along the line to
    // the right side, where the line is at height 3.
    let seg = Segment::new(vec(0.0, 1.0), vec(20.0, 5.0));
    let bounds = AABB::new(Vec2f::zero(), vec(10.0, 10.0));
    let clipped = seg.clip_bounds(&bounds);
    assert_eq!(clipped.a, vec(0.0, 1.0));
    assert_eq!(clipped.b.x, fx(10.0));
    assert!((as_f64(clipped.b.y) - 3.0).abs() < 0.0001);
}

#[test]
fn overlaps_bounds_test() {
    let bounds = AABB::new(vec(0.0, 0.0), vec(10.0, 10.0));

    // overlaps (inside completely)
    assert_eq!(
        Segment::new(vec(1.0, 1.0), vec(5.0, 5.0)).overlaps_bounds(&bounds),
        true
    );

    // overlaps (intersects)
    assert_eq!(
        Segment::new(vec(5.0, 5.0), vec(15.0, 15.0)).overlaps_bounds(&bounds),
        true
    );

    // does not overlap (outside on same side)
    assert_eq!(
        Segment::new(vec(-1.0, -1.0), vec(-1.0, -5.0)).overlaps_bounds(&bounds),
        false
    );

    // does not overlap (outside on opposite sides)
    assert_eq!(
        Segment::new(vec(-1.0, 15.0), vec(11.0, 15.0)).overlaps_bounds(&bounds),
        false
    );
}

#[test]
fn overlaps_polygon_test() {
    let polygon = Polygon::from_vertices(vec![
        vec(1.0, 3.0),
        vec(3.0, 3.0),
        vec(4.0, 1.0),
        vec(1.0, 1.0),
    ]);

    // overlaps (inside completely)
    assert_eq!(
        Segment::new(vec(1.5, 1.5), vec(2.5, 2.5)).overlaps_polygon(&polygon),
        true
    );

    // overlaps (intersects, half inside)
    assert_eq!(
        Segment::new(vec(2.0, 2.0), vec(5.0, 2.0)).overlaps_polygon(&polygon),
        true
    );

    // overlaps (intersects, both points outside)
    assert_eq!(
        Segment::new(vec(-1.0, 2.0), vec(4.0, 2.0)).overlaps_polygon(&polygon),
        true
    );

    // does not overlap (outside on same side)
    assert_eq!(
        Segment::new(vec(-1.0, 1.5), vec(-1.0, 2.5)).overlaps_polygon(&polygon),
        false
    );

    // does not overlap (outside on opposite sides)
    assert_eq!(
        Segment::new(vec(-2.0, -2.0), vec(2.0, 6.0)).overlaps_polygon(&polygon),
        false
    );
}

#[test]
fn segment_point_distance_is_to_the_nearest_point() {
    let seg = Segment::new(vec(0.0, 0.0), vec(10.0, 0.0));
    assert_eq!(as_f64(seg.point_distance_sq(vec(5.0, 3.0))), 9.0);
    assert_eq!(as_f64(seg.point_distance(vec(5.0, 3.0))), 3.0);
    assert_eq!(as_f64(seg.point_distance_sq(vec(13.0, 4.0))), 25.0);
    assert!(seg.contains_point(vec(5.0, 3.0)));
    assert!(!seg.contains_point(vec(13.0, 4.0)));
}

#[test]
fn segment_edge_side_tells_the_sides_apart() {
    let seg = Segment::new(vec(0.0, 0.0), vec(10.0, 0.0));
    assert!(seg.edge_side(vec(5.0, 1.0)).raw < 0);
    assert!(seg.edge_side(vec(5.0, -1.0)).raw > 0);
    assert_eq!(seg.edge_side(vec(5.0, 0.0)), Fixed::zero());
}

#[test]
fn test_contains_point() {
    let triangle = Triangle::new(vec(0.0, 0.0), vec(1.0, 0.0), vec(0.0, 1.0));

    // inside
    assert!(triangle.contains_point(vec(0.2, 0.2)));

    // outside
    assert!(!triangle.contains_point(vec(1.0, 1.0)));
}

#[test]
fn triangle_intersects_ray_test() {
    let triangle = Triangle::new(vec(0.0, 0.0), vec(1.0, 0.0), vec(0.0, 1.0));

    // intersects
    assert!(triangle.intersects_ray(&Segment::new(vec(0.1, 0.1), vec(2.0, 2.0))));

    // does not intersect
    assert!(!triangle.intersects_ray(&Segment::new(vec(2.0, 2.0), vec(4.0, 4.0))));
}

#[test]
fn test_area() {
    let triangle = Triangle::new(vec(0.0, 0.0), vec(1.0, 0.0), vec(0.0, 1.0));

    assert_eq!(as_f64(triangle.area()), 0.5);

    let triangle = Triangle::new(vec(1.0, 0.0), vec(2.5, 1.0), vec(0.0, 4.0));

    assert_eq!(as_f64(triangle.area()), 3.5);
}

#[test]
fn triangle_barycentric_weights_sum_to_one() {
    let triangle = Triangle::new(vec(0.0, 0.0), vec(4.0, 0.0), vec(0.0, 4.0));
    let w = triangle.barycentric(vec(1.0, 1.0));
    assert!((as_f64(w.x) - 0.5).abs() < 0.0001);
    assert!((as_f64(w.y) - 0.25).abs() < 0.0001);
    assert!((as_f64(w.z) - 0.25).abs() < 0.0001);
    assert!((as_f64(w.x.plus(w.y).plus(w.z)) - 1.0).abs() < 0.0001);
}

#[test]
fn every_shape_can_do_what_shapes_do() {
    let square = Shape::Polygon(Polygon::from_rect(vec(1.0, 1.0), vec(2.0, 2.0)));
    let triangle = Shape::Triangle(Triangle::new(vec(0.0, 0.0), vec(4.0, 0.0), vec(0.0, 4.0)));
    let segment = Shape::Segment(Segment::new(vec(5.0, 5.0), vec(9.0, 9.0)));
    let circle = Shape::Circle(Circle::new(vec(0.0, 0.0), fx(2.0)));
    let aabb = Shape::AABB(AABB::new(vec(0.0, 0.0), vec(2.0, 4.0)));
    assert!(square.contains_point(vec(1.5, 1.5)));
    assert!(circle.contains_point(vec(1.0, 1.0)));
    assert!(!aabb.contains_point(vec(3.0, 1.0)));
    assert!(square.overlaps(&triangle));
    assert!(!square.overlaps(&segment));
    assert!(triangle.intersects_ray(&Segment::new(vec(1.0, 1.0), vec(5.0, 5.0))));
    assert!(circle.intersects_ray(&Segment::new(vec(-5.0, 1.0), vec(5.0, 1.0))));
    assert_eq!(aabb.area(), fx(8.0));
    assert_eq!(square.area(), fx(4.0));
    assert_eq!(segment.centre(), vec(7.0, 7.0));
    assert_eq!(triangle.extents().max, vec(4.0, 4.0));
    assert_eq!(triangle.points(), vec![vec(0.0, 0.0), vec(4.0, 0.0), vec(0.0, 4.0)]);
    let mut moved = Shape::Segment(Segment::new(vec(1.0, 0.0), vec(2.0, 0.0)));
    moved.translate(vec(1.0, 1.0));
    moved.scale(vec(2.0, 3.0));
    // A quarter turn: sine one, cosine zero.
    moved.rotate(fx(1.0), fx(0.0));
    assert_eq!(moved.points(), vec![vec(-3.0, 4.0), vec(-3.0, 6.0)]);
}
