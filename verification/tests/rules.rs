use pseudo3d::bitmap::Bitmap;
use pseudo3d::camera::Camera;
use pseudo3d::colour::BGRA8;
use pseudo3d::consts::far;
use pseudo3d::consts::mip_scale;
use pseudo3d::consts::near;
use pseudo3d::fixed::Fixed;
use pseudo3d::input::Event;
use pseudo3d::input::Input;
use pseudo3d::input::KeyCode;
use pseudo3d::input::KeyboardEvent;
use pseudo3d::input::PointerEvent;
use pseudo3d::maths::aabb::AABB;
use pseudo3d::maths::circle::Circle;
use pseudo3d::maths::mat::Mat2f;
use pseudo3d::maths::segment::Segment;
use pseudo3d::maths::vec::Vec2f;
use pseudo3d::physics::collision_circle_segment;
use pseudo3d::physics::collision_circles;
use pseudo3d::physics::sat_collision_circle_polygon;
use pseudo3d::physics::sat_collision_polygons;
use pseudo3d::physics::Collider;
use pseudo3d::physics::RigidBody;
use pseudo3d::player::Player;
use pseudo3d::renderer::plane::PlaneLook;
use pseudo3d::renderer::portal::PortalNode;
use pseudo3d::renderer::state::RendererState;
use pseudo3d::renderer::util::diminish_lighting;
use pseudo3d::renderer::util::light_level;
use pseudo3d::renderer::util::mip_level;
use pseudo3d::renderer::util::normalise_depth;
use pseudo3d::renderer::util::view_frustum;
use pseudo3d::renderer::util::wrap_texel;
use pseudo3d::renderer::wall::near_clip;
use pseudo3d::renderer::wall::portal_rows;
use pseudo3d::renderer::wall::prepare_wall;
use pseudo3d::renderer::wall::wall_lighting;
use pseudo3d::renderer::wall::WallEnd;
use pseudo3d::renderer::wall::WallInterpolator;
use pseudo3d::renderer::wall::WallRenderer;
use pseudo3d::surface::Plane;
use pseudo3d::surface::PlaneTexture;
use pseudo3d::surface::Portal;
use pseudo3d::surface::Sector;
use pseudo3d::surface::Wall;
use pseudo3d::surface::WallTexture;
use pseudo3d::textures::Texture;

fn fx(v: f64) -> Fixed {
    Fixed::from_raw((v * 16777216.0).round() as i64)
}

fn as_f64(f: Fixed) -> f64 {
    f.raw as f64 / 16777216.0
}

fn vec(x: f64, y: f64) -> Vec2f {
    Vec2f::new(fx(x), fx(y))
}

fn plain_texture(index: usize) -> WallTexture {
    WallTexture::new(index, Vec2f::zero(), Vec2f::uniform(fx(1.0)))
}

fn flat(height: f64) -> Plane {
    Plane::new(fx(height), PlaneTexture::new(0, Vec2f::zero(), Vec2f::uniform(fx(1.0)), Fixed::zero()))
}

fn window(x_min: usize, x_max: usize) -> PortalNode {
    PortalNode {
        tree_depth: 0,
        sector_index: 0,
        x_min,
        x_max,
        depth_min: Fixed::zero(),
        depth_max: Fixed::zero(),
    }
}

#[test]
fn depth_is_normalised_between_the_planes() {
    assert_eq!(normalise_depth(near()), Fixed::zero());
    assert!((as_f64(normalise_depth(far())) - 1.0).abs() < 0.000001);
    assert!((as_f64(normalise_depth(fx(256.0))) - 0.5).abs() < 0.000001);
    assert!((as_f64(near()) - 0.00001).abs() < 0.000001);
    assert_eq!(as_f64(far()), 512.0);
}

#[test]
fn mip_level_follows_depth_and_bias() {
    // The level is the whole part of the depth times the factor 4, at most
    // the last level.
    assert_eq!(mip_level(fx(0.0), Fixed::zero()), 0);
    assert_eq!(mip_level(fx(0.24), Fixed::zero()), 0);
    assert_eq!(mip_level(fx(0.26), Fixed::zero()), 1);
    assert_eq!(mip_level(fx(0.51), Fixed::zero()), 2);
    assert_eq!(mip_level(fx(0.99), Fixed::zero()), 2);
    assert_eq!(mip_level(fx(0.21), fx(1.0)), 1);
    assert_eq!(mip_level(fx(0.19), fx(1.0)), 0);
    assert_eq!(mip_level(fx(-0.5), Fixed::zero()), 0);
    assert_eq!(mip_scale(0), fx(1.0));
    assert_eq!(mip_scale(1), fx(0.5));
    assert_eq!(mip_scale(2), fx(0.25));
}

#[test]
fn mip_level_never_falls_as_depth_rises() {
    for bias in [0.0, 0.5, 3.0] {
        let mut last = 0;
        for step in 0..=512 {
            let level = mip_level(normalise_depth(fx(step as f64)), fx(bias));
            assert!(level >= last, "depth {} bias {}", step, bias);
            assert!(level <= 2);
            last = level;
        }
    }
}

#[test]
fn light_dims_with_depth() {
    assert_eq!(diminish_lighting(Fixed::zero()), Fixed::one());
    assert_eq!(diminish_lighting(fx(0.5)), fx(0.1875));
    assert_eq!(diminish_lighting(Fixed::one()), Fixed::zero());
    assert_eq!(light_level(Fixed::one()), 255);
    assert_eq!(light_level(fx(0.5)), 127);
    assert_eq!(light_level(fx(-1.0)), 0);
    assert_eq!(light_level(fx(7.0)), 255);
    // A wall that faces the light has all of it, one that faces away has
    // the share that does not depend on the direction.
    assert!((as_f64(wall_lighting(vec(0.0, -1.0))) - 1.0).abs() < 0.000001);
    assert!((as_f64(wall_lighting(vec(0.0, 1.0))) - 0.3).abs() < 0.000001);
    assert!((as_f64(wall_lighting(vec(1.0, 0.0))) - 0.65).abs() < 0.000001);
}

#[test]
fn texels_wrap_around() {
    assert_eq!(wrap_texel(5, 8), 5);
    assert_eq!(wrap_texel(8, 8), 0);
    assert_eq!(wrap_texel(-1, 8), 7);
    assert_eq!(wrap_texel(-9, 8), 7);
    // For a power of two this keeps the low bits.
    assert_eq!(wrap_texel(-9, 8), (-9i64 as usize) & 7);
}

#[test]
fn frustum_has_its_four_corners() {
    let frustum = view_frustum(Fixed::from_int(90));
    let points = frustum.points();
    assert_eq!(points.len(), 4);
    assert_eq!(points[0].y, far());
    assert_eq!(points[2].y, near());
    assert!((as_f64(points[1].x) - 512.0).abs() < 0.001);
    assert_eq!(points[0].x, points[1].x.neg());
    assert_eq!(points[3].x, points[2].x.neg());
}

#[test]
fn projection_puts_the_view_axis_in_the_middle_of_the_screen() {
    let mut state = RendererState::new(160, 100, Fixed::from_int(75));
    state.update(&Camera::new(vec(10.0, 20.0), fx(15.0)));
    assert_eq!(state.transform_view(vec(10.0, 70.0)), vec(0.0, 50.0));
    let (screen, inv_depth) = state.project_screen_space(vec(0.0, 50.0), fx(15.0));
    assert_eq!(screen, vec(80.0, 50.0));
    assert_eq!(inv_depth, fx(0.02));
    // A point 10 units above the eye and 5 to the right at depth 50.
    let (screen, _) = state.project_screen_space(vec(5.0, 50.0), fx(25.0));
    let x = 5.0 * as_f64(state.focal_width()) / 50.0 + 80.0;
    let y = -10.0 * as_f64(state.focal_height()) / 50.0 + 50.0;
    assert!((as_f64(screen.x) - x).abs() < 0.0001 && (as_f64(screen.y) - y).abs() < 0.0001);
}

#[test]
fn near_plane_cuts_the_end_that_lies_before_it() {
    let clip = near_clip(vec(-10.0, -10.0), vec(10.0, 30.0));
    assert_eq!(clip.a.y, near());
    assert!((as_f64(clip.a.x) + 5.0).abs() < 0.001);
    assert_eq!(clip.b, vec(10.0, 30.0));
    assert!((as_f64(clip.t_a.unwrap()) - 0.25).abs() < 0.00001);
    assert_eq!(clip.t_b, None);
    let (tex_a, tex_b) = clip.clip_tex(vec(0.0, 1.0), vec(40.0, 9.0));
    assert!((as_f64(tex_a.x) - 10.0).abs() < 0.001);
    assert_eq!(tex_a.y, fx(1.0));
    assert_eq!(tex_b, vec(40.0, 9.0));
    let whole = near_clip(vec(-10.0, 5.0), vec(10.0, 30.0));
    assert_eq!((whole.a, whole.b), (vec(-10.0, 5.0), vec(10.0, 30.0)));
    assert_eq!((whole.t_a, whole.t_b), (None, None));
}

#[test]
fn wall_across_the_near_plane_keeps_its_texture_straight() {
    // The eye looks along the second axis at the middle of a wall whose
    // first end lies behind it.
    let mut state = RendererState::new(160, 100, Fixed::from_int(75));
    state.update(&Camera::new(Vec2f::zero(), fx(15.0)));
    let wall = Wall::new(vec(-10.0, -10.0), vec(10.0, 30.0), plain_texture(0), None);
    let width = as_f64(wall.width);
    assert!((width - 2000f64.sqrt()).abs() < 0.0001);
    let job = prepare_wall(&state.lens(), &state.frustum, window(0, 160), fx(25.0), fx(0.0), &wall)
        .unwrap();
    assert_eq!(job.x_min, 0);
    let mut interpolator = job.interpolator;
    for _ in job.x_min..80 {
        interpolator.step_x();
    }
    let depth = Fixed::one().over(interpolator.inv_depth);
    let u = as_f64(interpolator.u_depth.times(depth));
    assert!((as_f64(depth) - 10.0).abs() < 0.1, "{}", as_f64(depth));
    for level in 0..3 {
        let scale = as_f64(mip_scale(level));
        assert!((u * scale - width / 2.0 * scale).abs() < 1.0, "{} {}", u, width / 2.0);
    }
}

#[test]
fn wall_along_the_edge_of_the_frustum_covers_at_most_one_column() {
    let mut state = RendererState::new(160, 100, Fixed::from_int(90));
    state.update(&Camera::new(Vec2f::zero(), fx(15.0)));
    let marker = BGRA8::new(1, 2, 3, 4);
    state.framebuffer.fill(marker);
    let texture = Texture::from_bitmap(Bitmap::new(8, 8, vec![BGRA8::white(); 64])).unwrap();
    let sector = Sector { id: 0, walls: vec![], floor: flat(0.0), ceiling: flat(25.0) };
    let lo = vec![0u16; 160];
    let hi = vec![100u16; 160];
    for (a, b) in [((1.0, 1.0), (100.0, 100.0)), ((-100.0, 100.0), (-1.0, 1.0))] {
        let wall = Wall::new(vec(a.0, a.1), vec(b.0, b.1), plain_texture(0), None);
        let mut walls = WallRenderer::new(&state);
        let mut node = window(0, 160);
        walls.draw_wall(&mut state, &mut node, (&lo, &hi), &sector, &wall, &texture);
    }
    let columns = (0..160)
        .filter(|x| (0..100).any(|y| state.framebuffer.get_pixel(*x, y) != marker))
        .count();
    assert!(columns <= 1, "{}", columns);
}

#[test]
fn plane_texture_turns_on_a_circle() {
    let mut state = RendererState::new(160, 100, Fixed::from_int(75));
    state.update(&Camera::new(Vec2f::zero(), fx(15.0)));
    let texture = Texture::from_bitmap(Bitmap::new(8, 8, vec![BGRA8::white(); 64])).unwrap();
    let depth = fx(40.0);
    let x = 120;
    // The point of the world seen in that column at that depth.
    let across = (x as f64 - 80.0) * 40.0 / as_f64(state.focal_width());
    let radius = (across * across + 40.0 * 40.0).sqrt();
    for step in 0..64 {
        let angle = fx(step as f64 * 0.1);
        let look = PlaneLook {
            lens: state.lens(),
            height_offset: fx(-10.0),
            texture: &texture,
            texture_offset: Vec2f::zero(),
            texture_scale_rotate: Mat2f::rotation(angle),
        };
        let at = look.texture_point(x, depth, mip_scale(0));
        let r = (as_f64(at.x).powi(2) + as_f64(at.y).powi(2)).sqrt();
        assert!((r - radius).abs() < 1.0, "{} {}", r, radius);
    }
}

#[test]
fn interpolator_starts_at_the_first_column_and_steps_evenly() {
    let a = WallEnd { x: fx(10.0), top_y: fx(20.0), bottom_y: fx(80.0), tex: vec(0.0, 0.0), inv_depth: fx(0.01) };
    let b = WallEnd { x: fx(50.0), top_y: fx(40.0), bottom_y: fx(60.0), tex: vec(100.0, 30.0), inv_depth: fx(0.02) };
    let mut lerp = WallInterpolator::new(a, b, fx(10.0));
    assert_eq!(lerp.top_y, fx(20.0));
    assert_eq!(lerp.bottom_y, fx(80.0));
    assert_eq!(lerp.top_y_m, fx(0.5));
    assert_eq!(lerp.bottom_y_m, fx(-0.5));
    assert_eq!(lerp.v_start, fx(0.0));
    assert_eq!(lerp.v_delta, fx(30.0));
    lerp.step_x();
    lerp.step_x();
    assert_eq!(lerp.top_y, fx(21.0));
    assert_eq!(lerp.bottom_y, fx(79.0));
    // Down the column the texture row runs from its start to its end.
    let rows = lerp.init_y(21);
    assert_eq!(rows.v, fx(0.0));
    assert!((as_f64(rows.v_m) - 30.0 / 58.0).abs() < 0.00001);
    // Set to a later column, the start values are further along.
    let later = WallInterpolator::new(a, b, fx(30.0));
    assert_eq!(later.top_y, fx(30.0));
    assert_eq!(later.bottom_y, fx(70.0));
}

#[test]
fn portal_rows_never_cross() {
    let flat = |top: f64, bottom: f64| {
        let end = WallEnd { x: fx(0.0), top_y: fx(top), bottom_y: fx(bottom), tex: vec(0.0, 0.0), inv_depth: fx(0.1) };
        WallInterpolator::new(end, WallEnd { x: fx(10.0), ..end }, fx(0.0))
    };
    // The upper band from row 10 to 30, the lower from 60 to 90, in a
    // window from 20 to 80.
    let rows = portal_rows(&flat(10.0, 30.0), &flat(60.0, 90.0), 20, 80);
    assert_eq!((rows.upper_y_min, rows.upper_y_max, rows.lower_y_min, rows.lower_y_max), (20, 30, 60, 80));
    // Bands turned upside down have no rows.
    let rows = portal_rows(&flat(30.0, 10.0), &flat(90.0, 60.0), 0, 100);
    assert_eq!((rows.upper_y_min, rows.upper_y_max), (30, 30));
    assert_eq!((rows.lower_y_min, rows.lower_y_max), (60, 60));
    // A lower band that rises above the upper band is pushed down to it.
    let rows = portal_rows(&flat(10.0, 50.0), &flat(30.0, 40.0), 0, 100);
    assert_eq!((rows.upper_y_min, rows.upper_y_max, rows.lower_y_min, rows.lower_y_max), (10, 50, 50, 50));
}

fn rooms() -> Vec<Sector> {
    let solid = |a: Vec2f, b: Vec2f| Wall::new(a, b, plain_texture(0), None);
    let open = |a: Vec2f, b: Vec2f, sector: usize| {
        Wall::new(a, b, plain_texture(0), Some(Portal::new(sector, plain_texture(0), plain_texture(0))))
    };
    vec![
        Sector {
            id: 0,
            walls: vec![
                solid(vec(0.0, 100.0), vec(60.0, 100.0)),
                open(vec(60.0, 100.0), vec(140.0, 100.0), 1),
                solid(vec(0.0, 0.0), vec(0.0, 100.0)),
            ],
            floor: flat(0.0),
            ceiling: flat(25.0),
        },
        Sector {
            id: 1,
            walls: vec![open(vec(140.0, 100.0), vec(60.0, 100.0), 0)],
            floor: flat(4.0),
            ceiling: flat(4.5),
        },
    ]
}

#[test]
fn player_who_crosses_a_portal_is_in_the_sector_behind_it() {
    let sectors = rooms();
    let mut player = Player::new(vec(100.0, 90.0), fx(15.0), 0);
    player.translate(vec(0.0, 20.0));
    assert_eq!(player.prev_position, vec(100.0, 90.0));
    player.track_sector(&sectors);
    assert_eq!(player.sector_index, 1);
    // The floor there lies 4 units higher.
    assert_eq!(player.camera.z, fx(19.0));
    assert_eq!(player.head_z, Player::new(Vec2f::zero(), fx(19.0), 0).head_z);
    // A step along the wall crosses nothing.
    let mut player = Player::new(vec(100.0, 90.0), fx(15.0), 0);
    player.translate(vec(20.0, 0.0));
    player.track_sector(&sectors);
    assert_eq!(player.sector_index, 0);
    assert_eq!(player.camera.z, fx(15.0));
}

#[test]
fn player_is_kept_out_of_walls() {
    let sectors = rooms();
    // Four units from the wall along the first axis, with a collider of
    // radius 10, moving towards the wall.
    let mut player = Player::new(vec(4.0, 50.0), fx(15.0), 0);
    player.velocity = vec(-8.0, 3.0);
    player.collide_walls(&sectors);
    assert!((as_f64(player.camera.position.x) - 10.0).abs() < 0.0001);
    assert_eq!(player.camera.position.y, fx(50.0));
    assert!((as_f64(player.collider.centre.x) - 10.0).abs() < 0.0001);
    // Half of the speed towards the wall is taken.
    assert!((as_f64(player.velocity.x) + 4.0).abs() < 0.0001);
    assert_eq!(player.velocity.y, fx(3.0));
    // The portal is too low to pass: its wall holds the player too.
    let mut player = Player::new(vec(100.0, 95.0), fx(15.0), 0);
    player.collide_walls(&sectors);
    assert!((as_f64(player.camera.position.y) - 90.0).abs() < 0.0001);
    // A player who fits through the portal is let through.
    let mut high = rooms();
    high[1].floor = flat(0.0);
    high[1].ceiling = flat(25.0);
    let mut player = Player::new(vec(100.0, 95.0), fx(15.0), 0);
    player.collide_walls(&high);
    assert_eq!(player.camera.position, vec(100.0, 95.0));
}

#[test]
fn player_moves_as_the_keys_ask() {
    let mut input = Input::new();
    input.mouse.grabbed = true;
    input.handle_event(&Event::KeyboardEvent(KeyboardEvent::KeyPressed(KeyCode::W)));
    input.handle_event(&Event::PointerEvent(PointerEvent::MouseMoved { delta: vec(2.0, 0.0) }));
    let mut player = Player::new(Vec2f::zero(), fx(15.0), 0);
    player.update_movement(fx(0.01), &input);
    // Pushed to 3 units a second, slowed by friction to 1.25.
    assert!(as_f64(player.velocity.x).abs() < 0.001);
    assert!((as_f64(player.velocity.y) - 1.25).abs() < 0.001);
    assert!((as_f64(player.camera.position.y) - 0.0125).abs() < 0.0001);
    assert!((as_f64(player.camera.yaw) - 0.002).abs() < 0.00001);
    assert!((as_f64(player.camera.yaw_sin) - 0.002f64.sin()).abs() < 0.00001);
    // Without the mouse grabbed the keys do nothing, and friction brings
    // the player to rest.
    input.mouse.grabbed = false;
    for _ in 0..80 {
        player.update_movement(fx(0.01), &input);
    }
    assert_eq!(player.velocity, Vec2f::zero());
    // The left shift key toggles the crouch.
    assert!(!player.crouch);
    input.handle_event(&Event::KeyboardEvent(KeyboardEvent::KeyPressed(KeyCode::ShiftLeft)));
    player.update_movement(fx(0.1), &input);
    assert!(player.crouch);
}

#[test]
fn pitch_stays_within_a_quarter_of_pi() {
    let mut camera = Camera::new(Vec2f::zero(), fx(0.0));
    camera.rotate(vec(0.0, 2.0));
    assert!((as_f64(camera.pitch) - std::f64::consts::FRAC_PI_4).abs() < 0.000001);
    assert!((as_f64(camera.pitch_tan) - 1.0).abs() < 0.00001);
    camera.rotate(vec(0.0, -5.0));
    assert!((as_f64(camera.pitch) + std::f64::consts::FRAC_PI_4).abs() < 0.000001);
    camera.rotate(vec(std::f64::consts::FRAC_PI_2, 0.0));
    assert!((as_f64(camera.direction.x) - 1.0).abs() < 0.00001);
    assert!(as_f64(camera.direction.y).abs() < 0.00001);
    camera.translate(vec(1.0, 2.0));
    assert_eq!(camera.position, vec(1.0, 2.0));
}

#[test]
fn circles_that_overlap_collide() {
    let a = Circle::new(vec(0.0, 0.0), fx(1.0));
    let b = Circle::new(vec(1.0, 0.0), fx(1.0));
    let hit = collision_circles(&a, &b).unwrap();
    assert_eq!(hit.normal(), vec(-1.0, 0.0));
    assert_eq!(hit.depth(), fx(1.0));
    assert_eq!(collision_circles(&a, &Circle::new(vec(5.0, 0.0), fx(1.0))), None);
    // Circles with one centre part along the first axis.
    let hit = collision_circles(&a, &a).unwrap();
    assert_eq!(hit.normal(), vec(1.0, 0.0));
    assert_eq!(hit.depth(), fx(2.0));
}

#[test]
fn circle_and_segment_collide_along_the_normal() {
    let circle = Circle::new(vec(5.0, 3.0), fx(4.0));
    let segment = Segment::new(vec(0.0, 0.0), vec(10.0, 0.0));
    let hit = collision_circle_segment(&circle, &segment).unwrap();
    assert_eq!(hit.normal(), vec(0.0, 1.0));
    assert_eq!(hit.depth(), fx(1.0));
    assert_eq!(collision_circle_segment(&Circle::new(vec(5.0, 9.0), fx(4.0)), &segment), None);
}

#[test]
fn polygons_collide_along_the_axis_of_least_overlap() {
    let square = |x: f64, y: f64| vec![vec(x, y), vec(x + 2.0, y), vec(x + 2.0, y + 2.0), vec(x, y + 2.0)];
    assert_eq!(sat_collision_polygons(&square(0.0, 0.0), &square(3.0, 0.0)), None);
    let hit = sat_collision_polygons(&square(0.0, 0.0), &square(1.5, 0.5)).unwrap();
    // The squares overlap by 0.5 across and by 1.5 up. The normals are as
    // long as the sides, 2, and so is the measure of the overlap: 1 along
    // the normal of the right side of the first square.
    assert_eq!(hit.depth(), fx(1.0));
    assert_eq!(hit.normal(), vec(-1.0, 0.0));
    let circle = Circle::new(vec(3.0, 1.0), fx(1.5));
    let hit = sat_collision_circle_polygon(&circle, &square(0.0, 0.0)).unwrap();
    assert_eq!(hit.normal(), vec(1.0, 1.0).normalise());
    assert_eq!(sat_collision_circle_polygon(&Circle::new(vec(9.0, 9.0), fx(1.0)), &square(0.0, 0.0)), None);
}

#[test]
fn colliders_hand_on_to_their_shapes() {
    let circle = Collider::from_circle(Circle::new(vec(0.0, 0.0), fx(1.0)));
    let other = Collider::from_circle(Circle::new(vec(1.0, 0.0), fx(1.0)));
    let segment = Collider::from_segment(Segment::new(vec(-5.0, 0.5), vec(5.0, 0.5)));
    let aabb = Collider::from_aabb(AABB::new(vec(0.0, 0.0), vec(2.0, 4.0)));
    assert_eq!(circle.intersects(&other).unwrap().depth(), fx(1.0));
    assert!(circle.intersects(&segment).is_some());
    assert!(segment.intersects(&circle).is_some());
    assert!(circle.contains_point(vec(0.5, 0.5)));
    assert!(aabb.contains_point(vec(1.0, 3.0)));
    assert_eq!(aabb.area(), fx(8.0));
    assert_eq!(aabb.centre(), vec(1.0, 2.0));
    assert_eq!(segment.points(), vec![vec(-5.0, 0.5), vec(5.0, 0.5)]);
    assert_eq!(circle.extents(), AABB::new(vec(-1.0, -1.0), vec(1.0, 1.0)));
    let mut body = RigidBody::new(aabb, fx(4.0), false, 7);
    assert_eq!(body.inv_mass, fx(0.25));
    assert_eq!(RigidBody::new(aabb, fx(4.0), true, 7).inv_mass, Fixed::zero());
    body.velocity = vec(2.0, -1.0);
    body.integrate_position(fx(0.5));
    assert_eq!(body.position, vec(1.0, -0.5));
    assert_eq!(body.bounds, AABB::new(vec(1.0, -0.5), vec(3.0, 3.5)));
    assert_eq!(body.collider, Collider::from_aabb(AABB::new(vec(1.0, -0.5), vec(3.0, 3.5))));
}
