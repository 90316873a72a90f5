use pseudo3d::bitmap::Bitmap;
use pseudo3d::camera::Camera;
use pseudo3d::colour::BGRA8;
use pseudo3d::fixed::Fixed;
use pseudo3d::maths::vec::Vec2f;
use pseudo3d::player::Player;
use pseudo3d::renderer::portal::PortalNode;
use pseudo3d::renderer::renderer::Renderer;
use pseudo3d::renderer::wall::WallRenderer;
use pseudo3d::surface::Plane;
use pseudo3d::surface::PlaneTexture;
use pseudo3d::surface::Portal;
use pseudo3d::surface::Sector;
use pseudo3d::surface::Sprite;
use pseudo3d::surface::Wall;
use pseudo3d::surface::WallTexture;
use pseudo3d::textures::Texture;

const WIDTH: usize = 160;
const HEIGHT: usize = 100;

const WALL: usize = 0;
const FLOOR: usize = 1;
const CEILING: usize = 2;
const BAND: usize = 3;
const FIGURE: usize = 4;

fn fx(v: f64) -> Fixed {
    Fixed::from_raw((v * 16777216.0).round() as i64)
}

fn as_f64(f: Fixed) -> f64 {
    f.raw as f64 / 16777216.0
}

fn vec(x: f64, y: f64) -> Vec2f {
    Vec2f::new(fx(x), fx(y))
}

fn solid(colour: BGRA8) -> Texture {
    Texture::from_bitmap(Bitmap::new(8, 8, vec![colour; 64])).unwrap()
}

/// Red walls, green floors, blue ceilings, yellow bands, and a figure that
/// is white in its left half and fully transparent in its right half.
fn textures() -> Vec<Texture> {
    let mut figure = Vec::new();
    for _y in 0..8 {
        for x in 0..8 {
            figure.push(if x < 4 { BGRA8::new(255, 255, 255, 255) } else { BGRA8::new(0, 0, 0, 0) });
        }
    }
    vec![
        solid(BGRA8::new(255, 0, 0, 255)),
        solid(BGRA8::new(0, 255, 0, 255)),
        solid(BGRA8::new(0, 0, 255, 255)),
        solid(BGRA8::new(255, 255, 0, 255)),
        Texture::from_bitmap(Bitmap::new(8, 8, figure)).unwrap(),
    ]
}

fn wall_texture(index: usize) -> WallTexture {
    WallTexture::new(index, Vec2f::zero(), Vec2f::uniform(fx(1.0)))
}

fn plane(height: f64, index: usize) -> Plane {
    Plane::new(
        fx(height),
        PlaneTexture::new(index, Vec2f::zero(), Vec2f::uniform(fx(1.0)), Fixed::zero()),
    )
}

fn solid_wall(a: Vec2f, b: Vec2f) -> Wall {
    Wall::new(a, b, wall_texture(WALL), None)
}

fn portal_wall(a: Vec2f, b: Vec2f, sector: usize) -> Wall {
    Wall::new(
        a,
        b,
        wall_texture(WALL),
        Some(Portal::new(sector, wall_texture(BAND), wall_texture(BAND))),
    )
}

/// A square room of 200 by 200 units with the eye's start in its middle.
fn one_room() -> Vec<Sector> {
    vec![Sector {
        id: 0,
        walls: vec![
            solid_wall(vec(0.0, 200.0), vec(200.0, 200.0)),
            solid_wall(vec(200.0, 200.0), vec(200.0, 0.0)),
            solid_wall(vec(200.0, 0.0), vec(0.0, 0.0)),
            solid_wall(vec(0.0, 0.0), vec(0.0, 200.0)),
        ],
        floor: plane(0.0, FLOOR),
        ceiling: plane(25.0, CEILING),
    }]
}

/// Room 0 from y = 0 to y = 100 and room 1 north of it from y = 100 to
/// y = 200, joined by a portal from x = 60 to x = 140.
fn two_rooms(next_floor: f64, next_ceiling: f64) -> Vec<Sector> {
    vec![
        Sector {
            id: 0,
            walls: vec![
                solid_wall(vec(0.0, 100.0), vec(60.0, 100.0)),
                portal_wall(vec(60.0, 100.0), vec(140.0, 100.0), 1),
                solid_wall(vec(140.0, 100.0), vec(200.0, 100.0)),
                solid_wall(vec(200.0, 100.0), vec(200.0, 0.0)),
                solid_wall(vec(200.0, 0.0), vec(0.0, 0.0)),
                solid_wall(vec(0.0, 0.0), vec(0.0, 100.0)),
            ],
            floor: plane(0.0, FLOOR),
            ceiling: plane(25.0, CEILING),
        },
        Sector {
            id: 1,
            walls: vec![
                solid_wall(vec(0.0, 200.0), vec(200.0, 200.0)),
                solid_wall(vec(200.0, 200.0), vec(200.0, 100.0)),
                solid_wall(vec(200.0, 100.0), vec(140.0, 100.0)),
                portal_wall(vec(140.0, 100.0), vec(60.0, 100.0), 0),
                solid_wall(vec(60.0, 100.0), vec(0.0, 100.0)),
                solid_wall(vec(0.0, 100.0), vec(0.0, 200.0)),
            ],
            floor: plane(next_floor, FLOOR),
            ceiling: plane(next_ceiling, CEILING),
        },
    ]
}

fn player_at(x: f64, y: f64, z: f64, sector: usize) -> Player {
    Player::new(vec(x, y), fx(z), sector)
}

fn renderer() -> Renderer {
    Renderer::new(WIDTH, HEIGHT, Fixed::from_int(75))
}

#[derive(Clone, Copy, Debug, PartialEq)]
enum Kind {
    Clear,
    Wall,
    Floor,
    Ceiling,
    Band,
    Figure,
}

fn kind(c: BGRA8) -> Kind {
    if c.a == 0 {
        Kind::Clear
    } else if c.r > 0 && c.g > 0 && c.b > 0 {
        Kind::Figure
    } else if c.r > 0 && c.g > 0 {
        Kind::Band
    } else if c.r > 0 {
        Kind::Wall
    } else if c.g > 0 {
        Kind::Floor
    } else {
        Kind::Ceiling
    }
}

fn column(renderer: &Renderer, x: usize) -> Vec<Kind> {
    (0..HEIGHT).map(|y| kind(renderer.framebuffer().get_pixel(x, y))).collect()
}

/// The kinds of a column from top to bottom, each kind once per run.
fn runs(kinds: &[Kind]) -> Vec<Kind> {
    let mut out: Vec<Kind> = Vec::new();
    for k in kinds {
        if out.last() != Some(k) {
            out.push(*k);
        }
    }
    out
}

#[test]
fn single_empty_sector_is_ceiling_wall_floor() {
    let textures = textures();
    let sectors = one_room();
    let player = player_at(100.0, 100.0, 15.0, 0);
    let mut renderer = renderer();
    renderer.update(&player, &textures, &sectors, &[]);
    for x in 0..WIDTH {
        let kinds = column(&renderer, x);
        assert_eq!(runs(&kinds), vec![Kind::Ceiling, Kind::Wall, Kind::Floor], "column {}", x);
    }
    for pixel in renderer.framebuffer().pixels() {
        assert_eq!(pixel.a, 255);
    }
    // Only the root node: the room has no portal.
    assert_eq!(renderer.portal_tree.nodes_len(), 1);
}

#[test]
fn wall_in_the_middle_of_the_screen_has_the_height_the_lens_gives() {
    let textures = textures();
    let sectors = one_room();
    let player = player_at(100.0, 100.0, 15.0, 0);
    let mut renderer = renderer();
    renderer.update(&player, &textures, &sectors, &[]);
    // The wall is 100 units away; its top is 10 units above the eye and its
    // bottom 15 units below.
    let focal_height = as_f64(renderer.state().focal_height());
    let top = (HEIGHT as f64 / 2.0 - 10.0 * focal_height / 100.0).floor() as usize;
    let bottom = (HEIGHT as f64 / 2.0 + 15.0 * focal_height / 100.0).floor() as usize;
    let kinds = column(&renderer, WIDTH / 2);
    let first_wall = kinds.iter().position(|k| *k == Kind::Wall).unwrap();
    let first_floor = kinds.iter().position(|k| *k == Kind::Floor).unwrap();
    assert!((first_wall as i64 - top as i64).abs() <= 1, "{} {}", first_wall, top);
    assert!((first_floor as i64 - bottom as i64).abs() <= 1, "{} {}", first_floor, bottom);
    let bounds = renderer.sector_renderer.wall_renderer.get_wall_bounds();
    assert_eq!(bounds.0[WIDTH / 2] as usize, first_wall);
    assert_eq!(bounds.1[WIDTH / 2] as usize, first_floor);
}

#[test]
fn two_updates_with_the_same_inputs_give_the_same_frame() {
    let textures = textures();
    let sectors = two_rooms(0.0, 20.0);
    let player = player_at(100.0, 30.0, 15.0, 0);
    let sprites = [Sprite::new(vec(100.0, 150.0), 1, wall_texture(FIGURE), fx(20.0), fx(20.0))];
    let mut renderer = renderer();
    renderer.update(&player, &textures, &sectors, &sprites);
    let first: Vec<BGRA8> = renderer.framebuffer().pixels().to_vec();
    renderer.update(&player, &textures, &sectors, &sprites);
    assert_eq!(renderer.framebuffer().pixels(), &first[..]);
    // A fresh renderer draws the same frame.
    let mut other = Renderer::new(WIDTH, HEIGHT, Fixed::from_int(75));
    other.update(&player, &textures, &sectors, &sprites);
    assert_eq!(other.framebuffer().pixels(), &first[..]);
}

#[test]
fn two_sectors_through_portal() {
    let textures = textures();
    // The ceiling of the room behind the portal is 5 units higher.
    let sectors = two_rooms(0.0, 30.0);
    let player = player_at(100.0, 30.0, 15.0, 0);
    let mut renderer = renderer();
    renderer.update(&player, &textures, &sectors, &[]);
    let nodes = &renderer.portal_tree.nodes;
    assert_eq!(nodes.len(), 2);
    assert_eq!((nodes[0].tree_depth, nodes[0].sector_index), (0, 0));
    assert_eq!((nodes[0].x_min, nodes[0].x_max), (0, WIDTH));
    assert_eq!((nodes[1].tree_depth, nodes[1].sector_index), (1, 1));
    assert!(nodes[1].x_min < nodes[1].x_max && nodes[1].x_max <= WIDTH);
    // The window behind the portal lies inside the window it is seen
    // through, in every column.
    let parent = renderer.portal_tree.get_bounds(0);
    let child = renderer.portal_tree.get_bounds(1);
    for x in nodes[1].x_min..nodes[1].x_max {
        assert!(parent.0[x] <= child.0[x]);
        assert!(child.0[x] <= child.1[x]);
        assert!(child.1[x] <= parent.1[x]);
    }
    // No column is left clear, and the walls of the first room stand at
    // the sides.
    for x in 0..WIDTH {
        let kinds = column(&renderer, x);
        assert!(!kinds.contains(&Kind::Clear), "column {}", x);
        assert!(!kinds.contains(&Kind::Band), "column {}", x);
    }
    assert_eq!(runs(&column(&renderer, 2)), vec![Kind::Ceiling, Kind::Wall, Kind::Floor]);
    // Through the opening the far wall of the second room is seen under
    // its ceiling, which lies higher on the screen than the ceiling of the
    // first room at the side.
    let middle = column(&renderer, WIDTH / 2);
    assert_eq!(runs(&middle), vec![Kind::Ceiling, Kind::Wall, Kind::Floor]);
    let far_top = middle.iter().position(|k| *k == Kind::Wall).unwrap();
    let near_top = column(&renderer, 2).iter().position(|k| *k == Kind::Wall).unwrap();
    assert!(far_top > near_top);
}

#[test]
fn lower_ceiling_behind_a_portal_shows_an_upper_band() {
    let textures = textures();
    let sectors = two_rooms(5.0, 20.0);
    let player = player_at(100.0, 30.0, 15.0, 0);
    let mut renderer = renderer();
    renderer.update(&player, &textures, &sectors, &[]);
    let middle = column(&renderer, WIDTH / 2);
    assert_eq!(
        runs(&middle),
        vec![Kind::Ceiling, Kind::Band, Kind::Ceiling, Kind::Wall, Kind::Floor, Kind::Band, Kind::Floor]
    );
    // The bands end where the window behind the portal begins and begin
    // where it ends.
    let child = renderer.portal_tree.get_bounds(1);
    let x = WIDTH / 2;
    let band_top = middle.iter().position(|k| *k == Kind::Band).unwrap();
    let band_end = middle.iter().skip(band_top).position(|k| *k != Kind::Band).unwrap() + band_top;
    assert_eq!(child.0[x] as usize, band_end);
    let lower_band = middle.iter().rposition(|k| *k == Kind::Band).unwrap();
    let lower_start = middle[..lower_band].iter().rposition(|k| *k != Kind::Band).unwrap() + 1;
    assert_eq!(child.1[x] as usize, lower_start);
}

#[test]
fn portal_to_a_room_of_the_same_heights_has_no_bands() {
    let textures = textures();
    let sectors = two_rooms(0.0, 25.0);
    let player = player_at(100.0, 30.0, 15.0, 0);
    let mut renderer = renderer();
    renderer.update(&player, &textures, &sectors, &[]);
    for x in 0..WIDTH {
        assert!(!column(&renderer, x).contains(&Kind::Band));
    }
    // The opening spans the whole portal: the window behind it is as tall
    // as the portal wall itself.
    let nodes = &renderer.portal_tree.nodes;
    let child = renderer.portal_tree.get_bounds(1);
    let focal_height = as_f64(renderer.state().focal_height());
    let top = (HEIGHT as f64 / 2.0 - 10.0 * focal_height / 70.0).floor() as i64;
    let bottom = (HEIGHT as f64 / 2.0 + 15.0 * focal_height / 70.0).floor() as i64;
    for x in nodes[1].x_min..nodes[1].x_max {
        assert!((child.0[x] as i64 - top).abs() <= 1);
        assert!((child.1[x] as i64 - bottom).abs() <= 1);
    }
}

#[test]
fn back_facing_wall_writes_no_pixel() {
    let textures = textures();
    let sectors = one_room();
    let mut renderer = renderer();
    let player = player_at(100.0, 100.0, 15.0, 0);
    renderer.state.update(&player.camera);
    renderer.state.framebuffer.fill(BGRA8::new(1, 2, 3, 4));
    let before: Vec<BGRA8> = renderer.framebuffer().pixels().to_vec();
    // The north wall with its ends the other way round.
    let wall = solid_wall(vec(200.0, 200.0), vec(0.0, 200.0));
    let mut node = PortalNode {
        tree_depth: 0,
        sector_index: 0,
        x_min: 0,
        x_max: WIDTH,
        depth_min: Fixed::zero(),
        depth_max: Fixed::zero(),
    };
    let lo = vec![0u16; WIDTH];
    let hi = vec![HEIGHT as u16; WIDTH];
    let mut walls = WallRenderer::new(renderer.state());
    walls.draw_wall(&mut renderer.state, &mut node, (&lo, &hi), &sectors[0], &wall, &textures[WALL]);
    assert_eq!(renderer.framebuffer().pixels(), &before[..]);
    // The same wall the right way round is drawn.
    let wall = solid_wall(vec(0.0, 200.0), vec(200.0, 200.0));
    walls.draw_wall(&mut renderer.state, &mut node, (&lo, &hi), &sectors[0], &wall, &textures[WALL]);
    assert!(renderer.framebuffer().pixels() != &before[..]);
}

#[test]
fn wall_pixels_stay_inside_the_window() {
    let textures = textures();
    let sectors = one_room();
    let mut renderer = renderer();
    let player = player_at(100.0, 100.0, 15.0, 0);
    renderer.state.update(&player.camera);
    let marker = BGRA8::new(1, 2, 3, 4);
    renderer.state.framebuffer.fill(marker);
    let wall = solid_wall(vec(0.0, 200.0), vec(200.0, 200.0));
    let mut node = PortalNode {
        tree_depth: 0,
        sector_index: 0,
        x_min: 40,
        x_max: 90,
        depth_min: Fixed::zero(),
        depth_max: Fixed::zero(),
    };
    let lo: Vec<u16> = (0..WIDTH).map(|x| 45 + (x % 3) as u16).collect();
    let hi: Vec<u16> = (0..WIDTH).map(|x| 55 - (x % 5) as u16).collect();
    let mut walls = WallRenderer::new(renderer.state());
    walls.draw_wall(&mut renderer.state, &mut node, (&lo, &hi), &sectors[0], &wall, &textures[WALL]);
    let bounds = walls.get_wall_bounds();
    for x in 0..WIDTH {
        for y in 0..HEIGHT {
            let inside = 40 <= x && x < 90 && lo[x] as usize <= y && y < hi[x] as usize;
            let drawn = renderer.framebuffer().get_pixel(x, y) != marker;
            assert_eq!(drawn, inside, "{} {}", x, y);
        }
        if 40 <= x && x < 90 {
            assert!(lo[x] <= bounds.0[x] && bounds.0[x] <= bounds.1[x] && bounds.1[x] <= hi[x]);
        }
    }
}

#[test]
fn sprite_behind_portal_is_seen_only_through_the_opening() {
    let textures = textures();
    let sectors = two_rooms(0.0, 25.0);
    let player = player_at(100.0, 30.0, 15.0, 0);
    // A wide figure in the second room, wider than the portal.
    let sprites = [Sprite::new(vec(100.0, 150.0), 1, wall_texture(FIGURE), fx(160.0), fx(12.0))];
    let mut plain = renderer();
    plain.update(&player, &textures, &sectors, &[]);
    let mut renderer = renderer();
    renderer.update(&player, &textures, &sectors, &sprites);
    let node = renderer.portal_tree.nodes[1];
    let child = renderer.portal_tree.get_bounds(1);
    let mut seen = 0;
    for x in 0..WIDTH {
        for y in 0..HEIGHT {
            let with = renderer.framebuffer().get_pixel(x, y);
            let without = plain.framebuffer().get_pixel(x, y);
            if kind(with) == Kind::Figure {
                seen += 1;
                assert!(node.x_min <= x && x < node.x_max);
                assert!(child.0[x] as usize <= y && y < child.1[x] as usize);
            } else {
                // Where the figure is not seen, or is fully transparent,
                // the frame is as without it.
                assert_eq!(with, without);
            }
        }
    }
    assert!(seen > 0);
    // The figure is cut by the sides of the opening.
    assert_eq!(kind(renderer.framebuffer().get_pixel(node.x_min, HEIGHT / 2 + 4)), Kind::Figure);
    assert!(column(&renderer, 2).iter().all(|k| *k != Kind::Figure));
}

#[test]
fn sprite_in_a_sector_that_is_not_seen_is_dropped() {
    let textures = textures();
    let sectors = one_room();
    let player = player_at(100.0, 100.0, 15.0, 0);
    let sprites = [Sprite::new(vec(100.0, 150.0), 7, wall_texture(FIGURE), fx(20.0), fx(12.0))];
    let mut plain = renderer();
    plain.update(&player, &textures, &sectors, &[]);
    let mut renderer = renderer();
    renderer.update(&player, &textures, &sectors, &sprites);
    assert_eq!(renderer.framebuffer().pixels(), plain.framebuffer().pixels());
}

#[test]
fn pitch_extremes() {
    let textures = textures();
    let sectors = one_room();
    for sign in [1.0, -1.0] {
        let mut player = player_at(100.0, 100.0, 2.0, 0);
        player.camera = Camera {
            pitch: fx(sign * std::f64::consts::FRAC_PI_4),
            pitch_tan: fx(sign),
            ..player.camera
        };
        let mut renderer = renderer();
        renderer.update(&player, &textures, &sectors, &[]);
        let focal_height = renderer.state().focal_height();
        if sign > 0.0 {
            assert_eq!(renderer.state().pitch_shear(), focal_height);
        } else {
            assert_eq!(renderer.state().pitch_shear(), focal_height.neg());
        }
        let ratios = &renderer.sector_renderer.plane_renderer.focal_height_ratios;
        let horizon = HEIGHT as f64 / 2.0 + as_f64(renderer.state().pitch_shear());
        let zero_rows = ratios.iter().filter(|r| r.raw == 0).count();
        if horizon.fract() == 0.0 && 0.0 <= horizon && horizon < HEIGHT as f64 {
            assert_eq!(zero_rows, 1);
        } else {
            assert_eq!(zero_rows, 0);
        }
        let floor = renderer.framebuffer().pixels().iter().filter(|p| kind(**p) == Kind::Floor).count();
        let ceiling =
            renderer.framebuffer().pixels().iter().filter(|p| kind(**p) == Kind::Ceiling).count();
        if sign < 0.0 {
            // Looking down, the floor fills most of the view.
            assert!(floor > WIDTH * HEIGHT / 2, "{}", floor);
        } else {
            assert!(ceiling > floor);
        }
    }
}

#[test]
fn horizon_row_has_ratio_zero_and_is_skipped() {
    let textures = textures();
    let sectors = one_room();
    let player = player_at(100.0, 100.0, 15.0, 0);
    let mut renderer = renderer();
    renderer.update(&player, &textures, &sectors, &[]);
    let ratios = &renderer.sector_renderer.plane_renderer.focal_height_ratios;
    assert_eq!(ratios[HEIGHT / 2], Fixed::zero());
    assert_eq!(ratios.iter().filter(|r| r.raw == 0).count(), 1);
    // One row below the horizon the ratio is the focal height itself.
    assert_eq!(ratios[HEIGHT / 2 + 1], renderer.state().focal_height());
}

#[test]
fn set_viewport_with_the_same_size_changes_nothing() {
    let textures = textures();
    let sectors = one_room();
    let player = player_at(100.0, 100.0, 15.0, 0);
    let mut renderer = renderer();
    renderer.update(&player, &textures, &sectors, &[]);
    let before: Vec<BGRA8> = renderer.framebuffer().pixels().to_vec();
    let bounds: Vec<u16> = renderer.sector_renderer.wall_renderer.get_wall_bounds().0.to_vec();
    renderer.set_viewport(WIDTH, HEIGHT);
    assert_eq!(renderer.framebuffer().pixels(), &before[..]);
    assert_eq!(renderer.sector_renderer.wall_renderer.get_wall_bounds().0, &bounds[..]);
    assert_eq!(renderer.portal_tree.nodes_len(), 1);
    // Another size makes the buffers anew.
    renderer.set_viewport(80, 50);
    assert_eq!(renderer.framebuffer().width(), 80);
    assert_eq!(renderer.framebuffer().height(), 50);
    assert_eq!(renderer.framebuffer().pixels().len(), 80 * 50);
    assert_eq!(renderer.sector_renderer.wall_renderer.get_wall_bounds().0.len(), 80);
    assert_eq!(renderer.sector_renderer.plane_renderer.span_start.len(), 50);
    renderer.update(&player, &textures, &sectors, &[]);
    assert!(renderer.framebuffer().pixels().iter().all(|p| p.a == 255));
}

#[test]
fn set_fov_with_the_same_angle_changes_nothing() {
    let mut renderer = renderer();
    let focal_width = renderer.state().focal_width();
    let focal_height = renderer.state().focal_height();
    let frustum: Vec<Vec2f> = renderer.state().frustum.points().to_vec();
    renderer.set_fov(Fixed::from_int(75));
    assert_eq!(renderer.state().focal_width(), focal_width);
    assert_eq!(renderer.state().focal_height(), focal_height);
    assert_eq!(renderer.state().frustum.points(), &frustum[..]);
    renderer.set_fov(Fixed::from_int(90));
    assert_eq!(renderer.state().h_fov(), Fixed::from_int(90));
    // At 90 degrees the focal width is half the width of the screen.
    assert!((as_f64(renderer.state().focal_width()) - 80.0).abs() < 0.01);
    assert!(as_f64(renderer.state().focal_width()) < as_f64(focal_width));
}

#[test]
fn focal_lengths_follow_the_field_of_view() {
    let renderer = renderer();
    let h_fov = 75.0f64;
    let v_fov = h_fov / (WIDTH as f64 / HEIGHT as f64);
    let focal_width = (WIDTH as f64 / 2.0) / (h_fov / 2.0).to_radians().tan();
    let focal_height = (HEIGHT as f64 / 2.0) / (v_fov / 2.0).to_radians().tan();
    assert!((as_f64(renderer.state().focal_width()) - focal_width).abs() < 0.01);
    assert!((as_f64(renderer.state().focal_height()) - focal_height).abs() < 0.01);
    assert!((as_f64(renderer.state().v_fov()) - v_fov).abs() < 0.0001);
}

#[test]
fn debug_outline_marks_the_edges_of_every_window() {
    let textures = textures();
    let sectors = two_rooms(0.0, 25.0);
    let player = player_at(100.0, 30.0, 15.0, 0);
    let mut renderer = renderer();
    renderer.state_mut().debug = true;
    renderer.update(&player, &textures, &sectors, &[]);
    let root = BGRA8::new(64, 32, 192, 255);
    let child = BGRA8::new(0, 96, 224, 255);
    for x in 0..WIDTH {
        assert_eq!(renderer.framebuffer().get_pixel(x, 0), root);
        assert_eq!(renderer.framebuffer().get_pixel(x, HEIGHT - 1), root);
    }
    let node = renderer.portal_tree.nodes[1];
    let bounds = renderer.portal_tree.get_bounds(1);
    for x in node.x_min..node.x_max {
        assert_eq!(renderer.framebuffer().get_pixel(x, bounds.0[x] as usize), child);
        assert_eq!(renderer.framebuffer().get_pixel(x, bounds.1[x] as usize - 1), child);
    }
    for y in bounds.0[node.x_min]..bounds.1[node.x_min] {
        assert_eq!(renderer.framebuffer().get_pixel(node.x_min, y as usize), child);
    }
}

#[test]
fn sibling_windows_share_no_column() {
    let textures = textures();
    // A room with two portals in its north wall, each into a room of its
    // own.
    let back = |id: usize, x0: f64, x1: f64| Sector {
        id,
        walls: vec![
            solid_wall(vec(x0, 200.0), vec(x1, 200.0)),
            solid_wall(vec(x1, 200.0), vec(x1, 100.0)),
            portal_wall(vec(x1, 100.0), vec(x0, 100.0), 0),
            solid_wall(vec(x0, 100.0), vec(x0, 200.0)),
        ],
        floor: plane(0.0, FLOOR),
        ceiling: plane(25.0, CEILING),
    };
    let sectors = vec![
        Sector {
            id: 0,
            walls: vec![
                solid_wall(vec(0.0, 100.0), vec(20.0, 100.0)),
                portal_wall(vec(20.0, 100.0), vec(80.0, 100.0), 1),
                solid_wall(vec(80.0, 100.0), vec(120.0, 100.0)),
                portal_wall(vec(120.0, 100.0), vec(180.0, 100.0), 2),
                solid_wall(vec(180.0, 100.0), vec(200.0, 100.0)),
                solid_wall(vec(200.0, 100.0), vec(200.0, 0.0)),
                solid_wall(vec(200.0, 0.0), vec(0.0, 0.0)),
                solid_wall(vec(0.0, 0.0), vec(0.0, 100.0)),
            ],
            floor: plane(0.0, FLOOR),
            ceiling: plane(25.0, CEILING),
        },
        back(1, 20.0, 80.0),
        back(2, 120.0, 180.0),
    ];
    let player = player_at(100.0, 20.0, 15.0, 0);
    let mut renderer = renderer();
    renderer.update(&player, &textures, &sectors, &[]);
    let nodes = &renderer.portal_tree.nodes;
    assert_eq!(nodes.len(), 3);
    assert_eq!((nodes[1].tree_depth, nodes[1].sector_index), (1, 1));
    assert_eq!((nodes[2].tree_depth, nodes[2].sector_index), (1, 2));
    assert!(nodes[1].x_min < nodes[1].x_max);
    assert!(nodes[1].x_max <= nodes[2].x_min);
    assert!(nodes[2].x_min < nodes[2].x_max);
    for x in 0..WIDTH {
        assert!(!column(&renderer, x).contains(&Kind::Clear), "column {}", x);
    }
}

#[test]
fn every_portal_in_view_gets_a_window_however_many_there_are() {
    let textures = textures();
    // A room whose north wall is 2400 portals side by side, each into a
    // room of its own.
    let count = 2400;
    let at = |i: usize| i as f64 * 200.0 / count as f64;
    let mut front: Vec<Wall> = (0..count)
        .map(|i| portal_wall(vec(at(i), 100.0), vec(at(i + 1), 100.0), i + 1))
        .collect();
    front.push(solid_wall(vec(200.0, 100.0), vec(200.0, 0.0)));
    front.push(solid_wall(vec(200.0, 0.0), vec(0.0, 0.0)));
    front.push(solid_wall(vec(0.0, 0.0), vec(0.0, 100.0)));
    let mut sectors =
        vec![Sector { id: 0, walls: front, floor: plane(0.0, FLOOR), ceiling: plane(25.0, CEILING) }];
    for i in 0..count {
        let (x0, x1) = (at(i), at(i + 1));
        sectors.push(Sector {
            id: i + 1,
            walls: vec![
                solid_wall(vec(x0, 200.0), vec(x1, 200.0)),
                solid_wall(vec(x1, 200.0), vec(x1, 100.0)),
                portal_wall(vec(x1, 100.0), vec(x0, 100.0), 0),
                solid_wall(vec(x0, 100.0), vec(x0, 200.0)),
            ],
            floor: plane(0.0, FLOOR),
            ceiling: plane(25.0, CEILING),
        });
    }
    let player = player_at(100.0, 20.0, 15.0, 0);
    let mut renderer = renderer();
    renderer.update(&player, &textures, &sectors, &[]);
    let nodes = &renderer.portal_tree.nodes;
    // More than half of the portals are in view, each with a node.
    assert!(nodes.len() > 1200, "{}", nodes.len());
    assert_eq!((nodes[0].tree_depth, nodes[0].sector_index), (0, 0));
    for i in 1..nodes.len() {
        assert_eq!(nodes[i].tree_depth, 1);
        assert!(nodes[i].x_min <= nodes[i].x_max && nodes[i].x_max <= WIDTH);
        if i > 1 {
            assert_eq!(nodes[i].sector_index, nodes[i - 1].sector_index + 1);
            assert!(nodes[i - 1].x_max <= nodes[i].x_min);
        }
    }
}

#[test]
fn walls_and_planes_are_opaque_and_sprites_keep_their_alpha() {
    // Every texture is half transparent.
    let half = |r: u8, g: u8, b: u8| solid(BGRA8::new(r, g, b, 128));
    let textures = vec![
        half(255, 0, 0),
        half(0, 255, 0),
        half(0, 0, 255),
        half(255, 255, 0),
        half(255, 255, 255),
    ];
    let sectors = two_rooms(5.0, 20.0);
    let player = player_at(100.0, 30.0, 15.0, 0);
    let mut plain = renderer();
    plain.update(&player, &textures, &sectors, &[]);
    assert!(plain.framebuffer().pixels().iter().all(|p| p.a == 255));
    let sprites = [Sprite::new(vec(100.0, 150.0), 1, wall_texture(FIGURE), fx(20.0), fx(12.0))];
    let mut renderer = renderer();
    renderer.update(&player, &textures, &sectors, &sprites);
    let figure = renderer.framebuffer().pixels().iter().filter(|p| p.a == 128).count();
    assert!(figure > 0);
    assert!(renderer.framebuffer().pixels().iter().all(|p| p.a == 255 || p.a == 128));
}

#[test]
fn frame_starts_from_a_clear_screen() {
    let textures = textures();
    // A room without a north wall: where the wall would stand nothing is
    // drawn.
    let mut sectors = one_room();
    sectors[0].walls.remove(0);
    let player = player_at(100.0, 100.0, 15.0, 0);
    let mut renderer = renderer();
    renderer.state.framebuffer.fill(BGRA8::new(9, 9, 9, 9));
    renderer.update(&player, &textures, &sectors, &[]);
    assert!(renderer.framebuffer().pixels().iter().all(|p| *p == BGRA8::clear()));
}
