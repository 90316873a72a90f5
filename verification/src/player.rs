//! The player: where the frame is seen from.

use vstd::prelude::*;
use crate::camera::Camera;
use crate::fixed::Fixed;
use crate::input::Input;
use crate::input::KeyCode;
use crate::maths::segment::Segment;
use crate::surface::Sector;
use crate::surface::Wall;
use crate::maths::circle::Circle;
use crate::maths::vec::Vec2f;

verus! {

/// Raw radius of the player's collider, `10`.
pub const PLAYER_RADIUS_RAW: i64 = 0xA00_0000;

/// Raw height of the player, `15`.
pub const PLAYER_HEIGHT_RAW: i64 = 0xF00_0000;

/// Raw value of `0.2`.
pub const FIFTH_RAW: i64 = 3355443;

/// Raw value of `0.6`.
pub const THREE_FIFTHS_RAW: i64 = 10066330;

/// The player: the camera, the sector the camera is in, and what movement
/// needs.
#[derive(Clone, Copy, Debug, PartialEq, Eq, Structural)]
pub struct Player {
    pub camera: Camera,
    pub sector_index: usize,
    pub collider: Circle,
    pub prev_position: Vec2f,
    pub velocity: Vec2f,
    pub crouch: bool,
    pub head_z: Fixed,
    pub knee_z: Fixed,
}

impl Player {
    pub open spec fn spec_new(position: Vec2f, z: Fixed, sector_index: usize) -> Player {
        let height = Fixed { raw: PLAYER_HEIGHT_RAW };
        Player {
            camera: Camera::spec_new(position, z),
            sector_index,
            collider: Circle { centre: position, radius: Fixed { raw: PLAYER_RADIUS_RAW } },
            prev_position: position,
            velocity: Vec2f::spec_zero(),
            crouch: false,
            head_z: z.spec_plus(height.spec_times(Fixed { raw: FIFTH_RAW })),
            knee_z: z.spec_minus(height.spec_times(Fixed { raw: THREE_FIFTHS_RAW })),
        }
    }

    /// A player who stands still at `position` with the eye at height `z`
    /// in sector `sector_index`.
    #[verifier::when_used_as_spec(spec_new)]
    pub fn new(position: Vec2f, z: Fixed, sector_index: usize) -> (r: Player)
        ensures
            r == Self::spec_new(position, z, sector_index),
    {
        let height = Fixed { raw: PLAYER_HEIGHT_RAW };
        Player {
            camera: Camera::new(position, z),
            sector_index,
            collider: Circle::new(position, Fixed { raw: PLAYER_RADIUS_RAW }),
            prev_position: position,
            velocity: Vec2f::zero(),
            crouch: false,
            head_z: z.plus(height.times(Fixed { raw: FIFTH_RAW })),
            knee_z: z.minus(height.times(Fixed { raw: THREE_FIFTHS_RAW })),
        }
    }

    /// Stands up if crouching, crouches if standing.
    pub fn toggle_crouch(&mut self)
        ensures
            *final(self) == (Player { crouch: !old(self).crouch, ..*old(self) }),
    {
        self.crouch = !self.crouch;
    }

    /// Moves the player by `translation` and remembers where the player
    /// was.
    pub fn translate(&mut self, translation: Vec2f)
        ensures
            *final(self) == (Player {
                prev_position: old(self).camera.position,
                collider: Circle {
                    centre: old(self).collider.centre.spec_plus(translation),
                    radius: old(self).collider.radius,
                },
                camera: Camera {
                    position: old(self).camera.position.spec_plus(translation),
                    ..old(self).camera
                },
                ..*old(self)
            }),
    {
        self.prev_position = self.camera.position;
        self.collider.translate(translation);
        self.camera.translate(translation);
    }

    /// Turns the camera of the player.
    pub fn rotate(&mut self, rotation: Vec2f)
        ensures
            *final(self) == (Player {
                camera: old(self).camera.spec_rotated(rotation),
                ..*old(self)
            }),
    {
        self.camera.rotate(rotation);
    }
}

/// Raw value of the pull of friction, `175`.
pub const FRICTION_RAW: i64 = 0xAF00_0000;

/// Raw value of the push of a key, `300`.
pub const IMPULSE_RAW: i64 = 0x1_2C00_0000;

/// Raw value of the greatest speed, `50`.
pub const MAX_SPEED_RAW: i64 = 0x3200_0000;

/// Raw value of the speed below which the player stands still, about
/// `0.0001`.
pub const REST_SPEED_RAW: i64 = 1678;

/// Raw value of how far the view turns across for each unit the mouse
/// moves, `0.1`.
pub const MOUSE_ACROSS_RAW: i64 = 1677722;

/// Raw value of how far the view turns up or down for each unit the mouse
/// moves, `0.05`.
pub const MOUSE_UPWARD_RAW: i64 = 838861;

/// What of the keyboard and the mouse moves the player.
#[derive(Clone, Copy, Debug, PartialEq, Eq, Structural)]
pub struct Controls {
    pub grabbed: bool,
    pub forward: bool,
    pub backward: bool,
    pub left: bool,
    pub right: bool,
    pub crouch: bool,
    pub mouse_delta: Vec2f,
}

impl Controls {
    pub open spec fn spec_of(input: &Input) -> Controls {
        Controls {
            grabbed: input.mouse.grabbed,
            forward: input.keyboard.key_states@[KeyCode::W.spec_index() as int].held,
            backward: input.keyboard.key_states@[KeyCode::S.spec_index() as int].held,
            left: input.keyboard.key_states@[KeyCode::A.spec_index() as int].held,
            right: input.keyboard.key_states@[KeyCode::D.spec_index() as int].held,
            crouch: input.keyboard.key_states@[KeyCode::ShiftLeft.spec_index() as int].pressed,
            mouse_delta: Vec2f { x: input.mouse.delta_x, y: input.mouse.delta_y },
        }
    }

    /// The controls as the keyboard and the mouse have them: W, S, A and D
    /// held, the left shift key pressed, and how far the mouse moved.
    #[verifier::when_used_as_spec(spec_of)]
    pub fn of(input: &Input) -> (r: Controls)
        requires
            input.wf(),
        ensures
            r == Self::spec_of(input),
    {
        Controls {
            grabbed: input.mouse.is_grabbed(),
            forward: input.keyboard.is_key_held(KeyCode::W),
            backward: input.keyboard.is_key_held(KeyCode::S),
            left: input.keyboard.is_key_held(KeyCode::A),
            right: input.keyboard.is_key_held(KeyCode::D),
            crouch: input.keyboard.is_key_pressed(KeyCode::ShiftLeft),
            mouse_delta: input.mouse.get_delta(),
        }
    }
}

impl Player {
    /// The push that the keys give: along the view for W, against it for
    /// S, to the left for A and to the right for D, of the length of the
    /// impulse.
    pub open spec fn spec_impulse(self, controls: Controls) -> Vec2f {
        let along = if controls.forward {
            self.camera.direction
        } else if controls.backward {
            self.camera.direction.spec_neg()
        } else {
            Vec2f::spec_zero()
        };
        let both = if controls.left {
            along.spec_plus(self.camera.direction.spec_perpendicular())
        } else if controls.right {
            along.spec_minus(self.camera.direction.spec_perpendicular())
        } else {
            along
        };
        both.spec_normalise().spec_scaled(Fixed { raw: IMPULSE_RAW })
    }

    /// Computes [`Player::spec_impulse`].
    #[verifier::when_used_as_spec(spec_impulse)]
    pub fn impulse(self, controls: Controls) -> (r: Vec2f)
        ensures
            r == self.spec_impulse(controls),
    {
        let along = if controls.forward {
            self.camera.direction
        } else if controls.backward {
            self.camera.direction.neg()
        } else {
            Vec2f::zero()
        };
        let both = if controls.left {
            along.plus(self.camera.direction.perpendicular())
        } else if controls.right {
            along.minus(self.camera.direction.perpendicular())
        } else {
            along
        };
        both.normalise().scaled(Fixed { raw: IMPULSE_RAW })
    }

    /// The velocity after `delta_seconds`: pushed by `impulse`, slowed by
    /// friction, held to the greatest speed, and brought to rest when it is
    /// next to nothing.
    pub open spec fn spec_next_velocity(self, impulse: Vec2f, delta_seconds: Fixed) -> Vec2f {
        let pushed = self.velocity.spec_plus(impulse.spec_scaled(delta_seconds));
        let friction = pushed.spec_divided(
            pushed.spec_magnitude().spec_max(Fixed::spec_one()),
        ).spec_neg().spec_scaled(Fixed { raw: FRICTION_RAW });
        let slowed = pushed.spec_plus(friction.spec_scaled(delta_seconds));
        let speed = slowed.spec_magnitude();
        let held = if speed.raw > MAX_SPEED_RAW {
            slowed.spec_divided(speed).spec_scaled(Fixed { raw: MAX_SPEED_RAW })
        } else {
            slowed
        };
        if held.spec_magnitude().raw < REST_SPEED_RAW {
            Vec2f::spec_zero()
        } else {
            held
        }
    }

    /// Computes [`Player::spec_next_velocity`].
    #[verifier::when_used_as_spec(spec_next_velocity)]
    pub fn next_velocity(self, impulse: Vec2f, delta_seconds: Fixed) -> (r: Vec2f)
        ensures
            r == self.spec_next_velocity(impulse, delta_seconds),
    {
        let pushed = self.velocity.plus(impulse.scaled(delta_seconds));
        let friction = pushed.divided(pushed.magnitude().max(Fixed::one())).neg().scaled(
            Fixed { raw: FRICTION_RAW },
        );
        let slowed = pushed.plus(friction.scaled(delta_seconds));
        let speed = slowed.magnitude();
        let held = if speed.raw > MAX_SPEED_RAW {
            slowed.divided(speed).scaled(Fixed { raw: MAX_SPEED_RAW })
        } else {
            slowed
        };
        if held.magnitude().raw < REST_SPEED_RAW {
            Vec2f::zero()
        } else {
            held
        }
    }

    /// The player after `delta_seconds` under `controls`: while the mouse
    /// is grabbed the keys push and the mouse turns; the velocity follows,
    /// the player turns and moves, and the crouch key toggles the crouch.
    pub open spec fn spec_moved(self, delta_seconds: Fixed, controls: Controls) -> Player {
        let impulse = if controls.grabbed {
            self.spec_impulse(controls)
        } else {
            Vec2f::spec_zero()
        };
        let mouse_delta = if controls.grabbed {
            Vec2f { x: controls.mouse_delta.x, y: controls.mouse_delta.y.spec_neg() }
        } else {
            Vec2f::spec_zero()
        };
        let velocity = self.spec_next_velocity(impulse, delta_seconds);
        let translation = velocity.spec_scaled(delta_seconds);
        let rotation = mouse_delta.spec_times(
            Vec2f { x: Fixed { raw: MOUSE_ACROSS_RAW }, y: Fixed { raw: MOUSE_UPWARD_RAW } },
        ).spec_scaled(delta_seconds);
        Player {
            velocity,
            prev_position: self.camera.position,
            collider: Circle {
                centre: self.collider.centre.spec_plus(translation),
                radius: self.collider.radius,
            },
            camera: Camera {
                position: self.camera.position.spec_plus(translation),
                ..self.camera.spec_rotated(rotation)
            },
            crouch: if controls.crouch {
                !self.crouch
            } else {
                self.crouch
            },
            ..self
        }
    }

    /// Moves the player for `delta_seconds` as the keyboard and the mouse
    /// ask.
    pub fn update_movement(&mut self, delta_seconds: Fixed, input: &Input)
        requires
            input.wf(),
        ensures
            *final(self) == old(self).spec_moved(delta_seconds, Controls::spec_of(input)),
    {
        let controls = Controls::of(input);
        let mut impulse = Vec2f::zero();
        let mut mouse_delta = Vec2f::zero();
        if controls.grabbed {
            impulse = self.impulse(controls);
            // Up is positive for the view and negative on the screen.
            mouse_delta = Vec2f { x: controls.mouse_delta.x, y: controls.mouse_delta.y.neg() };
        }
        self.velocity = self.next_velocity(impulse, delta_seconds);
        let translation = self.velocity.scaled(delta_seconds);
        let rotation = mouse_delta.times(
            Vec2f { x: Fixed { raw: MOUSE_ACROSS_RAW }, y: Fixed { raw: MOUSE_UPWARD_RAW } },
        ).scaled(delta_seconds);
        self.rotate(rotation);
        self.translate(translation);
        if controls.crouch {
            self.toggle_crouch();
        }
    }

    /// The player stepped through a portal into `sector`, whose floor lies
    /// `z_delta` higher.
    pub open spec fn spec_entered(self, sector: usize, z_delta: Fixed) -> Player {
        Player {
            camera: Camera { z: self.camera.z.spec_plus(z_delta), ..self.camera },
            head_z: self.head_z.spec_plus(z_delta),
            knee_z: self.knee_z.spec_plus(z_delta),
            sector_index: sector,
            ..self
        }
    }

    /// The last step of the player crossed `wall`: the step and the wall
    /// can be tested exactly, and cross.
    pub open spec fn spec_crossed(self, wall: &Wall) -> bool {
        &&& self.camera.position.bounded()
        &&& self.prev_position.bounded()
        &&& wall.segment.bounded()
        &&& Segment { a: self.camera.position, b: self.prev_position }.spec_intersects(
            &wall.segment,
        )
    }

    /// The player after the sector has been tracked from wall `i` of the
    /// player's sector on: the first portal that the last step crossed
    /// takes the player into its sector.
    pub open spec fn spec_tracked(self, sectors: Seq<Sector>, i: int) -> Player
        decreases sectors[self.sector_index as int].walls@.len() - i,
    {
        let walls = sectors[self.sector_index as int].walls@;
        if i < 0 || i >= walls.len() {
            self
        } else if walls[i].portal is Some && self.spec_crossed(&walls[i]) {
            self.spec_entered(
                walls[i].portal.unwrap().sector,
                sectors[walls[i].portal.unwrap().sector as int].floor.height.spec_minus(
                    sectors[self.sector_index as int].floor.height,
                ),
            )
        } else {
            self.spec_tracked(sectors, i + 1)
        }
    }

    /// Finds the sector that the player is in after a step: if the step
    /// crossed a portal of the player's sector, the player is in the sector
    /// behind it and stands as much higher as its floor lies higher.
    pub fn track_sector(&mut self, sectors: &[Sector])
        requires
            old(self).sector_index < sectors@.len(),
            forall|s: int, w: int|
                0 <= s < sectors@.len() && 0 <= w < sectors@[s].walls@.len() && (
                #[trigger] sectors@[s].walls@[w]).portal is Some ==> sectors@[s].walls@[w].portal.unwrap().sector
                    < sectors@.len(),
        ensures
            *final(self) == old(self).spec_tracked(sectors@, 0),
            final(self).sector_index < sectors@.len(),
    {
        let sector = &sectors[self.sector_index];
        let step = Segment::new(self.camera.position, self.prev_position);
        let exact: bool = self.camera.position.is_bounded() && self.prev_position.is_bounded();
        let mut i: usize = 0;
        while i < sector.walls.len()
            invariant
                i <= sector.walls@.len(),
                *self == *old(self),
                self.sector_index < sectors@.len(),
                *sector == sectors@[self.sector_index as int],
                step == (Segment { a: self.camera.position, b: self.prev_position }),
                exact == (self.camera.position.bounded() && self.prev_position.bounded()),
                forall|s: int, w: int|
                    0 <= s < sectors@.len() && 0 <= w < sectors@[s].walls@.len() && (
                    #[trigger] sectors@[s].walls@[w]).portal is Some ==> sectors@[s].walls@[w].portal.unwrap().sector
                        < sectors@.len(),
                self.spec_tracked(sectors@, i as int) == old(self).spec_tracked(sectors@, 0),
            decreases sector.walls@.len() - i,
        {
            let wall = &sector.walls[i];
            if let Some(portal) = wall.portal {
                if exact && wall.segment.a.is_bounded() && wall.segment.b.is_bounded()
                    && step.intersects(&wall.segment) {
                    assert(sectors@[self.sector_index as int].walls@[i as int].portal is Some);
                    let z_delta = sectors[portal.sector].floor.height.minus(sector.floor.height);
                    self.camera.z = self.camera.z.plus(z_delta);
                    self.head_z = self.head_z.plus(z_delta);
                    self.knee_z = self.knee_z.plus(z_delta);
                    self.sector_index = portal.sector;
                    return ;
                }
            }
            i = i + 1;
        }
    }

    /// Whether the player fits through the portal: the head below the
    /// ceiling and the knee above the floor of the sector behind it.
    pub open spec fn spec_fits(self, next: &Sector) -> bool {
        self.head_z.raw < next.ceiling.height.raw && self.knee_z.raw > next.floor.height.raw
    }

    /// The player after meeting `wall`: a wall further away than the radius
    /// of the collider, or a portal that the player fits through, leaves
    /// the player alone, and so does any wall while the player stands
    /// beyond the coordinate limit; any other wall pushes the player out
    /// along its normal and takes half of the speed towards it.
    pub open spec fn spec_collided(self, wall: &Wall, sectors: Seq<Sector>) -> Player {
        let distance_sq = wall.segment.spec_point_distance_sq(self.camera.position);
        let radius = self.collider.radius;
        if !self.camera.position.bounded() {
            self
        } else if !(distance_sq.raw <= radius.spec_times(radius).raw) {
            self
        } else if wall.portal is Some && self.spec_fits(
            &sectors[wall.portal.unwrap().sector as int],
        ) {
            self
        } else {
            let depth = radius.spec_minus(distance_sq.spec_sqrt());
            let translation = wall.normal.spec_scaled(depth).spec_neg();
            Player {
                prev_position: self.camera.position,
                collider: Circle {
                    centre: self.collider.centre.spec_plus(translation),
                    radius: self.collider.radius,
                },
                camera: Camera {
                    position: self.camera.position.spec_plus(translation),
                    ..self.camera
                },
                velocity: self.velocity.spec_minus(
                    wall.normal.spec_scaled(wall.normal.spec_dot(self.velocity)).spec_half(),
                ),
                ..self
            }
        }
    }

    /// The player after meeting the walls from wall `i` on of sector
    /// `sector`, one after the other.
    pub open spec fn spec_collided_from(self, sectors: Seq<Sector>, sector: int, i: int) -> Player
        decreases sectors[sector].walls@.len() - i,
    {
        let walls = sectors[sector].walls@;
        if i < 0 || i >= walls.len() {
            self
        } else {
            self.spec_collided(&walls[i], sectors).spec_collided_from(sectors, sector, i + 1)
        }
    }

    /// Every wall of every sector has two different ends that can be
    /// tested exactly, and every portal leads to a sector that exists.
    pub open spec fn walls_ok(sectors: Seq<Sector>) -> bool {
        forall|s: int, w: int|
            0 <= s < sectors.len() && 0 <= w < sectors[s].walls@.len() ==> {
                &&& (#[trigger] sectors[s].walls@[w]).segment.bounded()
                &&& sectors[s].walls@[w].segment.a != sectors[s].walls@[w].segment.b
                &&& sectors[s].walls@[w].portal is Some ==> sectors[s].walls@[w].portal.unwrap().sector
                    < sectors.len()
            }
    }

    /// Keeps the player out of the walls of the player's sector.
    pub fn collide_walls(&mut self, sectors: &[Sector])
        requires
            old(self).sector_index < sectors@.len(),
            Self::walls_ok(sectors@),
        ensures
            *final(self) == old(self).spec_collided_from(
                sectors@,
                old(self).sector_index as int,
                0,
            ),
    {
        let sector = &sectors[self.sector_index];
        let ghost index = self.sector_index as int;
        let mut i: usize = 0;
        while i < sector.walls.len()
            invariant
                i <= sector.walls@.len(),
                index == old(self).sector_index,
                0 <= index < sectors@.len(),
                *sector == sectors@[index],
                Self::walls_ok(sectors@),
                self.spec_collided_from(sectors@, index, i as int) == old(
                    self,
                ).spec_collided_from(sectors@, index, 0),
            decreases sector.walls@.len() - i,
        {
            let wall = &sector.walls[i];
            assert(sectors@[index].walls@[i as int].segment.bounded());
            self.collide(wall, sectors);
            i = i + 1;
        }
    }

    /// Keeps the player out of one wall.
    pub fn collide(&mut self, wall: &Wall, sectors: &[Sector])
        requires
            wall.segment.bounded(),
            wall.segment.a != wall.segment.b,
            wall.portal is Some ==> wall.portal.unwrap().sector < sectors@.len(),
        ensures
            *final(self) == old(self).spec_collided(wall, sectors@),
    {
        if !self.camera.position.is_bounded() {
            return ;
        }
        let distance_sq = wall.segment.point_distance_sq(self.camera.position);
        let radius = self.collider.radius;
        if !(distance_sq.raw <= radius.times(radius).raw) {
            return ;
        }
        if let Some(portal) = wall.portal {
            let next = &sectors[portal.sector];
            // A player who fits through the portal does not meet the wall.
            if self.head_z.raw < next.ceiling.height.raw && self.knee_z.raw
                > next.floor.height.raw {
                return ;
            }
        }
        let depth = radius.minus(distance_sq.sqrt());
        let correction = wall.normal.scaled(depth);
        let velocity = self.velocity.minus(
            wall.normal.scaled(wall.normal.dot(self.velocity)).half(),
        );
        self.translate(correction.neg());
        self.velocity = velocity;
    }
}

} // verus!
