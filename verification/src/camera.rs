//! The eye through which the world is seen.

use vstd::prelude::*;
use crate::fixed::Fixed;
use crate::maths::vec::Vec2f;

verus! {

/// Raw value of a quarter of pi, the steepest pitch either way.
pub const FRAC_PI_4_RAW: i64 = 13176795;

/// Position and orientation of the eye, with the sine and cosine of the yaw
/// and the tangent of the pitch kept beside the angles.
#[derive(Clone, Copy, Debug, PartialEq, Eq, Structural)]
pub struct Camera {
    pub position: Vec2f,
    /// Height of the eye.
    pub z: Fixed,
    pub direction: Vec2f,
    pub yaw: Fixed,
    pub yaw_sin: Fixed,
    pub yaw_cos: Fixed,
    pub pitch: Fixed,
    pub pitch_tan: Fixed,
}

/// A pitch limited to a quarter of pi either way.
pub open spec fn clamp_pitch(pitch: Fixed) -> Fixed {
    if pitch.raw < -FRAC_PI_4_RAW {
        Fixed { raw: (-FRAC_PI_4_RAW) as i64 }
    } else if pitch.raw > FRAC_PI_4_RAW {
        Fixed { raw: FRAC_PI_4_RAW }
    } else {
        pitch
    }
}

impl Camera {
    pub open spec fn spec_new(position: Vec2f, z: Fixed) -> Camera {
        Camera {
            position,
            z,
            direction: Vec2f { x: Fixed::spec_zero(), y: Fixed::spec_one() },
            yaw: Fixed::spec_zero(),
            yaw_sin: Fixed::spec_zero(),
            yaw_cos: Fixed::spec_one(),
            pitch: Fixed::spec_zero(),
            pitch_tan: Fixed::spec_zero(),
        }
    }

    /// A level camera at `position` and height `z` that looks along the
    /// second axis.
    #[verifier::when_used_as_spec(spec_new)]
    pub fn new(position: Vec2f, z: Fixed) -> (c: Camera)
        ensures
            c == Self::spec_new(position, z),
    {
        Camera {
            position,
            z,
            direction: Vec2f { x: Fixed::zero(), y: Fixed::one() },
            yaw: Fixed::zero(),
            yaw_sin: Fixed::zero(),
            yaw_cos: Fixed::one(),
            pitch: Fixed::zero(),
            pitch_tan: Fixed::zero(),
        }
    }

    /// Moves the camera by `translation`.
    pub fn translate(&mut self, translation: Vec2f)
        ensures
            *final(self) == (Camera {
                position: old(self).position.spec_plus(translation),
                ..*old(self)
            }),
    {
        self.position = self.position.plus(translation);
    }

    pub open spec fn spec_rotated(self, rotation: Vec2f) -> Camera {
        let yaw = self.yaw.spec_plus(rotation.x);
        let pitch = clamp_pitch(self.pitch.spec_plus(rotation.y));
        Camera {
            position: self.position,
            z: self.z,
            direction: Vec2f { x: yaw.spec_sin(), y: yaw.spec_cos() },
            yaw,
            yaw_sin: yaw.spec_sin(),
            yaw_cos: yaw.spec_cos(),
            pitch,
            pitch_tan: pitch.spec_tan(),
        }
    }

    /// Turns the camera: `rotation.x` is added to the yaw and `rotation.y`
    /// to the pitch, which stays within a quarter of pi either way.
    pub fn rotate(&mut self, rotation: Vec2f)
        ensures
            *final(self) == old(self).spec_rotated(rotation),
    {
        self.yaw = self.yaw.plus(rotation.x);
        self.yaw_sin = self.yaw.sin();
        self.yaw_cos = self.yaw.cos();
        let turned = self.pitch.plus(rotation.y);
        self.pitch = if turned.raw < -FRAC_PI_4_RAW {
            Fixed { raw: -FRAC_PI_4_RAW }
        } else if turned.raw > FRAC_PI_4_RAW {
            Fixed { raw: FRAC_PI_4_RAW }
        } else {
            turned
        };
        self.pitch_tan = self.pitch.tan();
        self.direction = Vec2f::new(self.yaw_sin, self.yaw_cos);
    }
}

} // verus!
