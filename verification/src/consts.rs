//! Tunable constants of the renderer.

use vstd::prelude::*;
use crate::fixed::Fixed;

verus! {

/// Width of the internal framebuffer in pixels.
pub const INTERNAL_WIDTH: usize = 640;

/// Height of the internal framebuffer in pixels.
pub const INTERNAL_HEIGHT: usize = 400;

/// Default horizontal field of view in whole degrees.
pub const HFOV_DEGREES: i32 = 75;

/// Target frame rate in frames per second.
pub const FPS: u32 = 120;

/// Raw depth of the near clipping plane, about `0.00001`.
pub const NEAR_RAW: i64 = 168;

/// Raw depth of the far clipping plane, `512`.
pub const FAR_RAW: i64 = 0x2_0000_0000;

/// The number of mip levels of each texture. Level 0 is the full size and
/// each further level has half the width and height of the one before.
pub const MIP_LEVELS: usize = 3;

/// Raw factor by which normalised depth is scaled to pick a mip level, `4`.
pub const MIP_FACTOR_RAW: i64 = 0x400_0000;

pub open spec fn spec_near() -> Fixed {
    Fixed { raw: NEAR_RAW }
}

/// Depth of the near clipping plane.
#[verifier::when_used_as_spec(spec_near)]
pub fn near() -> (r: Fixed)
    ensures
        r == spec_near(),
{
    Fixed { raw: NEAR_RAW }
}

pub open spec fn spec_far() -> Fixed {
    Fixed { raw: FAR_RAW }
}

/// Depth of the far clipping plane.
#[verifier::when_used_as_spec(spec_far)]
pub fn far() -> (r: Fixed)
    ensures
        r == spec_far(),
{
    Fixed { raw: FAR_RAW }
}

pub open spec fn spec_mip_factor() -> Fixed {
    Fixed { raw: MIP_FACTOR_RAW }
}

/// Factor by which normalised depth is scaled to pick a mip level.
#[verifier::when_used_as_spec(spec_mip_factor)]
pub fn mip_factor() -> (r: Fixed)
    ensures
        r == spec_mip_factor(),
{
    Fixed { raw: MIP_FACTOR_RAW }
}

pub open spec fn spec_mip_scale(level: usize) -> Fixed {
    if level == 0 {
        Fixed { raw: 0x100_0000 }
    } else if level == 1 {
        Fixed { raw: 0x80_0000 }
    } else {
        Fixed { raw: 0x40_0000 }
    }
}

/// The factor `1 / 2^level` that takes texture coordinates of level 0 to
/// those of `level`.
#[verifier::when_used_as_spec(spec_mip_scale)]
pub fn mip_scale(level: usize) -> (r: Fixed)
    requires
        level < MIP_LEVELS,
    ensures
        r == spec_mip_scale(level),
{
    if level == 0 {
        Fixed { raw: 0x100_0000 }
    } else if level == 1 {
        Fixed { raw: 0x80_0000 }
    } else {
        Fixed { raw: 0x40_0000 }
    }
}

} // verus!
