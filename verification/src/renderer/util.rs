//! Depth, mip level, lens and lighting formulas.

use vstd::prelude::*;
use crate::consts::far;
use crate::consts::mip_factor;
use crate::consts::near;
use crate::consts::MIP_LEVELS;
use crate::fixed::Fixed;
use crate::maths::polygon::Polygon;
use crate::maths::vec::Vec2f;

verus! {

pub open spec fn spec_normalise_depth(depth: Fixed) -> Fixed {
    depth.spec_minus(near()).spec_over(far().spec_minus(near()))
}

/// Maps a depth between the near and the far plane to a value between zero
/// and one.
#[verifier::when_used_as_spec(spec_normalise_depth)]
pub fn normalise_depth(depth: Fixed) -> (r: Fixed)
    ensures
        r == spec_normalise_depth(depth),
{
    depth.minus(near()).over(far().minus(near()))
}

pub open spec fn spec_mip_level(normal_depth: Fixed, bias: Fixed) -> usize {
    mip_factor().spec_plus(bias).spec_times(normal_depth).spec_to_index((MIP_LEVELS - 1) as usize)
}

/// The mip level for a normalised depth: the whole part of the depth times
/// the mip factor plus `bias`, no less than zero and no more than the last
/// level.
#[verifier::when_used_as_spec(spec_mip_level)]
pub fn mip_level(normal_depth: Fixed, bias: Fixed) -> (r: usize)
    ensures
        r == spec_mip_level(normal_depth, bias),
        r < MIP_LEVELS,
{
    mip_factor().plus(bias).times(normal_depth).to_index(MIP_LEVELS - 1)
}

pub open spec fn spec_focal_length(fov: Fixed, half_side: Fixed) -> Fixed {
    half_side.spec_over(fov.spec_half().spec_to_radians().spec_tan())
}

/// Distance, in pixels, from the eye to a screen whose half side spans half
/// of `fov` degrees.
#[verifier::when_used_as_spec(spec_focal_length)]
pub fn focal_length(fov: Fixed, half_side: Fixed) -> (r: Fixed)
    ensures
        r == spec_focal_length(fov, half_side),
{
    half_side.over(fov.half().to_radians().tan())
}

pub open spec fn spec_focal_dimensions(
    h_fov: Fixed,
    v_fov: Fixed,
    half_width: Fixed,
    half_height: Fixed,
) -> (Fixed, Fixed) {
    (spec_focal_length(h_fov, half_width), spec_focal_length(v_fov, half_height))
}

/// The factors that take view space to pixels across and down: each half
/// side of the screen over the tangent of half the field of view.
#[verifier::when_used_as_spec(spec_focal_dimensions)]
pub fn focal_dimensions(h_fov: Fixed, v_fov: Fixed, half_width: Fixed, half_height: Fixed) -> (r:
    (Fixed, Fixed))
    ensures
        r == spec_focal_dimensions(h_fov, v_fov, half_width, half_height),
{
    (focal_length(h_fov, half_width), focal_length(v_fov, half_height))
}

/// The four corners of the view frustum in view space: far left, far right,
/// near right, near left.
pub open spec fn frustum_corners(h_fov: Fixed) -> Seq<Vec2f> {
    let tan = h_fov.spec_half().spec_to_radians().spec_tan();
    let opp_far = far().spec_times(tan);
    let opp_near = near().spec_times(tan);
    seq![
        Vec2f { x: opp_far.spec_neg(), y: far() },
        Vec2f { x: opp_far, y: far() },
        Vec2f { x: opp_near, y: near() },
        Vec2f { x: opp_near.spec_neg(), y: near() },
    ]
}

/// The view frustum for a horizontal field of view in degrees.
pub fn view_frustum(h_fov: Fixed) -> (r: Polygon)
    ensures
        r.vertices@ == frustum_corners(h_fov),
{
    let tan = h_fov.half().to_radians().tan();
    let opp_far = far().times(tan);
    let opp_near = near().times(tan);
    let mut vertices: Vec<Vec2f> = Vec::new();
    vertices.push(Vec2f::new(opp_far.neg(), far()));
    vertices.push(Vec2f::new(opp_far, far()));
    vertices.push(Vec2f::new(opp_near, near()));
    vertices.push(Vec2f::new(opp_near.neg(), near()));
    assert(vertices@ =~= frustum_corners(h_fov));
    Polygon::from_vertices(vertices)
}

/// Raw value of `1.5`.
pub const THREE_HALVES_RAW: i64 = 0x180_0000;

pub open spec fn spec_diminish_lighting(normal_depth: Fixed) -> Fixed {
    let l = Fixed::spec_one().spec_minus(normal_depth);
    l.spec_times(l).spec_times(l).spec_times(Fixed { raw: THREE_HALVES_RAW }).spec_min(
        Fixed::spec_one(),
    )
}

/// How much light is left at a normalised depth: one and a half times the
/// cube of what is left of the depth, at most one.
#[verifier::when_used_as_spec(spec_diminish_lighting)]
pub fn diminish_lighting(normal_depth: Fixed) -> (r: Fixed)
    ensures
        r == spec_diminish_lighting(normal_depth),
{
    let l = Fixed::one().minus(normal_depth);
    l.times(l).times(l).times(Fixed { raw: THREE_HALVES_RAW }).min(Fixed::one())
}

pub open spec fn spec_light_level(light: Fixed) -> u8 {
    light.spec_times(Fixed::spec_from_int(255)).spec_to_index(255) as u8
}

/// A light factor between zero and one as a level between 0 and 255.
#[verifier::when_used_as_spec(spec_light_level)]
pub fn light_level(light: Fixed) -> (r: u8)
    ensures
        r == spec_light_level(light),
{
    light.times(Fixed::from_int(255)).to_index(255) as u8
}

/// Wraps a whole number into `0..size`.
pub open spec fn spec_wrap_texel(whole: i64, size: usize) -> usize {
    (whole as int % size as int) as usize
}

/// Wraps a whole number into `0..size`. For a `size` that is a power of two
/// this keeps the low bits of `whole`.
#[verifier::when_used_as_spec(spec_wrap_texel)]
pub fn wrap_texel(whole: i64, size: usize) -> (r: usize)
    requires
        0 < size <= isize::MAX,
    ensures
        r == spec_wrap_texel(whole, size),
        r < size,
{
    match whole.checked_rem_euclid(size as i64) {
        Some(r) => r as usize,
        None => 0,
    }
}

} // verus!
