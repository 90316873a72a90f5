//! The view: framebuffer, camera and lens.

use vstd::prelude::*;
use crate::camera::Camera;
use crate::fixed::Fixed;
use crate::maths::polygon::Polygon;
use crate::maths::segment::Segment;
use crate::maths::vec::Vec2f;
use crate::renderer::framebuffer::Framebuffer;
use crate::renderer::framebuffer::MAX_SIDE;
use crate::renderer::util::focal_dimensions;
use crate::renderer::util::frustum_corners;
use crate::renderer::util::spec_focal_dimensions;
use crate::renderer::util::view_frustum;

verus! {

/// What projection needs of the view: the eye and the lens.
#[derive(Clone, Copy, Debug, PartialEq, Eq, Structural)]
pub struct Lens {
    pub camera: Camera,
    pub half_width: Fixed,
    pub half_height: Fixed,
    pub focal_width: Fixed,
    pub focal_height: Fixed,
    pub inv_focal_width: Fixed,
    pub pitch_shear: Fixed,
}

impl Lens {
    pub open spec fn spec_transform_view(&self, point: Vec2f) -> Vec2f {
        point.spec_minus(self.camera.position).spec_rotate(self.camera.yaw_sin, self.camera.yaw_cos)
    }

    /// A point of the world in view space: relative to the eye and turned
    /// by the yaw, so that the second coordinate is the depth.
    #[verifier::when_used_as_spec(spec_transform_view)]
    pub fn transform_view(&self, point: Vec2f) -> (r: Vec2f)
        ensures
            r == self.spec_transform_view(point),
    {
        point.minus(self.camera.position).rotate(self.camera.yaw_sin, self.camera.yaw_cos)
    }

    pub open spec fn spec_project_screen_space(&self, point: Vec2f, height_offset: Fixed) -> (
        Vec2f,
        Fixed,
    ) {
        let z = point.y;
        let y = self.camera.z.spec_minus(height_offset);
        (
            Vec2f {
                x: point.x.spec_times(self.focal_width).spec_over(z).spec_plus(self.half_width),
                y: y.spec_times(self.focal_height).spec_over(z).spec_plus(
                    self.pitch_shear,
                ).spec_plus(self.half_height),
            },
            Fixed::spec_one().spec_over(z),
        )
    }

    /// A point of view space at height `height_offset` on the screen, and
    /// the reciprocal of its depth.
    #[verifier::when_used_as_spec(spec_project_screen_space)]
    pub fn project_screen_space(&self, point: Vec2f, height_offset: Fixed) -> (r: (Vec2f, Fixed))
        ensures
            r == self.spec_project_screen_space(point, height_offset),
    {
        let z = point.y;
        let inv_z = Fixed::one().over(z);
        let y = self.camera.z.minus(height_offset);
        let screen_space_x = point.x.times(self.focal_width).over(z).plus(self.half_width);
        let screen_space_y = y.times(self.focal_height).over(z).plus(self.pitch_shear).plus(
            self.half_height,
        );
        (Vec2f::new(screen_space_x, screen_space_y), inv_z)
    }
}

/// The state that the rasterisers share.
pub struct RendererState {
    pub framebuffer: Framebuffer,
    pub camera: Camera,
    pub frustum: Polygon,
    /// Horizontal field of view in degrees.
    pub h_fov: Fixed,
    /// Vertical field of view in degrees.
    pub v_fov: Fixed,
    pub focal_width: Fixed,
    pub focal_height: Fixed,
    pub inv_focal_width: Fixed,
    pub inv_focal_height: Fixed,
    /// Number of pixels by which the picture is moved down to look up.
    pub pitch_shear: Fixed,
    pub debug: bool,
}

impl RendererState {
    /// The framebuffer is well formed and the lens is the one that the
    /// field of view and the screen size give.
    pub open spec fn wf(&self) -> bool {
        &&& self.framebuffer.wf()
        &&& self.v_fov == self.h_fov.spec_over(self.framebuffer.spec_aspect_ratio())
        &&& (self.focal_width, self.focal_height) == spec_focal_dimensions(
            self.h_fov,
            self.v_fov,
            self.framebuffer.spec_half_width(),
            self.framebuffer.spec_half_height(),
        )
        &&& self.inv_focal_width == Fixed::spec_one().spec_over(self.focal_width)
        &&& self.inv_focal_height == Fixed::spec_one().spec_over(self.focal_height)
        &&& self.frustum.vertices@ == frustum_corners(self.h_fov)
    }

    /// Everything but the pixels is as in `other`.
    pub open spec fn same_view(&self, other: &RendererState) -> bool {
        &&& self.framebuffer.width == other.framebuffer.width
        &&& self.framebuffer.height == other.framebuffer.height
        &&& self.camera == other.camera
        &&& self.frustum == other.frustum
        &&& self.h_fov == other.h_fov
        &&& self.v_fov == other.v_fov
        &&& self.focal_width == other.focal_width
        &&& self.focal_height == other.focal_height
        &&& self.inv_focal_width == other.inv_focal_width
        &&& self.inv_focal_height == other.inv_focal_height
        &&& self.pitch_shear == other.pitch_shear
        &&& self.debug == other.debug
    }

    pub open spec fn spec_lens(&self) -> Lens {
        Lens {
            camera: self.camera,
            half_width: self.framebuffer.spec_half_width(),
            half_height: self.framebuffer.spec_half_height(),
            focal_width: self.focal_width,
            focal_height: self.focal_height,
            inv_focal_width: self.inv_focal_width,
            pitch_shear: self.pitch_shear,
        }
    }

    /// The eye and the lens.
    #[verifier::when_used_as_spec(spec_lens)]
    pub fn lens(&self) -> (r: Lens)
        ensures
            r == self.spec_lens(),
    {
        Lens {
            camera: self.camera,
            half_width: self.framebuffer.half_width(),
            half_height: self.framebuffer.half_height(),
            focal_width: self.focal_width,
            focal_height: self.focal_height,
            inv_focal_width: self.inv_focal_width,
            pitch_shear: self.pitch_shear,
        }
    }

    /// A view of `screen_width` by `screen_height` pixels with a horizontal
    /// field of view of `h_fov` degrees, and a level camera at the origin.
    pub fn new(screen_width: usize, screen_height: usize, h_fov: Fixed) -> (state: RendererState)
        requires
            screen_width <= MAX_SIDE,
            screen_height <= MAX_SIDE,
        ensures
            state.wf(),
            state.framebuffer.width == screen_width,
            state.framebuffer.height == screen_height,
            state.h_fov == h_fov,
            state.camera == Camera::spec_new(Vec2f::spec_zero(), Fixed::spec_zero()),
            state.pitch_shear == Fixed::spec_zero().spec_times(state.focal_height),
            !state.debug,
            forall|i: int|
                0 <= i < state.framebuffer.pixels@.len() ==> state.framebuffer.pixels@[i]
                    == crate::colour::BGRA8::spec_clear(),
    {
        let framebuffer = Framebuffer::new(screen_width, screen_height);
        let camera = Camera::new(Vec2f::zero(), Fixed::zero());
        let v_fov = h_fov.over(framebuffer.aspect_ratio());
        let (focal_width, focal_height) = focal_dimensions(
            h_fov,
            v_fov,
            framebuffer.half_width(),
            framebuffer.half_height(),
        );
        let inv_focal_width = Fixed::one().over(focal_width);
        let inv_focal_height = Fixed::one().over(focal_height);
        let pitch_shear = camera.pitch_tan.times(focal_height);
        let frustum = view_frustum(h_fov);
        RendererState {
            framebuffer,
            camera,
            frustum,
            h_fov,
            v_fov,
            focal_width,
            focal_height,
            inv_focal_width,
            inv_focal_height,
            pitch_shear,
            debug: false,
        }
    }

    /// Takes a new screen size: the framebuffer is made anew and the lens
    /// follows.
    pub fn set_viewport(&mut self, width: usize, height: usize)
        requires
            width <= MAX_SIDE,
            height <= MAX_SIDE,
            old(self).wf(),
        ensures
            final(self).wf(),
            final(self).framebuffer.width == width,
            final(self).framebuffer.height == height,
            final(self).h_fov == old(self).h_fov,
            final(self).camera == old(self).camera,
            final(self).pitch_shear == old(self).pitch_shear,
            final(self).debug == old(self).debug,
            forall|i: int|
                0 <= i < final(self).framebuffer.pixels@.len() ==> final(self).framebuffer.pixels@[i]
                    == crate::colour::BGRA8::spec_clear(),
    {
        self.framebuffer = Framebuffer::new(width, height);
        self.v_fov = self.h_fov.over(self.framebuffer.aspect_ratio());
        let (focal_width, focal_height) = focal_dimensions(
            self.h_fov,
            self.v_fov,
            self.framebuffer.half_width(),
            self.framebuffer.half_height(),
        );
        self.focal_width = focal_width;
        self.focal_height = focal_height;
        self.inv_focal_width = Fixed::one().over(self.focal_width);
        self.inv_focal_height = Fixed::one().over(self.focal_height);
    }

    /// Takes a new horizontal field of view in degrees: the lens and the
    /// frustum follow.
    pub fn set_fov(&mut self, h_fov: Fixed)
        requires
            old(self).wf(),
        ensures
            final(self).wf(),
            final(self).h_fov == h_fov,
            final(self).framebuffer == old(self).framebuffer,
            final(self).camera == old(self).camera,
            final(self).pitch_shear == old(self).pitch_shear,
            final(self).debug == old(self).debug,
    {
        self.h_fov = h_fov;
        self.v_fov = self.h_fov.over(self.framebuffer.aspect_ratio());
        let (focal_width, focal_height) = focal_dimensions(
            self.h_fov,
            self.v_fov,
            self.framebuffer.half_width(),
            self.framebuffer.half_height(),
        );
        self.focal_width = focal_width;
        self.focal_height = focal_height;
        self.inv_focal_width = Fixed::one().over(self.focal_width);
        self.inv_focal_height = Fixed::one().over(self.focal_height);
        self.frustum = view_frustum(h_fov);
    }

    /// Takes the camera for the coming frame and sets the pitch shear: the
    /// tangent of the pitch times the focal height.
    pub fn update(&mut self, camera: &Camera)
        requires
            old(self).wf(),
        ensures
            final(self).wf(),
            final(self).camera == *camera,
            final(self).pitch_shear == camera.pitch_tan.spec_times(old(self).focal_height),
            final(self).framebuffer == old(self).framebuffer,
            final(self).frustum == old(self).frustum,
            final(self).h_fov == old(self).h_fov,
            final(self).v_fov == old(self).v_fov,
            final(self).focal_width == old(self).focal_width,
            final(self).focal_height == old(self).focal_height,
            final(self).inv_focal_width == old(self).inv_focal_width,
            final(self).inv_focal_height == old(self).inv_focal_height,
            final(self).debug == old(self).debug,
    {
        self.camera = *camera;
        self.pitch_shear = self.camera.pitch_tan.times(self.focal_height);
    }

    /// See [`Lens::transform_view`].
    pub fn transform_view(&self, point: Vec2f) -> (r: Vec2f)
        ensures
            r == self.spec_lens().spec_transform_view(point),
    {
        self.lens().transform_view(point)
    }

    /// See [`Lens::project_screen_space`].
    pub fn project_screen_space(&self, point: Vec2f, height_offset: Fixed) -> (r: (Vec2f, Fixed))
        ensures
            r == self.spec_lens().spec_project_screen_space(point, height_offset),
    {
        self.lens().project_screen_space(point, height_offset)
    }

    /// The segment from `a` to `b` of view space can be tested exactly and
    /// overlaps the frustum.
    pub open spec fn spec_in_view(frustum: &Polygon, a: Vec2f, b: Vec2f) -> bool {
        &&& a.bounded()
        &&& b.bounded()
        &&& frustum.bounded()
        &&& Segment { a, b }.spec_overlaps_polygon(frustum)
    }

    /// Tells whether the segment from `a` to `b` of view space overlaps the
    /// frustum. A segment or a frustum that reaches beyond the coordinate
    /// limit counts as out of view.
    pub fn in_view(frustum: &Polygon, a: Vec2f, b: Vec2f) -> (r: bool)
        ensures
            r == Self::spec_in_view(frustum, a, b),
    {
        if !(a.is_bounded() && b.is_bounded() && frustum.is_bounded()) {
            return false;
        }
        Segment::new(a, b).overlaps_polygon(frustum)
    }

    pub fn h_fov(&self) -> (r: Fixed)
        ensures
            r == self.h_fov,
    {
        self.h_fov
    }

    pub fn v_fov(&self) -> (r: Fixed)
        ensures
            r == self.v_fov,
    {
        self.v_fov
    }

    pub fn focal_width(&self) -> (r: Fixed)
        ensures
            r == self.focal_width,
    {
        self.focal_width
    }

    pub fn focal_height(&self) -> (r: Fixed)
        ensures
            r == self.focal_height,
    {
        self.focal_height
    }

    pub fn inv_focal_width(&self) -> (r: Fixed)
        ensures
            r == self.inv_focal_width,
    {
        self.inv_focal_width
    }

    pub fn inv_focal_height(&self) -> (r: Fixed)
        ensures
            r == self.inv_focal_height,
    {
        self.inv_focal_height
    }

    pub fn pitch_shear(&self) -> (r: Fixed)
        ensures
            r == self.pitch_shear,
    {
        self.pitch_shear
    }
}

} // verus!
