//! The world: sectors, their walls and planes, and sprites.

use vstd::prelude::*;
use crate::fixed::Fixed;
use crate::maths::mat::Mat2f;
use crate::maths::segment::Segment;
use crate::maths::vec::Vec2f;
use crate::textures::Texture;

verus! {

/// Which texture a wall shows, and how it is laid on the wall.
#[derive(Clone, Copy, Debug, PartialEq, Eq, Structural)]
pub struct WallTexture {
    pub index: usize,
    pub offset: Vec2f,
    pub scale: Vec2f,
}

impl WallTexture {
    pub open spec fn spec_new(index: usize, offset: Vec2f, scale: Vec2f) -> WallTexture {
        WallTexture { index, offset, scale }
    }

    #[verifier::when_used_as_spec(spec_new)]
    pub fn new(index: usize, offset: Vec2f, scale: Vec2f) -> (r: WallTexture)
        ensures
            r == Self::spec_new(index, offset, scale),
    {
        WallTexture { index, offset, scale }
    }
}

/// Which texture a floor or ceiling shows, and how it is laid on the plane.
#[derive(Clone, Copy, Debug)]
pub struct PlaneTexture {
    pub index: usize,
    pub offset: Vec2f,
    pub scale_rotate: Mat2f,
}

impl PlaneTexture {
    /// The texture `index`, scaled by `scale`, then turned by `rotate`
    /// radians, then moved by `offset`.
    pub fn new(index: usize, offset: Vec2f, scale: Vec2f, rotate: Fixed) -> (r: PlaneTexture)
        ensures
            r.index == index,
            r.offset == offset,
            r.scale_rotate.array@ == seq![
                Vec2f { x: rotate.spec_cos(), y: rotate.spec_sin() }.spec_scaled(scale.x).x,
                Vec2f { x: rotate.spec_cos(), y: rotate.spec_sin() }.spec_scaled(scale.x).y,
                Vec2f { x: rotate.spec_sin().spec_neg(), y: rotate.spec_cos() }.spec_scaled(
                    scale.y,
                ).x,
                Vec2f { x: rotate.spec_sin().spec_neg(), y: rotate.spec_cos() }.spec_scaled(
                    scale.y,
                ).y,
            ],
    {
        let sin = rotate.sin();
        let cos = rotate.cos();
        let c0 = Vec2f { x: cos, y: sin }.scaled(scale.x);
        let c1 = Vec2f { x: sin.neg(), y: cos }.scaled(scale.y);
        let m = Mat2f { array: [c0.x, c0.y, c1.x, c1.y] };
        assert(m.array@ =~= seq![c0.x, c0.y, c1.x, c1.y]);
        PlaneTexture { index, offset, scale_rotate: m }
    }
}

/// An opening in a wall into a neighbouring sector, with the textures of the
/// band above and the band below the opening.
#[derive(Clone, Copy, Debug, PartialEq, Eq, Structural)]
pub struct Portal {
    pub sector: usize,
    pub upper_texture: WallTexture,
    pub lower_texture: WallTexture,
}

impl Portal {
    pub open spec fn spec_new(
        sector: usize,
        upper_texture: WallTexture,
        lower_texture: WallTexture,
    ) -> Portal {
        Portal { sector, upper_texture, lower_texture }
    }

    #[verifier::when_used_as_spec(spec_new)]
    pub fn new(sector: usize, upper_texture: WallTexture, lower_texture: WallTexture) -> (r:
        Portal)
        ensures
            r == Self::spec_new(sector, upper_texture, lower_texture),
    {
        Portal { sector, upper_texture, lower_texture }
    }
}

/// A floor or a ceiling.
#[derive(Clone, Copy, Debug)]
pub struct Plane {
    pub height: Fixed,
    pub texture_data: PlaneTexture,
}

impl Plane {
    pub fn new(height: Fixed, texture_data: PlaneTexture) -> (r: Plane)
        ensures
            r.height == height,
            r.texture_data == texture_data,
    {
        Plane { height, texture_data }
    }
}

/// A wall from `segment.a` to `segment.b`, seen from the side on which the
/// ends run from left to right.
#[derive(Clone, Copy, Debug, PartialEq, Eq, Structural)]
pub struct Wall {
    pub segment: Segment,
    pub width: Fixed,
    pub normal: Vec2f,
    pub texture_data: WallTexture,
    pub portal: Option<Portal>,
}

impl Wall {
    pub open spec fn spec_new(
        a: Vec2f,
        b: Vec2f,
        texture_data: WallTexture,
        portal: Option<Portal>,
    ) -> Wall {
        Wall {
            segment: Segment { a, b },
            normal: b.spec_minus(a).spec_normalise().spec_perpendicular(),
            width: b.spec_minus(a).spec_magnitude(),
            texture_data,
            portal,
        }
    }

    /// The wall from `a` to `b`, with its length and its unit normal.
    #[verifier::when_used_as_spec(spec_new)]
    pub fn new(a: Vec2f, b: Vec2f, texture_data: WallTexture, portal: Option<Portal>) -> (r: Wall)
        ensures
            r == Self::spec_new(a, b, texture_data, portal),
    {
        Wall {
            segment: Segment::new(a, b),
            normal: b.minus(a).normalise().perpendicular(),
            width: b.minus(a).magnitude(),
            texture_data,
            portal,
        }
    }
}

/// A room: walls in order around it, a floor and a ceiling.
#[derive(Debug)]
pub struct Sector {
    pub id: usize,
    pub walls: Vec<Wall>,
    pub floor: Plane,
    pub ceiling: Plane,
}

/// An upright picture that always faces the eye.
#[derive(Clone, Copy, Debug, PartialEq, Eq, Structural)]
pub struct Sprite {
    pub position: Vec2f,
    pub sector_index: usize,
    pub texture_data: WallTexture,
    pub width: Fixed,
    pub height: Fixed,
}

impl Sprite {
    pub open spec fn spec_new(
        position: Vec2f,
        sector_index: usize,
        texture_data: WallTexture,
        width: Fixed,
        height: Fixed,
    ) -> Sprite {
        Sprite { position, sector_index, texture_data, width, height }
    }

    #[verifier::when_used_as_spec(spec_new)]
    pub fn new(
        position: Vec2f,
        sector_index: usize,
        texture_data: WallTexture,
        width: Fixed,
        height: Fixed,
    ) -> (r: Sprite)
        ensures
            r == Self::spec_new(position, sector_index, texture_data, width, height),
    {
        Sprite { position, sector_index, texture_data, width, height }
    }
}

/// Every texture is well formed.
pub open spec fn textures_ok(textures: Seq<Texture>) -> bool {
    forall|i: int| 0 <= i < textures.len() ==> (#[trigger] textures[i]).wf()
}

/// The wall names textures that exist and, if it is a portal, a sector that
/// exists.
pub open spec fn wall_ok(wall: Wall, sector_count: int, texture_count: int) -> bool {
    &&& wall.texture_data.index < texture_count
    &&& wall.portal is Some ==> {
        &&& wall.portal.unwrap().sector < sector_count
        &&& wall.portal.unwrap().upper_texture.index < texture_count
        &&& wall.portal.unwrap().lower_texture.index < texture_count
    }
}

/// The sector stands at its own index, and it and its walls name textures
/// and sectors that exist.
pub open spec fn sector_ok(sector: Sector, index: int, sector_count: int, texture_count: int)
    -> bool {
    &&& sector.id == index
    &&& sector.floor.texture_data.index < texture_count
    &&& sector.ceiling.texture_data.index < texture_count
    &&& forall|w: int|
        0 <= w < sector.walls@.len() ==> wall_ok(
            #[trigger] sector.walls@[w],
            sector_count,
            texture_count,
        )
}

/// Every sector stands at its own index and names only textures and sectors
/// that exist, and every texture is well formed.
pub open spec fn world_ok(sectors: Seq<Sector>, textures: Seq<Texture>) -> bool {
    &&& textures_ok(textures)
    &&& forall|s: int|
        0 <= s < sectors.len() ==> sector_ok(
            #[trigger] sectors[s],
            s,
            sectors.len() as int,
            textures.len() as int,
        )
}

} // verus!
