//! A software renderer for sector-and-portal worlds, with its supporting
//! fixed-point maths, geometry, textures and fonts.

pub mod bitmap;
pub mod camera;
pub mod colour;
pub mod consts;
pub mod enemy;
pub mod fixed;
pub mod fixed_vec;
pub mod font;
pub mod input;
pub mod maths;
pub mod physics;
pub mod player;
pub mod renderer;
pub mod surface;
pub mod textures;
pub mod window;
