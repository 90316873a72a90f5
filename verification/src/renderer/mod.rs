//! The renderer: framebuffer, portal bookkeeping and the rasterisers.

pub mod framebuffer;
pub mod portal;
pub mod state;
pub mod util;
pub mod wall;
pub mod plane;
pub mod sprite;
pub mod scene;
pub mod sector;
pub mod renderer;
pub mod laws;
pub mod order;
pub mod siblings;
pub mod text;
