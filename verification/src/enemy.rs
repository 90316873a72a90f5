//! Those that stand against the player.

use vstd::prelude::*;
use crate::surface::Sprite;

verus! {

/// An enemy, seen as a sprite.
#[derive(Clone, Copy, Debug, PartialEq, Eq, Structural)]
pub struct Enemy {
    pub sprite: Sprite,
}

} // verus!
