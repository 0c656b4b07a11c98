//! The spatial state every game entity carries.

use vstd::prelude::*;
use crate::geometry::Vec2i;

verus! {

/// The state shared by all game entities: a world position in sub-pixel
/// units.
pub struct BaseGameObject {
    pub position: Vec2i,
}

impl BaseGameObject {
    pub fn new(position: Vec2i) -> (g: BaseGameObject)
        ensures
            g.position == position,
    {
        BaseGameObject { position }
    }
}

} // verus!
