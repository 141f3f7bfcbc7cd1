//! Level geometry as data: a row-major stream of tile identifiers and the
//! fixed mapping from tile identifier to entity kind.

use vstd::prelude::*;
use crate::entity::{ObjectType, BlockType};

verus! {

/// One cell of a level: the identifier of the sprite it shows.
pub struct Tile {
    pub sprite_id: usize,
}

/// A level: its pixel height and its tile identifiers, row-major.
pub struct LevelData {
    pub height: usize,
    pub tiles: Vec<usize>,
}

/// The entity kind a tile identifier stands for: identifier 9 is a power-up
/// block, a fixed set of identifiers are plain blocks, anything else is
/// scenery and spawns no entity.
pub open spec fn spec_sprite_id_to_type(id: usize) -> Option<ObjectType> {
    if id == 9 {
        Some(ObjectType::Block(BlockType::PowerupBlock))
    } else if (10 <= id <= 17) || id == 19 || id == 20 || id == 21 || id == 25 || id == 31 {
        Some(ObjectType::Block(BlockType::Block))
    } else {
        None
    }
}

/// Computes [`spec_sprite_id_to_type`].
pub fn sprite_id_to_type(id: usize) -> (r: Option<ObjectType>)
    ensures
        r == spec_sprite_id_to_type(id),
{
    if id == 9 {
        Some(ObjectType::Block(BlockType::PowerupBlock))
    } else if (10 <= id && id <= 17) || id == 19 || id == 20 || id == 21 || id == 25 || id == 31 {
        Some(ObjectType::Block(BlockType::Block))
    } else {
        None
    }
}

} // verus!
