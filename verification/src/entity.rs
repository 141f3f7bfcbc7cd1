//! The entity data model: a simulated object is its position, its extent and
//! a kind tag. Two objects are the same logical entity when their positions
//! and kinds agree; width and height do not take part in that identity.

use vstd::prelude::*;
use crate::config::{SUBPIXEL, MARIO_SPRITE_BLOCK_SIZE, POS_LIMIT, VEL_LIMIT, DIM_LIMIT, MAX_PX};
use crate::geom::Vec2i;

verus! {

/// The two kinds of block tile.
#[derive(Clone, Copy, PartialEq, Eq, Structural, Debug)]
pub enum BlockType {
    Block,
    PowerupBlock,
}

/// The kinds of enemy.
#[derive(Clone, Copy, PartialEq, Eq, Structural, Debug)]
pub enum EnemyType {
    Goomba,
}

/// The closed set of entity kinds.
#[derive(Clone, Copy, PartialEq, Eq, Structural, Debug)]
pub enum ObjectType {
    Block(BlockType),
    Enemy(EnemyType),
    Powerup,
    Player,
}

/// One simulated entity: top-left position in subpixels, extent in pixels,
/// and a kind tag.
#[derive(Clone, Copy, Debug)]
pub struct Object {
    pub pos: Vec2i,
    pub height: usize,
    pub width: usize,
    pub object_type: ObjectType,
}

/// A well-formed object: coordinates within the saturation bounds and a
/// positive, bounded extent.
pub open spec fn obj_wf(o: Object) -> bool {
    &&& -POS_LIMIT <= o.pos.x <= POS_LIMIT
    &&& -POS_LIMIT <= o.pos.y <= POS_LIMIT
    &&& 0 < o.width <= DIM_LIMIT
    &&& 0 < o.height <= DIM_LIMIT
}

/// A well-formed velocity: both components within the saturation bound.
pub open spec fn vel_wf(v: Vec2i) -> bool {
    &&& -VEL_LIMIT <= v.x <= VEL_LIMIT
    &&& -VEL_LIMIT <= v.y <= VEL_LIMIT
}

/// Whether two objects are the same logical entity: same position and kind.
pub open spec fn obj_matches(a: Object, b: Object) -> bool {
    a.pos == b.pos && a.object_type == b.object_type
}

impl Object {
    /// A tile-sized object at pixel position `(x, y)`.
    pub fn new(x: usize, y: usize, object_type: ObjectType) -> (o: Object)
        requires
            x <= MAX_PX,
            y <= MAX_PX,
        ensures
            o.pos.x == x * SUBPIXEL,
            o.pos.y == y * SUBPIXEL,
            o.width == MARIO_SPRITE_BLOCK_SIZE,
            o.height == MARIO_SPRITE_BLOCK_SIZE,
            o.object_type == object_type,
            obj_wf(o),
    {
        Object {
            pos: Vec2i { x: x as i64 * SUBPIXEL, y: y as i64 * SUBPIXEL },
            height: MARIO_SPRITE_BLOCK_SIZE,
            width: MARIO_SPRITE_BLOCK_SIZE,
            object_type,
        }
    }

    /// Whether `self` and `other` are the same logical entity.
    pub fn matches(&self, other: &Object) -> (r: bool)
        ensures
            r == obj_matches(*self, *other),
    {
        self.pos.x == other.pos.x && self.pos.y == other.pos.y
            && self.object_type == other.object_type
    }
}

/// A neighbor found by the spatial query: a snapshot of the entity and the
/// sign-reduced direction from the queried entity to it.
#[derive(Clone, Copy, Debug)]
pub struct SurroundingObject {
    pub object: Object,
    pub relative_direction: (i64, i64),
}

/// A valid neighbor entry: a well-formed snapshot, and a direction whose
/// components are signs and that is not the zero direction.
pub open spec fn surrounding_wf(s: SurroundingObject) -> bool {
    &&& obj_wf(s.object)
    &&& -1 <= s.relative_direction.0 <= 1
    &&& -1 <= s.relative_direction.1 <= 1
    &&& !(s.relative_direction.0 == 0 && s.relative_direction.1 == 0)
}

impl SurroundingObject {
    /// A neighbor entry for `object` in direction `relative_direction`.
    pub fn new(object: Object, relative_direction: (i64, i64)) -> (s: SurroundingObject)
        requires
            -1 <= relative_direction.0 <= 1,
            -1 <= relative_direction.1 <= 1,
            !(relative_direction.0 == 0 && relative_direction.1 == 0),
        ensures
            s.object == object,
            s.relative_direction == relative_direction,
    {
        SurroundingObject { object, relative_direction }
    }
}

} // verus!
