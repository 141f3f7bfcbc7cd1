//! Collision detection and response.
//!
//! The resolver computes the axis-aligned overlap between two entities and
//! pushes the moving entity out along one axis, chosen by the sign-reduced
//! relative direction to the neighbor (minimum translation on a diagonal).
//! A handler, selected by the pair of entity kinds, wraps the resolver and
//! classifies the outcome into a [`CollisionType`].

use vstd::prelude::*;
use crate::config::{POS_LIMIT, STOMP_BOUNCE_VELOCITY, SUBPIXEL};
use crate::geom::{Vec2i, abs_int, clamp_int, fsign_int, fsign, clamped_add, spec_tile_index, tile_index};
use crate::entity::{Object, ObjectType, BlockType, SurroundingObject, obj_wf, vel_wf, surrounding_wf};

verus! {

/// Half a pixel, in subpixels; the scale of entity centers.
pub const HALF_SUBPIXEL: i64 = 60;

/// The semantic classification of a resolved collision.
#[derive(Clone, Copy, PartialEq, Eq, Structural, Debug)]
pub enum CollisionType {
    PlayerWithBlock,
    PlayerKillEnemy,
    PlayerHitBy,
    PlayerWithPowerupBlock,
    PlayerWithPowerup,
    EnemyWithBlock,
    EnemyWithEnemy,
}

/// The outcome of resolving one entity against one neighbor.
#[derive(Clone, Copy, Debug)]
pub struct CollisionResponse {
    pub new_pos: Vec2i,
    pub new_velocity: Vec2i,
    pub collided: bool,
    pub collision_type: Option<CollisionType>,
}

/// The horizontal center of an object, in subpixels.
pub open spec fn center_x(o: Object) -> int {
    o.pos.x + o.width * (HALF_SUBPIXEL as int)
}

/// The vertical center of an object, in subpixels.
pub open spec fn center_y(o: Object) -> int {
    o.pos.y + o.height * (HALF_SUBPIXEL as int)
}

/// Horizontal penetration depth of `a` and `b`, in subpixels; positive
/// exactly when their horizontal extents intersect.
pub open spec fn x_overlap(a: Object, b: Object) -> int {
    (a.width + b.width) * (HALF_SUBPIXEL as int) - abs_int(center_x(a) - center_x(b))
}

/// Vertical penetration depth of `a` and `b`, in subpixels.
pub open spec fn y_overlap(a: Object, b: Object) -> int {
    (a.height + b.height) * (HALF_SUBPIXEL as int) - abs_int(center_y(a) - center_y(b))
}

/// Whether the two objects' rectangles intersect.
pub open spec fn collides(a: Object, b: Object) -> bool {
    x_overlap(a, b) > 0 && y_overlap(a, b) > 0
}

/// Collision detection is commutative: `a` intersects `b` exactly when `b`
/// intersects `a`, whichever side's handler ends up resolving the pair.
pub proof fn lemma_collision_detection_commutes(a: Object, b: Object)
    ensures
        collides(a, b) == collides(b, a),
{
}

/// The bare geometric response: push out along the axis selected by the
/// relative direction (the shallower axis on a diagonal), zero the velocity
/// on that axis — on the horizontal axis only when the entity was moving
/// into the neighbor. No classification.
pub open spec fn base_response(object: Object, velocity: Vec2i, other: SurroundingObject) -> CollisionResponse {
    let xo = x_overlap(object, other.object);
    let yo = y_overlap(object, other.object);
    let dy = other.relative_direction.0 as int;
    let dx = other.relative_direction.1 as int;
    if xo > 0 && yo > 0 {
        if dy == 0 || (dx != 0 && xo < yo) {
            CollisionResponse {
                new_pos: Vec2i {
                    x: clamp_int(object.pos.x - xo * dx, -POS_LIMIT as int, POS_LIMIT as int) as i64,
                    y: object.pos.y,
                },
                new_velocity: Vec2i {
                    x: if fsign_int(velocity.x as int) == dx { 0 } else { velocity.x },
                    y: velocity.y,
                },
                collided: true,
                collision_type: None,
            }
        } else {
            CollisionResponse {
                new_pos: Vec2i {
                    x: object.pos.x,
                    y: clamp_int(object.pos.y - yo * dy, -POS_LIMIT as int, POS_LIMIT as int) as i64,
                },
                new_velocity: Vec2i { x: velocity.x, y: 0 },
                collided: true,
                collision_type: None,
            }
        }
    } else {
        CollisionResponse {
            new_pos: object.pos,
            new_velocity: velocity,
            collided: false,
            collision_type: None,
        }
    }
}

/// `p - overlap * d`, saturating at the coordinate bounds; the push-out of a
/// coordinate by a penetration depth along direction `d`.
fn push_out(p: i64, overlap: i64, d: i64) -> (r: i64)
    requires
        -1 <= d <= 1,
        -0x4000_0000_0000_0000 <= overlap <= 0x4000_0000_0000_0000,
    ensures
        r as int == clamp_int(p - overlap * d, -POS_LIMIT as int, POS_LIMIT as int),
{
    if d == 1 {
        proof {
            assert(overlap as int * (d as int) == overlap as int) by (nonlinear_arith)
                requires
                    d == 1,
            ;
        }
        clamped_add(p, -overlap, POS_LIMIT)
    } else if d == -1 {
        proof {
            assert(overlap as int * (d as int) == -(overlap as int)) by (nonlinear_arith)
                requires
                    d == -1,
            ;
        }
        clamped_add(p, overlap, POS_LIMIT)
    } else {
        proof {
            assert(overlap as int * (d as int) == 0) by (nonlinear_arith)
                requires
                    d == 0,
            ;
        }
        clamped_add(p, 0, POS_LIMIT)
    }
}

/// Computes [`base_response`].
pub fn get_collision_response(object: &Object, velocity: &Vec2i, other: &SurroundingObject) -> (r: CollisionResponse)
    requires
        obj_wf(*object),
        surrounding_wf(*other),
        vel_wf(*velocity),
    ensures
        r == base_response(*object, *velocity, *other),
        r.collided == collides(*object, other.object),
        obj_wf(Object { pos: r.new_pos, ..*object }),
        vel_wf(r.new_velocity),
{
    let self_cx: i64 = object.pos.x + object.width as i64 * HALF_SUBPIXEL;
    let self_cy: i64 = object.pos.y + object.height as i64 * HALF_SUBPIXEL;
    let other_cx: i64 = other.object.pos.x + other.object.width as i64 * HALF_SUBPIXEL;
    let other_cy: i64 = other.object.pos.y + other.object.height as i64 * HALF_SUBPIXEL;

    let dcx: i64 = if self_cx >= other_cx { self_cx - other_cx } else { other_cx - self_cx };
    let dcy: i64 = if self_cy >= other_cy { self_cy - other_cy } else { other_cy - self_cy };

    let xo: i64 = (object.width as i64 + other.object.width as i64) * HALF_SUBPIXEL - dcx;
    let yo: i64 = (object.height as i64 + other.object.height as i64) * HALF_SUBPIXEL - dcy;

    let dy: i64 = other.relative_direction.0;
    let dx: i64 = other.relative_direction.1;

    if xo > 0 && yo > 0 {
        if dy == 0 || (dx != 0 && xo < yo) {
            let vx: i64 = if fsign(velocity.x) == dx { 0 } else { velocity.x };
            CollisionResponse {
                new_pos: Vec2i { x: push_out(object.pos.x, xo, dx), y: object.pos.y },
                new_velocity: Vec2i { x: vx, y: velocity.y },
                collided: true,
                collision_type: None,
            }
        } else {
            CollisionResponse {
                new_pos: Vec2i { x: object.pos.x, y: push_out(object.pos.y, yo, dy) },
                new_velocity: Vec2i { x: velocity.x, y: 0 },
                collided: true,
                collision_type: None,
            }
        }
    } else {
        CollisionResponse {
            new_pos: object.pos,
            new_velocity: *velocity,
            collided: false,
            collision_type: None,
        }
    }
}

/// The resolution policy for a pair of entity kinds.
#[derive(Clone, Copy, PartialEq, Eq, Structural, Debug)]
pub enum HandlerKind {
    DoNothing,
    Block,
    Powerup,
    Enemy,
    EnemyBlock,
    PlayerEnemy,
}

/// The handler an entity of kind `self_type` uses against a neighbor of kind
/// `other_type`. An enemy leaves the player's collisions to the player; a
/// pair with no interaction gets the do-nothing handler.
pub open spec fn spec_handler_for(self_type: ObjectType, other_type: ObjectType) -> HandlerKind {
    match self_type {
        ObjectType::Player => match other_type {
            ObjectType::Block(_) => HandlerKind::Block,
            ObjectType::Enemy(_) => HandlerKind::PlayerEnemy,
            ObjectType::Powerup => HandlerKind::Powerup,
            ObjectType::Player => HandlerKind::DoNothing,
        },
        ObjectType::Enemy(_) => match other_type {
            ObjectType::Block(_) => HandlerKind::EnemyBlock,
            ObjectType::Enemy(_) => HandlerKind::Enemy,
            ObjectType::Player => HandlerKind::DoNothing,
            ObjectType::Powerup => HandlerKind::Enemy,
        },
        ObjectType::Powerup => match other_type {
            ObjectType::Block(_) => HandlerKind::EnemyBlock,
            ObjectType::Enemy(_) => HandlerKind::Enemy,
            _ => HandlerKind::DoNothing,
        },
        ObjectType::Block(_) => HandlerKind::DoNothing,
    }
}

/// Computes [`spec_handler_for`].
pub fn handler_for(self_type: ObjectType, other_type: ObjectType) -> (h: HandlerKind)
    ensures
        h == spec_handler_for(self_type, other_type),
{
    match self_type {
        ObjectType::Player => match other_type {
            ObjectType::Block(_) => HandlerKind::Block,
            ObjectType::Enemy(_) => HandlerKind::PlayerEnemy,
            ObjectType::Powerup => HandlerKind::Powerup,
            ObjectType::Player => HandlerKind::DoNothing,
        },
        ObjectType::Enemy(_) => match other_type {
            ObjectType::Block(_) => HandlerKind::EnemyBlock,
            ObjectType::Enemy(_) => HandlerKind::Enemy,
            ObjectType::Player => HandlerKind::DoNothing,
            ObjectType::Powerup => HandlerKind::Enemy,
        },
        ObjectType::Powerup => match other_type {
            ObjectType::Block(_) => HandlerKind::EnemyBlock,
            ObjectType::Enemy(_) => HandlerKind::Enemy,
            _ => HandlerKind::DoNothing,
        },
        ObjectType::Block(_) => HandlerKind::DoNothing,
    }
}

/// The pass-through handler: nothing happens, nothing is reported.
pub open spec fn resolve_do_nothing(object: Object, velocity: Vec2i) -> CollisionResponse {
    CollisionResponse {
        new_pos: object.pos,
        new_velocity: velocity,
        collided: false,
        collision_type: None,
    }
}

/// Player against a power-up: a collision is classified as a collection and
/// leaves the player's position and velocity untouched.
pub open spec fn resolve_powerup(object: Object, velocity: Vec2i, other: SurroundingObject) -> CollisionResponse {
    let r = base_response(object, velocity, other);
    if r.collided {
        CollisionResponse {
            new_pos: object.pos,
            new_velocity: velocity,
            collided: true,
            collision_type: Some(CollisionType::PlayerWithPowerup),
        }
    } else {
        r
    }
}

/// Player against a block: the geometric response, classified as a bump from
/// below when the neighbor is a power-up block directly above, the player is
/// moving upward and is still below the block's top edge.
pub open spec fn resolve_block(object: Object, velocity: Vec2i, other: SurroundingObject) -> CollisionResponse {
    let r = base_response(object, velocity, other);
    match other.object.object_type {
        ObjectType::Block(BlockType::Block) => {
            if r.collided {
                CollisionResponse { collision_type: Some(CollisionType::PlayerWithBlock), ..r }
            } else {
                r
            }
        },
        ObjectType::Block(BlockType::PowerupBlock) => {
            if r.collided {
                let from_below = other.relative_direction.0 == -1 && other.relative_direction.1 == 0
                    && velocity.y < 0 && object.object_type == ObjectType::Player
                    && object.pos.y > other.object.pos.y;
                CollisionResponse {
                    collision_type: if from_below {
                        Some(CollisionType::PlayerWithPowerupBlock)
                    } else {
                        Some(CollisionType::PlayerWithBlock)
                    },
                    ..r
                }
            } else {
                r
            }
        },
        _ => r,
    }
}

/// Enemy against enemy: the colliding entity keeps its position and reverses
/// its horizontal velocity.
pub open spec fn resolve_enemy(object: Object, velocity: Vec2i, other: SurroundingObject) -> CollisionResponse {
    let r = base_response(object, velocity, other);
    CollisionResponse {
        new_pos: object.pos,
        new_velocity: Vec2i { x: (-velocity.x) as i64, y: velocity.y },
        collided: r.collided,
        collision_type: if r.collided { Some(CollisionType::EnemyWithEnemy) } else { None },
    }
}

/// Enemy or power-up against a block: when the block sits on the entity's own
/// tile row, reverse the horizontal velocity so the entity turns at walls.
pub open spec fn resolve_enemy_block(object: Object, velocity: Vec2i, other: SurroundingObject) -> CollisionResponse {
    let r = base_response(object, velocity, other);
    if spec_tile_index(other.object.pos.y as int) == spec_tile_index(object.pos.y as int) {
        CollisionResponse {
            new_pos: r.new_pos,
            new_velocity: Vec2i { x: (-velocity.x) as i64, y: velocity.y },
            collided: r.collided,
            collision_type: Some(CollisionType::EnemyWithBlock),
        }
    } else {
        r
    }
}

/// Player against an enemy: stomping (the player's bottom edge above the
/// enemy's) kills the enemy and bounces the player upward; any other contact
/// hurts the player.
pub open spec fn resolve_player_enemy(object: Object, velocity: Vec2i, other: SurroundingObject) -> CollisionResponse {
    let r = base_response(object, velocity, other);
    if r.collided {
        if object.pos.y + object.height * (SUBPIXEL as int)
            < other.object.pos.y + other.object.height * (SUBPIXEL as int) {
            CollisionResponse {
                new_velocity: Vec2i { x: velocity.x, y: (-STOMP_BOUNCE_VELOCITY) as i64 },
                collision_type: Some(CollisionType::PlayerKillEnemy),
                ..r
            }
        } else {
            CollisionResponse { collision_type: Some(CollisionType::PlayerHitBy), ..r }
        }
    } else {
        r
    }
}

/// The response of handler `h` for `object` moving at `velocity` against the
/// neighbor `other`.
pub open spec fn resolve_spec(h: HandlerKind, object: Object, velocity: Vec2i, other: SurroundingObject) -> CollisionResponse {
    match h {
        HandlerKind::DoNothing => resolve_do_nothing(object, velocity),
        HandlerKind::Block => resolve_block(object, velocity, other),
        HandlerKind::Powerup => resolve_powerup(object, velocity, other),
        HandlerKind::Enemy => resolve_enemy(object, velocity, other),
        HandlerKind::EnemyBlock => resolve_enemy_block(object, velocity, other),
        HandlerKind::PlayerEnemy => resolve_player_enemy(object, velocity, other),
    }
}

/// Computes [`resolve_spec`] for handler `h`.
pub fn resolve_collision(h: HandlerKind, object: &Object, velocity: &Vec2i, other: &SurroundingObject) -> (r: CollisionResponse)
    requires
        obj_wf(*object),
        surrounding_wf(*other),
        vel_wf(*velocity),
    ensures
        r == resolve_spec(h, *object, *velocity, *other),
        obj_wf(Object { pos: r.new_pos, ..*object }),
        vel_wf(r.new_velocity),
{
    match h {
        HandlerKind::DoNothing => CollisionResponse {
            new_pos: object.pos,
            new_velocity: *velocity,
            collided: false,
            collision_type: None,
        },
        HandlerKind::Block => {
            let r = get_collision_response(object, velocity, other);
            match other.object.object_type {
                ObjectType::Block(BlockType::Block) => {
                    if r.collided {
                        CollisionResponse { collision_type: Some(CollisionType::PlayerWithBlock), ..r }
                    } else {
                        r
                    }
                },
                ObjectType::Block(BlockType::PowerupBlock) => {
                    if r.collided {
                        let from_below = other.relative_direction.0 == -1
                            && other.relative_direction.1 == 0 && velocity.y < 0
                            && object.object_type == ObjectType::Player
                            && object.pos.y > other.object.pos.y;
                        CollisionResponse {
                            collision_type: if from_below {
                                Some(CollisionType::PlayerWithPowerupBlock)
                            } else {
                                Some(CollisionType::PlayerWithBlock)
                            },
                            ..r
                        }
                    } else {
                        r
                    }
                },
                _ => r,
            }
        },
        HandlerKind::Powerup => {
            let r = get_collision_response(object, velocity, other);
            if r.collided {
                CollisionResponse {
                    new_pos: object.pos,
                    new_velocity: *velocity,
                    collided: true,
                    collision_type: Some(CollisionType::PlayerWithPowerup),
                }
            } else {
                r
            }
        },
        HandlerKind::Enemy => {
            let r = get_collision_response(object, velocity, other);
            CollisionResponse {
                new_pos: object.pos,
                new_velocity: Vec2i { x: -velocity.x, y: velocity.y },
                collided: r.collided,
                collision_type: if r.collided { Some(CollisionType::EnemyWithEnemy) } else { None },
            }
        },
        HandlerKind::EnemyBlock => {
            let r = get_collision_response(object, velocity, other);
            if tile_index(other.object.pos.y) == tile_index(object.pos.y) {
                CollisionResponse {
                    new_pos: r.new_pos,
                    new_velocity: Vec2i { x: -velocity.x, y: velocity.y },
                    collided: r.collided,
                    collision_type: Some(CollisionType::EnemyWithBlock),
                }
            } else {
                r
            }
        },
        HandlerKind::PlayerEnemy => {
            let r = get_collision_response(object, velocity, other);
            if r.collided {
                if object.pos.y + object.height as i64 * SUBPIXEL
                    < other.object.pos.y + other.object.height as i64 * SUBPIXEL {
                    CollisionResponse {
                        new_velocity: Vec2i { x: velocity.x, y: -STOMP_BOUNCE_VELOCITY },
                        collision_type: Some(CollisionType::PlayerKillEnemy),
                        ..r
                    }
                } else {
                    CollisionResponse { collision_type: Some(CollisionType::PlayerHitBy), ..r }
                }
            } else {
                r
            }
        },
    }
}

} // verus!
