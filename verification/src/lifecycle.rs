//! The per-entity, per-tick update lifecycle shared by the player, enemies
//! and power-ups: grounding check, gravity and friction, integration,
//! collision resolution against every neighbor, and the world-border check.
//! Each collision that carries a classification synthesizes a [`GameEvent`];
//! the world applies the events after every entity has moved.

use vstd::prelude::*;
use crate::config::{
    SUBPIXEL, POS_LIMIT, VEL_LIMIT, GRAVITY_PER_TICK, FRICTION_AIR_PER_TICK,
    FRICTION_GROUND_PER_TICK,
};
use crate::geom::{Vec2i, abs_int, clamp_int, clamped_add};
use crate::entity::{Object, ObjectType, SurroundingObject, obj_wf, vel_wf, surrounding_wf};
use crate::collision::{
    CollisionType, center_x, spec_handler_for, handler_for, resolve_spec, resolve_collision,
};

verus! {

/// The discrete gameplay events a tick can emit.
#[derive(Clone, Copy, PartialEq, Eq, Structural, Debug)]
pub enum GameEventType {
    GameWon,
    GameOver,
    Kill,
    PlayerHit,
    PlayerPowerUp,
    PlayerHitBlock,
    PlayerHitPowerupBlock,
    EnemyCollEnemy,
}

/// One gameplay event: its kind and value snapshots of the entities involved.
/// Consumers re-resolve the live entity by value equality.
#[derive(Clone, Copy, Debug)]
pub struct GameEvent {
    pub event: GameEventType,
    pub triggered_by: Object,
    pub target: Option<Object>,
}

/// The world's extent for the border check, in subpixels.
#[derive(Clone, Copy, Debug)]
pub struct WorldBounds {
    pub min_x: i64,
    pub max_x: i64,
    pub max_y: i64,
}

/// Well-formed bounds: nonnegative and within the coordinate saturation bound.
pub open spec fn bounds_wf(b: WorldBounds) -> bool {
    &&& 0 <= b.min_x <= POS_LIMIT
    &&& 0 <= b.max_x <= POS_LIMIT
    &&& 0 <= b.max_y <= POS_LIMIT
}

/// Whether neighbor `n` is a block directly beneath `obj`: one row below and
/// straddling `obj`'s horizontal center.
pub open spec fn is_support_below(obj: Object, n: SurroundingObject) -> bool {
    &&& n.relative_direction.0 == 1
    &&& n.relative_direction.1 == 0
    &&& n.object.object_type is Block
    &&& n.object.pos.x < center_x(obj)
    &&& n.object.pos.x + n.object.width * (SUBPIXEL as int) > center_x(obj)
}

/// Whether any neighbor supports `obj` from below.
pub open spec fn has_support_below(obj: Object, ns: Seq<SurroundingObject>) -> bool {
    exists|i: int| 0 <= i < ns.len() && is_support_below(obj, #[trigger] ns[i])
}

/// A horizontal speed after friction `d`: the magnitude shrinks by `d`,
/// stopping at zero.
pub open spec fn friction_spec(vx: int, d: int) -> int {
    if abs_int(vx) <= d {
        0
    } else if vx > 0 {
        vx - d
    } else {
        vx + d
    }
}

/// The velocity after the grounding phase: a grounded entity feels the
/// stronger ground friction and no gravity; an airborne one gains gravity
/// and feels the weaker air friction.
pub open spec fn grounding_velocity(v: Vec2i, grounded: bool) -> Vec2i {
    if grounded {
        Vec2i { x: friction_spec(v.x as int, FRICTION_GROUND_PER_TICK as int) as i64, y: v.y }
    } else {
        Vec2i {
            x: friction_spec(v.x as int, FRICTION_AIR_PER_TICK as int) as i64,
            y: clamp_int(v.y + GRAVITY_PER_TICK, -VEL_LIMIT as int, VEL_LIMIT as int) as i64,
        }
    }
}

/// Grounding blocks gravity: when a block is detected directly below, the
/// grounding phase leaves the vertical velocity exactly as it was.
pub proof fn lemma_grounded_blocks_gravity(obj: Object, v: Vec2i, ns: Seq<SurroundingObject>)
    requires
        has_support_below(obj, ns),
    ensures
        grounding_velocity(v, has_support_below(obj, ns)).y == v.y,
{
}

/// The position after one step of semi-implicit Euler integration.
pub open spec fn integrate_pos(o: Object, v: Vec2i) -> Object {
    Object {
        pos: Vec2i {
            x: clamp_int(o.pos.x + v.x, -POS_LIMIT as int, POS_LIMIT as int) as i64,
            y: clamp_int(o.pos.y + v.y, -POS_LIMIT as int, POS_LIMIT as int) as i64,
        },
        ..o
    }
}

/// The event a classified collision synthesizes. A hit on the player names
/// the enemy as the trigger and the player as the target; an enemy turned by
/// a block is purely physical and emits nothing.
pub open spec fn event_for(ct: CollisionType, self_obj: Object, other: Object) -> Option<GameEvent> {
    match ct {
        CollisionType::PlayerKillEnemy => Some(GameEvent {
            event: GameEventType::Kill,
            triggered_by: self_obj,
            target: Some(other),
        }),
        CollisionType::PlayerHitBy => Some(GameEvent {
            event: GameEventType::PlayerHit,
            triggered_by: other,
            target: Some(self_obj),
        }),
        CollisionType::PlayerWithBlock => Some(GameEvent {
            event: GameEventType::PlayerHitBlock,
            triggered_by: self_obj,
            target: Some(other),
        }),
        CollisionType::PlayerWithPowerupBlock => Some(GameEvent {
            event: GameEventType::PlayerHitPowerupBlock,
            triggered_by: self_obj,
            target: Some(other),
        }),
        CollisionType::EnemyWithBlock => None,
        CollisionType::EnemyWithEnemy => Some(GameEvent {
            event: GameEventType::EnemyCollEnemy,
            triggered_by: self_obj,
            target: Some(other),
        }),
        CollisionType::PlayerWithPowerup => Some(GameEvent {
            event: GameEventType::PlayerPowerUp,
            triggered_by: self_obj,
            target: Some(other),
        }),
    }
}

/// Computes [`event_for`].
pub fn create_game_event(ct: CollisionType, self_obj: &Object, other: &Object) -> (r: Option<GameEvent>)
    ensures
        r == event_for(ct, *self_obj, *other),
{
    match ct {
        CollisionType::PlayerKillEnemy => Some(GameEvent {
            event: GameEventType::Kill,
            triggered_by: *self_obj,
            target: Some(*other),
        }),
        CollisionType::PlayerHitBy => Some(GameEvent {
            event: GameEventType::PlayerHit,
            triggered_by: *other,
            target: Some(*self_obj),
        }),
        CollisionType::PlayerWithBlock => Some(GameEvent {
            event: GameEventType::PlayerHitBlock,
            triggered_by: *self_obj,
            target: Some(*other),
        }),
        CollisionType::PlayerWithPowerupBlock => Some(GameEvent {
            event: GameEventType::PlayerHitPowerupBlock,
            triggered_by: *self_obj,
            target: Some(*other),
        }),
        CollisionType::EnemyWithBlock => None,
        CollisionType::EnemyWithEnemy => Some(GameEvent {
            event: GameEventType::EnemyCollEnemy,
            triggered_by: *self_obj,
            target: Some(*other),
        }),
        CollisionType::PlayerWithPowerup => Some(GameEvent {
            event: GameEventType::PlayerPowerUp,
            triggered_by: *self_obj,
            target: Some(*other),
        }),
    }
}

/// A possible event as a sequence of zero or one events.
pub open spec fn opt_event_seq(e: Option<GameEvent>) -> Seq<GameEvent> {
    match e {
        Some(ev) => seq![ev],
        None => Seq::empty(),
    }
}

/// Resolving one entity against one neighbor: the handler chosen by the kind
/// pair resolves the pair; a classification synthesizes an event from the
/// entity's state before this neighbor's response is applied; a collision
/// overwrites position and velocity with the response.
pub open spec fn collide_step(o: Object, v: Vec2i, n: SurroundingObject) -> (Object, Vec2i, Option<GameEvent>) {
    let h = spec_handler_for(o.object_type, n.object.object_type);
    let r = resolve_spec(h, o, v, n);
    let ev = match r.collision_type {
        Some(ct) => event_for(ct, o, n.object),
        None => None,
    };
    if r.collided {
        (Object { pos: r.new_pos, ..o }, r.new_velocity, ev)
    } else {
        (o, v, ev)
    }
}

/// Resolving one entity against all its neighbors, in order, threading the
/// corrected position and velocity through and collecting the events.
pub open spec fn collide_fold(o: Object, v: Vec2i, ns: Seq<SurroundingObject>) -> (Object, Vec2i, Seq<GameEvent>)
    decreases ns.len(),
{
    if ns.len() == 0 {
        (o, v, Seq::empty())
    } else {
        let s = collide_step(o, v, ns[0]);
        let rest = collide_fold(s.0, s.1, ns.skip(1));
        (rest.0, rest.1, opt_event_seq(s.2) + rest.2)
    }
}

/// The collision fold never changes an entity's extent or kind, only its
/// position and velocity.
pub proof fn lemma_collide_fold_same_shape(o: Object, v: Vec2i, ns: Seq<SurroundingObject>)
    ensures
        collide_fold(o, v, ns).0.width == o.width,
        collide_fold(o, v, ns).0.height == o.height,
        collide_fold(o, v, ns).0.object_type == o.object_type,
    decreases ns.len(),
{
    if ns.len() == 0 {
    } else {
        let s = collide_step(o, v, ns[0]);
        lemma_collide_fold_same_shape(s.0, s.1, ns.skip(1));
    }
}

/// The border check. The player is clamped at the left bound, wins the game
/// past the right bound, and loses it past the bottom. Enemies and power-ups
/// stop at the left and right edges and emit `Kill` past the bottom.
pub open spec fn border_spec(o: Object, v: Vec2i, b: WorldBounds) -> (Object, Vec2i, Option<GameEvent>) {
    if o.object_type is Player {
        let o1 = if o.pos.x < b.min_x { Object { pos: Vec2i { x: b.min_x, y: o.pos.y }, ..o } } else { o };
        let v1 = if o.pos.x < b.min_x { Vec2i { x: 0, y: v.y } } else { v };
        if o1.pos.x + o1.width * (SUBPIXEL as int) > b.max_x {
            (o1, v1, Some(GameEvent { event: GameEventType::GameWon, triggered_by: o1, target: None }))
        } else if o1.pos.y > b.max_y {
            (o1, v1, Some(GameEvent { event: GameEventType::GameOver, triggered_by: o1, target: None }))
        } else {
            (o1, v1, None)
        }
    } else {
        let o1 = if o.pos.x < 0 { Object { pos: Vec2i { x: 0, y: o.pos.y }, ..o } } else { o };
        let v1 = if o.pos.x < 0 { Vec2i { x: 0, y: v.y } } else { v };
        let over_right = o1.pos.x + o1.width * (SUBPIXEL as int) > b.max_x;
        let o2 = if over_right {
            Object { pos: Vec2i { x: (b.max_x - o1.width * (SUBPIXEL as int)) as i64, y: o1.pos.y }, ..o1 }
        } else {
            o1
        };
        let v2 = if over_right { Vec2i { x: 0, y: v1.y } } else { v1 };
        if o2.pos.y > b.max_y {
            (o2, v2, Some(GameEvent { event: GameEventType::Kill, triggered_by: o2, target: None }))
        } else {
            (o2, v2, None)
        }
    }
}


/// Whether an event's entity snapshots are well-formed.
pub open spec fn event_objects_wf(ev: GameEvent) -> bool {
    &&& obj_wf(ev.triggered_by)
    &&& match ev.target {
        Some(t) => obj_wf(t),
        None => true,
    }
}

/// The collision fold keeps the entity well-formed and only ever emits
/// events whose snapshots are well-formed.
pub proof fn lemma_collide_fold_wf(o: Object, v: Vec2i, ns: Seq<SurroundingObject>)
    requires
        obj_wf(o),
        vel_wf(v),
        forall|i: int| 0 <= i < ns.len() ==> surrounding_wf(#[trigger] ns[i]),
    ensures
        obj_wf(collide_fold(o, v, ns).0),
        vel_wf(collide_fold(o, v, ns).1),
        forall|k: int| 0 <= k < collide_fold(o, v, ns).2.len()
            ==> event_objects_wf(#[trigger] collide_fold(o, v, ns).2[k]),
    decreases ns.len(),
{
    if ns.len() == 0 {
    } else {
        let s = collide_step(o, v, ns[0]);
        assert(surrounding_wf(ns[0]));
        assert(obj_wf(s.0) && vel_wf(s.1));
        assert(forall|i: int| 0 <= i < ns.skip(1).len() ==> surrounding_wf(#[trigger] ns.skip(1)[i]));
        lemma_collide_fold_wf(s.0, s.1, ns.skip(1));
        match s.2 {
            Some(e) => {
                assert(event_objects_wf(e));
            },
            None => {},
        }
        assert(collide_fold(o, v, ns).2 == opt_event_seq(s.2) + collide_fold(s.0, s.1, ns.skip(1)).2);
    }
}

/// One whole physics tick keeps the entity well-formed and only emits events
/// whose snapshots are well-formed.
pub proof fn lemma_physics_wf(o: Object, v: Vec2i, ns: Seq<SurroundingObject>, b: WorldBounds)
    requires
        obj_wf(o),
        vel_wf(v),
        bounds_wf(b),
        forall|i: int| 0 <= i < ns.len() ==> surrounding_wf(#[trigger] ns[i]),
    ensures
        ({
            let grounded = has_support_below(o, ns);
            let v1 = grounding_velocity(v, grounded);
            let o1 = integrate_pos(o, v1);
            let f = collide_fold(o1, v1, ns);
            let brd = border_spec(f.0, f.1, b);
            &&& obj_wf(brd.0)
            &&& vel_wf(brd.1)
            &&& forall|k: int| 0 <= k < f.2.len() ==> event_objects_wf(#[trigger] f.2[k])
            &&& match brd.2 {
                Some(e) => event_objects_wf(e),
                None => true,
            }
            &&& forall|k: int| 0 <= k < (f.2 + opt_event_seq(brd.2)).len()
                ==> event_objects_wf(#[trigger] (f.2 + opt_event_seq(brd.2))[k])
        }),
{
    let grounded = has_support_below(o, ns);
    let v1 = grounding_velocity(v, grounded);
    let o1 = integrate_pos(o, v1);
    lemma_collide_fold_wf(o1, v1, ns);
    lemma_collide_fold_same_shape(o1, v1, ns);
}

/// Adds the per-tick gravity to the vertical velocity.
pub fn apply_gravity(velocity: &mut Vec2i)
    ensures
        *final(velocity) == (Vec2i {
            x: old(velocity).x,
            y: clamp_int(old(velocity).y + GRAVITY_PER_TICK, -VEL_LIMIT as int, VEL_LIMIT as int) as i64,
        }),
{
    velocity.y = clamped_add(velocity.y, GRAVITY_PER_TICK, VEL_LIMIT);
}

/// Applies the horizontal friction of the current grounding state.
pub fn apply_x_axis_friction(velocity: &mut Vec2i, grounded: bool)
    requires
        vel_wf(*old(velocity)),
    ensures
        *final(velocity) == (Vec2i {
            x: friction_spec(
                old(velocity).x as int,
                if grounded { FRICTION_GROUND_PER_TICK as int } else { FRICTION_AIR_PER_TICK as int },
            ) as i64,
            y: old(velocity).y,
        }),
{
    let d: i64 = if grounded { FRICTION_GROUND_PER_TICK } else { FRICTION_AIR_PER_TICK };
    let magnitude: i64 = if velocity.x < 0 { -velocity.x } else { velocity.x };
    if magnitude <= d {
        velocity.x = 0;
    } else if velocity.x > 0 {
        velocity.x = velocity.x - d;
    } else {
        velocity.x = velocity.x + d;
    }
}

/// Whether any neighbor in `surrounding` supports `object` from below.
pub fn find_support_below(object: &Object, surrounding: &Vec<SurroundingObject>) -> (r: bool)
    requires
        obj_wf(*object),
        forall|i: int| 0 <= i < surrounding@.len() ==> surrounding_wf(#[trigger] surrounding@[i]),
    ensures
        r == has_support_below(*object, surrounding@),
{
    let cx: i64 = object.pos.x + object.width as i64 * (SUBPIXEL / 2);
    let n: usize = surrounding.len();
    let mut i: usize = 0;
    while i < n
        invariant
            0 <= i <= n,
            n == surrounding@.len(),
            obj_wf(*object),
            forall|j: int| 0 <= j < n ==> surrounding_wf(#[trigger] surrounding@[j]),
            cx == center_x(*object),
            forall|j: int| 0 <= j < i ==> !is_support_below(*object, #[trigger] surrounding@[j]),
        decreases n - i,
    {
        let s = &surrounding[i];
        let below = s.relative_direction.0 == 1 && s.relative_direction.1 == 0;
        let is_block = match s.object.object_type {
            ObjectType::Block(_) => true,
            _ => false,
        };
        if below && is_block && s.object.pos.x < cx
            && s.object.pos.x + s.object.width as i64 * SUBPIXEL > cx {
            assert(is_support_below(*object, surrounding@[i as int]));
            return true;
        }
        i = i + 1;
    }
    false
}

/// The border check; see [`border_spec`].
pub fn handle_world_border(object: &mut Object, velocity: &mut Vec2i, bounds: &WorldBounds) -> (ev: Option<GameEvent>)
    requires
        obj_wf(*old(object)),
        vel_wf(*old(velocity)),
        bounds_wf(*bounds),
    ensures
        (*final(object), *final(velocity), ev) == border_spec(*old(object), *old(velocity), *bounds),
        obj_wf(*final(object)),
        vel_wf(*final(velocity)),
{
    let is_player = match object.object_type {
        ObjectType::Player => true,
        _ => false,
    };
    if is_player {
        if object.pos.x < bounds.min_x {
            object.pos.x = bounds.min_x;
            velocity.x = 0;
        }
        if object.pos.x + object.width as i64 * SUBPIXEL > bounds.max_x {
            return Some(GameEvent {
                event: GameEventType::GameWon,
                triggered_by: *object,
                target: None,
            });
        }
        if object.pos.y > bounds.max_y {
            return Some(GameEvent {
                event: GameEventType::GameOver,
                triggered_by: *object,
                target: None,
            });
        }
        None
    } else {
        if object.pos.x < 0 {
            object.pos.x = 0;
            velocity.x = 0;
        }
        if object.pos.x + object.width as i64 * SUBPIXEL > bounds.max_x {
            object.pos.x = bounds.max_x - object.width as i64 * SUBPIXEL;
            velocity.x = 0;
        }
        if object.pos.y > bounds.max_y {
            return Some(GameEvent {
                event: GameEventType::Kill,
                triggered_by: *object,
                target: None,
            });
        }
        None
    }
}

/// The whole physics part of one tick for one entity: grounding, gravity and
/// friction, integration, collision resolution against every neighbor in
/// order, and the border check. Returns the events of this tick and whether
/// the entity stands on a block.
pub fn update_physics(
    object: &mut Object,
    velocity: &mut Vec2i,
    surrounding: &Vec<SurroundingObject>,
    bounds: &WorldBounds,
) -> (r: (Vec<GameEvent>, bool))
    requires
        obj_wf(*old(object)),
        vel_wf(*old(velocity)),
        bounds_wf(*bounds),
        forall|i: int| 0 <= i < surrounding@.len() ==> surrounding_wf(#[trigger] surrounding@[i]),
    ensures
        ({
            let grounded = has_support_below(*old(object), surrounding@);
            let v1 = grounding_velocity(*old(velocity), grounded);
            let o1 = integrate_pos(*old(object), v1);
            let f = collide_fold(o1, v1, surrounding@);
            let b = border_spec(f.0, f.1, *bounds);
            &&& *final(object) == b.0
            &&& *final(velocity) == b.1
            &&& r.1 == grounded
            &&& r.0@ == f.2 + opt_event_seq(b.2)
        }),
        obj_wf(*final(object)),
        vel_wf(*final(velocity)),
{
    let grounded = find_support_below(object, surrounding);
    if grounded {
        apply_x_axis_friction(velocity, true);
    } else {
        apply_gravity(velocity);
        apply_x_axis_friction(velocity, false);
    }
    object.pos.x = clamped_add(object.pos.x, velocity.x, POS_LIMIT);
    object.pos.y = clamped_add(object.pos.y, velocity.y, POS_LIMIT);

    let ghost o1 = *object;
    let ghost v1 = *velocity;
    let ghost full = collide_fold(o1, v1, surrounding@);

    let mut events: Vec<GameEvent> = Vec::new();
    let n: usize = surrounding.len();
    let mut i: usize = 0;
    proof {
        assert(surrounding@.skip(0) =~= surrounding@);
        assert(events@ + full.2 =~= full.2);
    }
    while i < n
        invariant
            0 <= i <= n,
            n == surrounding@.len(),
            forall|j: int| 0 <= j < n ==> surrounding_wf(#[trigger] surrounding@[j]),
            obj_wf(*object),
            vel_wf(*velocity),
            full == collide_fold(o1, v1, surrounding@),
            ({
                let rem = collide_fold(*object, *velocity, surrounding@.skip(i as int));
                &&& rem.0 == full.0
                &&& rem.1 == full.1
                &&& events@ + rem.2 == full.2
            }),
        decreases n - i,
    {
        let ghost pre_o = *object;
        let ghost pre_v = *velocity;
        let other = surrounding[i];
        let h = handler_for(object.object_type, other.object.object_type);
        let resp = resolve_collision(h, object, velocity, &other);
        match resp.collision_type {
            Some(ct) => {
                let ev = create_game_event(ct, object, &other.object);
                if let Some(e) = ev {
                    events.push(e);
                }
            },
            None => {},
        }
        if resp.collided {
            object.pos = resp.new_pos;
            *velocity = resp.new_velocity;
        }
        proof {
            let rest = surrounding@.skip(i as int);
            assert(rest[0] == surrounding@[i as int]);
            assert(rest.skip(1) =~= surrounding@.skip(i + 1));
            let s = collide_step(pre_o, pre_v, surrounding@[i as int]);
            assert(*object == s.0 && *velocity == s.1);
            assert(events@ + collide_fold(*object, *velocity, surrounding@.skip(i + 1)).2 =~= full.2);
        }
        i = i + 1;
    }
    proof {
        assert(surrounding@.skip(n as int) =~= Seq::<SurroundingObject>::empty());
    }
    let border_event = handle_world_border(object, velocity, bounds);
    match border_event {
        Some(e) => {
            events.push(e);
            proof {
                assert(events@ =~= full.2 + opt_event_seq(Some(e)));
            }
        },
        None => {
            proof {
                assert(events@ =~= full.2 + opt_event_seq(None));
            }
        },
    }
    (events, grounded)
}

} // verus!
