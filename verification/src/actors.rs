//! The concrete entities: the player, the goomba enemy, the loose power-up,
//! the block, and the transient wrapper around a power-up that is still
//! rising out of its block. Each one owns its geometry, velocity and
//! animation state, and runs the shared per-tick lifecycle.

use vstd::prelude::*;
use crate::config::{
    SUBPIXEL, TILE_SUB, VEL_LIMIT, MAX_PX, MARIO_SPRITE_BLOCK_SIZE, WALK_SPEED,
    JUMP_VELOCITY, JUMP_BOOST_PER_TICK, GROWTH_OVERLAY_UNITS, RUN_ANIM_MIN_SPEED,
    RUN_JUMP_MIN_SPEED, SPRITE_MARIO_STAND, SPRITE_MARIO_RUN1, SPRITE_MARIO_RUN2,
    SPRITE_MARIO_JUMP, SPRITE_MARIO_TURN, SPRITE_MARIO_JUMP_RUN, SPRITE_GOOMBA_1, ACCELERATION_PER_TICK,
    SPRITE_GOOMBA_2, SPRITE_GOOMBA_3, SPRITE_MUSHROOM, SPRITE_PLAIN_BLOCK, POS_LIMIT,
};
use crate::geom::{Vec2i, abs_int, clamp_int, fsign_int, fsign, clamped_add};
use crate::entity::{Object, ObjectType, BlockType, EnemyType, SurroundingObject, obj_wf, vel_wf, surrounding_wf};
use crate::animation::{
    Animate, AnimateV, PlayAnimationV, PlayAnimationBuilder, FrameTypeV,
    animate_wf, animate_step, change_sprites_spec, scale_speed_spec, play_animation_spec,
    ttc_spec,
};
use crate::lifecycle::{
    GameEvent, WorldBounds, bounds_wf, has_support_below, grounding_velocity, integrate_pos,
    collide_fold, border_spec, opt_event_seq, update_physics, lemma_collide_fold_same_shape,
};

verus! {

/// The player's power level.
#[derive(Clone, Copy, PartialEq, Eq, Structural, Debug)]
pub enum PlayerState {
    Dead,
    Small,
    Big,
}

/// The player: geometry, velocity, grounding flag, power level, animation
/// state, and the held direction keys of the current tick.
#[derive(Clone, Debug)]
pub struct Player {
    pub object: Object,
    pub max_speed: i64,
    pub velocity: Vec2i,
    pub is_grounded: bool,
    pub power_state: PlayerState,
    pub animate: Animate,
    pub input_left: bool,
    pub input_right: bool,
}

/// The mathematical model of a [`Player`].
#[verifier::ext_equal]
pub struct PlayerV {
    pub object: Object,
    pub max_speed: i64,
    pub velocity: Vec2i,
    pub is_grounded: bool,
    pub power_state: PlayerState,
    pub animate: AnimateV,
    pub input_left: bool,
    pub input_right: bool,
}

impl View for Player {
    type V = PlayerV;

    open spec fn view(&self) -> PlayerV {
        PlayerV {
            object: self.object,
            max_speed: self.max_speed,
            velocity: self.velocity,
            is_grounded: self.is_grounded,
            power_state: self.power_state,
            animate: self.animate@,
            input_left: self.input_left,
            input_right: self.input_right,
        }
    }
}

/// A well-formed player: sound geometry and velocity, the player kind tag, a
/// positive speed cap, a nonempty base cycle with its cursor in range, and
/// room left to double the height on a power-up.
pub open spec fn player_wf(p: PlayerV) -> bool {
    &&& obj_wf(p.object)
    &&& vel_wf(p.velocity)
    &&& p.object.object_type is Player
    &&& 0 < p.max_speed <= VEL_LIMIT
    &&& animate_wf(p.animate)
    &&& p.animate.frames.len() >= 1
    &&& p.animate.current_frame_index < p.animate.frames.len()
    &&& (p.power_state is Small ==> p.object.height <= 0x8_0000)
}

/// The animation the player's state calls for: jumping sprites while moving
/// vertically, the turn sprite when steering against the motion, the running
/// cycle (at a speed scaled by the velocity) while moving, else standing.
pub open spec fn player_anim_spec(p: PlayerV) -> AnimateV {
    let vx_abs = abs_int(p.velocity.x as int);
    if p.velocity.y != 0 {
        if vx_abs > RUN_JUMP_MIN_SPEED {
            change_sprites_spec(p.animate, seq![SPRITE_MARIO_JUMP_RUN])
        } else {
            change_sprites_spec(p.animate, seq![SPRITE_MARIO_JUMP])
        }
    } else if vx_abs > RUN_ANIM_MIN_SPEED {
        if p.input_right && p.velocity.x < 0 {
            change_sprites_spec(p.animate, seq![SPRITE_MARIO_TURN])
        } else if !p.input_right && p.input_left && p.velocity.x > 0 {
            change_sprites_spec(p.animate, seq![SPRITE_MARIO_TURN])
        } else {
            scale_speed_spec(
                change_sprites_spec(p.animate, seq![SPRITE_MARIO_RUN1, SPRITE_MARIO_RUN2]),
                vx_abs as i64,
                p.max_speed,
            )
        }
    } else {
        change_sprites_spec(p.animate, seq![SPRITE_MARIO_STAND])
    }
}

/// The player after a power-up: from Small it grows to Big, doubling its
/// height and playing a time-boxed height-keyframe growth overlay at a slower
/// frame rate; at any other power level nothing changes.
pub open spec fn power_up_spec(p: PlayerV) -> PlayerV {
    match p.power_state {
        PlayerState::Small => {
            let new_height = (p.object.height * 2) as usize;
            let overlay = PlayAnimationV {
                frame_type: Some(FrameTypeV::Height(seq![p.object.height, new_height])),
                texture_frames: seq![p.animate.frames[p.animate.current_frame_index as int]],
                frame_index: 0,
                loop_for: Some(GROWTH_OVERLAY_UNITS),
            };
            PlayerV {
                power_state: PlayerState::Big,
                object: Object { height: new_height, ..p.object },
                animate: play_animation_spec(scale_speed_spec(p.animate, 4, 5), overlay),
                ..p
            }
        },
        _ => p,
    }
}

/// The player after losing a power level: Big shrinks back to Small at tile
/// height, Small dies; a dead player stays dead.
pub open spec fn power_down_spec(p: PlayerV) -> PlayerV {
    match p.power_state {
        PlayerState::Small => PlayerV { power_state: PlayerState::Dead, ..p },
        PlayerState::Big => PlayerV {
            power_state: PlayerState::Small,
            object: Object {
                height: MARIO_SPRITE_BLOCK_SIZE,
                ..p.object
            },
            ..p
        },
        PlayerState::Dead => p,
    }
}

/// The player after one jump input, and whether a jump sound is owed: from
/// the ground the jump starts at the full upward speed; while already rising
/// the held key keeps boosting; a fall is never slowed.
pub open spec fn jump_spec(p: PlayerV) -> (PlayerV, bool) {
    let p1 = if p.is_grounded {
        PlayerV {
            velocity: Vec2i { x: p.velocity.x, y: (-JUMP_VELOCITY) as i64 },
            is_grounded: false,
            ..p
        }
    } else {
        p
    };
    let sound = p.is_grounded;
    if p1.velocity.y > 0 {
        (p1, sound)
    } else {
        (
            PlayerV {
                velocity: Vec2i {
                    x: p1.velocity.x,
                    y: clamp_int(p1.velocity.y - JUMP_BOOST_PER_TICK, -VEL_LIMIT as int, VEL_LIMIT as int) as i64,
                },
                ..p1
            },
            sound,
        )
    }
}

/// The player after a horizontal impulse: the speed is clamped to the cap.
pub open spec fn add_hvel_spec(p: PlayerV, velocity: i64) -> PlayerV {
    PlayerV {
        velocity: Vec2i {
            x: clamp_int(p.velocity.x + velocity, -p.max_speed as int, p.max_speed as int) as i64,
            y: p.velocity.y,
        },
        ..p
    }
}

/// The player after one tick of input: the held directions are remembered
/// and accelerate it, then a held jump key boosts or starts a jump; paired
/// with whether a jump sound is owed.
pub open spec fn handle_input_spec(p: PlayerV, left: bool, right: bool, jump: bool) -> (PlayerV, bool) {
    let p0 = PlayerV { input_left: left, input_right: right, ..p };
    let p1 = if right { add_hvel_spec(p0, ACCELERATION_PER_TICK) } else { p0 };
    let p2 = if left { add_hvel_spec(p1, (-ACCELERATION_PER_TICK) as i64) } else { p1 };
    if jump { jump_spec(p2) } else { (p2, false) }
}

/// The player after one full tick against the neighbors `ns` and bounds `b`:
/// the shared physics lifecycle, then the state-chosen animation, then one
/// step of the animation clock; paired with the tick's events.
pub open spec fn player_update_spec(p: PlayerV, ns: Seq<SurroundingObject>, b: WorldBounds) -> (PlayerV, Seq<GameEvent>) {
    let grounded = has_support_below(p.object, ns);
    let v1 = grounding_velocity(p.velocity, grounded);
    let o1 = integrate_pos(p.object, v1);
    let f = collide_fold(o1, v1, ns);
    let brd = border_spec(f.0, f.1, b);
    let p1 = PlayerV { object: brd.0, velocity: brd.1, is_grounded: grounded, ..p };
    let p2 = PlayerV { animate: animate_step(player_anim_spec(p1)), ..p1 };
    (p2, f.2 + opt_event_seq(brd.2))
}

impl Player {
    /// A small player at pixel position `(x, y)` with speed cap `max_speed`.
    pub fn new(x: usize, y: usize, max_speed: i64) -> (p: Player)
        requires
            x <= MAX_PX,
            y <= MAX_PX,
            0 < max_speed <= VEL_LIMIT,
        ensures
            p.object.pos.x == x * SUBPIXEL,
            p.object.pos.y == y * SUBPIXEL,
            p.object.width == MARIO_SPRITE_BLOCK_SIZE,
            p.object.height == MARIO_SPRITE_BLOCK_SIZE,
            p.object.object_type is Player,
            p.max_speed == max_speed,
            p.velocity == (Vec2i { x: 0, y: 0 }),
            !p.is_grounded,
            p.power_state is Small,
            p@.animate.frames =~= seq![SPRITE_MARIO_STAND],
            p@.animate.speed_num == 1,
            p@.animate.speed_den == 1,
            p@.animate.time_to_change == ttc_spec(1, 1),
            p@.animate.animation is None,
            p@.animate.current_frame_index == 0,
            p@.animate.time_elapsed == 0,
            !p.input_left,
            !p.input_right,
            player_wf(p@),
    {
        let mut animate = Animate::new(1, 1);
        animate.change_animation_sprites(vec![SPRITE_MARIO_STAND]);
        Player {
            object: Object::new(x, y, ObjectType::Player),
            max_speed,
            velocity: Vec2i { x: 0, y: 0 },
            is_grounded: false,
            power_state: PlayerState::Small,
            animate,
            input_left: false,
            input_right: false,
        }
    }

    /// Promotes the power level; see [`power_up_spec`].
    pub fn power_up(&mut self)
        requires
            player_wf(old(self)@),
        ensures
            final(self)@ == power_up_spec(old(self)@),
            player_wf(final(self)@),
    {
        match self.power_state {
            PlayerState::Small => {
                self.power_state = PlayerState::Big;
                let new_height: usize = self.object.height * 2;
                let current_frame: u32 = self.animate.frames[self.animate.current_frame_index];
                let builder = PlayAnimationBuilder::new(vec![current_frame]);
                let builder = builder.loop_for(GROWTH_OVERLAY_UNITS);
                let builder = builder.height_frames(vec![self.object.height, new_height]);
                let animation = builder.build();
                proof {
                    assert(animation@.texture_frames =~= seq![old(self)@.animate.frames[old(self)@.animate.current_frame_index as int]]);
                    assert(animation@.frame_type == Some(FrameTypeV::Height(seq![old(self).object.height, new_height])));
                    assert(seq![old(self).object.height, new_height] =~= seq![old(self).object.height, (old(self).object.height * 2) as usize]);
                }
                self.object.height = new_height;
                self.animate.scale_animation_speed(4, 5);
                self.animate.play_animation(animation);
                assert(final(self)@ =~~= power_up_spec(old(self)@));
            },
            _ => {},
        }
    }

    /// Demotes the power level; see [`power_down_spec`].
    pub fn power_down(&mut self)
        requires
            player_wf(old(self)@),
        ensures
            final(self)@ == power_down_spec(old(self)@),
            player_wf(final(self)@),
    {
        match self.power_state {
            PlayerState::Small => {
                self.power_state = PlayerState::Dead;
                assert(final(self)@ =~= power_down_spec(old(self)@));
            },
            PlayerState::Big => {
                self.power_state = PlayerState::Small;
                self.object.height = MARIO_SPRITE_BLOCK_SIZE;
                assert(final(self)@ =~= power_down_spec(old(self)@));
            },
            PlayerState::Dead => {
                assert(final(self)@ =~= power_down_spec(old(self)@));
            },
        }
    }

    /// Adds a horizontal impulse and clamps the speed to the cap.
    pub fn add_horizontal_velocity(&mut self, velocity: i64)
        requires
            player_wf(old(self)@),
            -VEL_LIMIT <= velocity <= VEL_LIMIT,
        ensures
            final(self)@ == (PlayerV {
                velocity: Vec2i {
                    x: clamp_int(
                        old(self).velocity.x + velocity,
                        -old(self)@.max_speed as int,
                        old(self)@.max_speed as int,
                    ) as i64,
                    y: old(self).velocity.y,
                },
                ..old(self)@
            }),
            player_wf(final(self)@),
    {
        let v: i64 = self.velocity.x + velocity;
        self.velocity.x = if v < -self.max_speed {
            -self.max_speed
        } else if v > self.max_speed {
            self.max_speed
        } else {
            v
        };
        assert(final(self)@ =~= (PlayerV {
            velocity: Vec2i { x: final(self).velocity.x, y: old(self).velocity.y },
            ..old(self)@
        }));
    }

    /// One tick of held jump input; returns whether a jump sound is owed.
    /// See [`jump_spec`].
    pub fn jump(&mut self) -> (sound: bool)
        requires
            player_wf(old(self)@),
        ensures
            (final(self)@, sound) == jump_spec(old(self)@),
            player_wf(final(self)@),
    {
        let mut sound = false;
        if self.is_grounded {
            sound = true;
            self.velocity.y = -JUMP_VELOCITY;
            self.is_grounded = false;
        }
        if self.velocity.y > 0 {
            assert(final(self)@ =~= jump_spec(old(self)@).0);
            return sound;
        }
        self.velocity.y = clamped_add(self.velocity.y, -JUMP_BOOST_PER_TICK, VEL_LIMIT);
        assert(final(self)@ =~= jump_spec(old(self)@).0);
        sound
    }

    /// Picks the base cycle for the current velocity and input; see
    /// [`player_anim_spec`].
    pub fn update_animation(&mut self)
        requires
            player_wf(old(self)@),
        ensures
            final(self)@ == (PlayerV { animate: player_anim_spec(old(self)@), ..old(self)@ }),
            player_wf(final(self)@),
    {
        let vx_abs: i64 = if self.velocity.x < 0 { -self.velocity.x } else { self.velocity.x };
        if self.velocity.y != 0 {
            if vx_abs > RUN_JUMP_MIN_SPEED {
                let fv = vec![SPRITE_MARIO_JUMP_RUN];
                proof { assert(fv@ =~= seq![SPRITE_MARIO_JUMP_RUN]); }
                self.animate.change_animation_sprites(fv);
            } else {
                let fv = vec![SPRITE_MARIO_JUMP];
                proof { assert(fv@ =~= seq![SPRITE_MARIO_JUMP]); }
                self.animate.change_animation_sprites(fv);
            }
        } else if vx_abs > RUN_ANIM_MIN_SPEED {
            if self.input_right && self.velocity.x < 0 {
                let fv = vec![SPRITE_MARIO_TURN];
                proof { assert(fv@ =~= seq![SPRITE_MARIO_TURN]); }
                self.animate.change_animation_sprites(fv);
            } else if !self.input_right && self.input_left && self.velocity.x > 0 {
                let fv = vec![SPRITE_MARIO_TURN];
                proof { assert(fv@ =~= seq![SPRITE_MARIO_TURN]); }
                self.animate.change_animation_sprites(fv);
            } else {
                let fv = vec![SPRITE_MARIO_RUN1, SPRITE_MARIO_RUN2];
                proof { assert(fv@ =~= seq![SPRITE_MARIO_RUN1, SPRITE_MARIO_RUN2]); }
                self.animate.change_animation_sprites(fv);
                let max_speed: i64 = self.max_speed;
                self.animate.scale_animation_speed(vx_abs, max_speed);
            }
        } else {
            let fv = vec![SPRITE_MARIO_STAND];
            proof { assert(fv@ =~= seq![SPRITE_MARIO_STAND]); }
            self.animate.change_animation_sprites(fv);
        }
        assert(final(self)@ =~~= (PlayerV { animate: player_anim_spec(old(self)@), ..old(self)@ }));
    }

    /// One full tick; see [`player_update_spec`].
    pub fn update(&mut self, surrounding_objects: &Vec<SurroundingObject>, world_bounds: WorldBounds) -> (events: Vec<GameEvent>)
        requires
            player_wf(old(self)@),
            bounds_wf(world_bounds),
            forall|i: int| 0 <= i < surrounding_objects@.len()
                ==> surrounding_wf(#[trigger] surrounding_objects@[i]),
        ensures
            final(self)@ == player_update_spec(old(self)@, surrounding_objects@, world_bounds).0,
            events@ == player_update_spec(old(self)@, surrounding_objects@, world_bounds).1,
            player_wf(final(self)@),
    {
        let r = update_physics(&mut self.object, &mut self.velocity, surrounding_objects, &world_bounds);
        proof {
            let grounded = has_support_below(old(self)@.object, surrounding_objects@);
            let v1 = grounding_velocity(old(self)@.velocity, grounded);
            let o1 = integrate_pos(old(self)@.object, v1);
            lemma_collide_fold_same_shape(o1, v1, surrounding_objects@);
        }
        self.is_grounded = r.1;
        self.update_animation();
        self.animate.update();
        assert(final(self)@ =~~= player_update_spec(old(self)@, surrounding_objects@, world_bounds).0);
        r.0
    }
}

/// A goomba: geometry, velocity, a nominal top speed for its walk animation,
/// and its animation state.
#[derive(Clone, Debug)]
pub struct Goomba {
    pub object: Object,
    pub max_speed: i64,
    pub velocity: Vec2i,
    pub animate: Animate,
    pub is_grounded: bool,
}

/// The mathematical model of a [`Goomba`].
#[verifier::ext_equal]
pub struct GoombaV {
    pub object: Object,
    pub max_speed: i64,
    pub velocity: Vec2i,
    pub animate: AnimateV,
    pub is_grounded: bool,
}

impl View for Goomba {
    type V = GoombaV;

    open spec fn view(&self) -> GoombaV {
        GoombaV {
            object: self.object,
            max_speed: self.max_speed,
            velocity: self.velocity,
            animate: self.animate@,
            is_grounded: self.is_grounded,
        }
    }
}

/// A well-formed goomba.
pub open spec fn goomba_wf(g: GoombaV) -> bool {
    &&& obj_wf(g.object)
    &&& vel_wf(g.velocity)
    &&& g.object.object_type is Enemy
    &&& 0 < g.max_speed <= VEL_LIMIT
    &&& animate_wf(g.animate)
}

/// The animation a goomba's state calls for: the walking cycle scaled by its
/// speed while moving, else its first frame.
pub open spec fn goomba_anim_spec(g: GoombaV) -> AnimateV {
    let vx_abs = abs_int(g.velocity.x as int);
    if vx_abs > RUN_ANIM_MIN_SPEED {
        scale_speed_spec(
            change_sprites_spec(g.animate, seq![SPRITE_GOOMBA_1, SPRITE_GOOMBA_2, SPRITE_GOOMBA_3]),
            vx_abs as i64,
            g.max_speed,
        )
    } else {
        change_sprites_spec(g.animate, seq![SPRITE_GOOMBA_1])
    }
}

/// A goomba after one full tick: its walking speed is first pinned to one
/// pixel per tick in its current direction (goombas feel no friction), then
/// the shared lifecycle runs, then its animation advances.
pub open spec fn goomba_update_spec(g: GoombaV, ns: Seq<SurroundingObject>, b: WorldBounds) -> (GoombaV, Seq<GameEvent>) {
    let v0 = Vec2i { x: (WALK_SPEED * fsign_int(g.velocity.x as int)) as i64, y: g.velocity.y };
    let grounded = has_support_below(g.object, ns);
    let v1 = grounding_velocity(v0, grounded);
    let o1 = integrate_pos(g.object, v1);
    let f = collide_fold(o1, v1, ns);
    let brd = border_spec(f.0, f.1, b);
    let g1 = GoombaV { object: brd.0, velocity: brd.1, is_grounded: grounded, ..g };
    let g2 = GoombaV { animate: animate_step(goomba_anim_spec(g1)), ..g1 };
    (g2, f.2 + opt_event_seq(brd.2))
}

impl Goomba {
    /// A goomba at pixel position `(x, y)`, walking to the right.
    pub fn new(x: usize, y: usize, max_speed: i64) -> (g: Goomba)
        requires
            x <= MAX_PX,
            y <= MAX_PX,
            0 < max_speed <= VEL_LIMIT,
        ensures
            g.object.pos.x == x * SUBPIXEL,
            g.object.pos.y == y * SUBPIXEL,
            g.object.width == MARIO_SPRITE_BLOCK_SIZE,
            g.object.height == MARIO_SPRITE_BLOCK_SIZE,
            g.object.object_type == ObjectType::Enemy(EnemyType::Goomba),
            g.max_speed == max_speed,
            g.velocity == (Vec2i { x: WALK_SPEED, y: 0 }),
            !g.is_grounded,
            g@.animate.frames =~= seq![SPRITE_GOOMBA_1, SPRITE_GOOMBA_2, SPRITE_GOOMBA_3],
            g@.animate.speed_num == 1,
            g@.animate.speed_den == 1,
            g@.animate.time_to_change == ttc_spec(1, 1),
            g@.animate.animation is None,
            g@.animate.current_frame_index == 0,
            g@.animate.time_elapsed == 0,
            goomba_wf(g@),
    {
        let mut animate = Animate::new(1, 1);
        animate.change_animation_sprites(vec![SPRITE_GOOMBA_1, SPRITE_GOOMBA_2, SPRITE_GOOMBA_3]);
        Goomba {
            object: Object::new(x, y, ObjectType::Enemy(EnemyType::Goomba)),
            max_speed,
            velocity: Vec2i { x: WALK_SPEED, y: 0 },
            animate,
            is_grounded: false,
        }
    }

    /// Picks the base cycle for the current velocity; see [`goomba_anim_spec`].
    pub fn update_animation(&mut self)
        requires
            goomba_wf(old(self)@),
        ensures
            final(self)@ == (GoombaV { animate: goomba_anim_spec(old(self)@), ..old(self)@ }),
            goomba_wf(final(self)@),
    {
        let vx_abs: i64 = if self.velocity.x < 0 { -self.velocity.x } else { self.velocity.x };
        if vx_abs > RUN_ANIM_MIN_SPEED {
            let fv = vec![SPRITE_GOOMBA_1, SPRITE_GOOMBA_2, SPRITE_GOOMBA_3];
            proof { assert(fv@ =~= seq![SPRITE_GOOMBA_1, SPRITE_GOOMBA_2, SPRITE_GOOMBA_3]); }
            self.animate.change_animation_sprites(fv);
            let max_speed: i64 = self.max_speed;
            self.animate.scale_animation_speed(vx_abs, max_speed);
        } else {
            let fv = vec![SPRITE_GOOMBA_1];
            proof { assert(fv@ =~= seq![SPRITE_GOOMBA_1]); }
            self.animate.change_animation_sprites(fv);
        }
        assert(final(self)@ =~~= (GoombaV { animate: goomba_anim_spec(old(self)@), ..old(self)@ }));
    }

    /// One full tick; see [`goomba_update_spec`].
    pub fn update(&mut self, surrounding_objects: &Vec<SurroundingObject>, world_bounds: WorldBounds) -> (events: Vec<GameEvent>)
        requires
            goomba_wf(old(self)@),
            bounds_wf(world_bounds),
            forall|i: int| 0 <= i < surrounding_objects@.len()
                ==> surrounding_wf(#[trigger] surrounding_objects@[i]),
        ensures
            final(self)@ == goomba_update_spec(old(self)@, surrounding_objects@, world_bounds).0,
            events@ == goomba_update_spec(old(self)@, surrounding_objects@, world_bounds).1,
            goomba_wf(final(self)@),
    {
        let s: i64 = fsign(self.velocity.x);
        self.velocity.x = if s < 0 { -WALK_SPEED } else { WALK_SPEED };
        let r = update_physics(&mut self.object, &mut self.velocity, surrounding_objects, &world_bounds);
        proof {
            let v0 = Vec2i { x: (WALK_SPEED * fsign_int(old(self)@.velocity.x as int)) as i64, y: old(self)@.velocity.y };
            let grounded = has_support_below(old(self)@.object, surrounding_objects@);
            let v1 = grounding_velocity(v0, grounded);
            let o1 = integrate_pos(old(self)@.object, v1);
            lemma_collide_fold_same_shape(o1, v1, surrounding_objects@);
        }
        self.is_grounded = r.1;
        self.update_animation();
        self.animate.update();
        assert(final(self)@ =~~= goomba_update_spec(old(self)@, surrounding_objects@, world_bounds).0);
        r.0
    }
}

/// A loose power-up walking through the world.
#[derive(Clone, Debug)]
pub struct PowerUp {
    pub object: Object,
    pub velocity: Vec2i,
    pub animate: Animate,
}

/// The mathematical model of a [`PowerUp`].
#[verifier::ext_equal]
pub struct PowerUpV {
    pub object: Object,
    pub velocity: Vec2i,
    pub animate: AnimateV,
}

impl View for PowerUp {
    type V = PowerUpV;

    open spec fn view(&self) -> PowerUpV {
        PowerUpV {
            object: self.object,
            velocity: self.velocity,
            animate: self.animate@,
        }
    }
}

/// A well-formed power-up.
pub open spec fn powerup_wf(p: PowerUpV) -> bool {
    &&& obj_wf(p.object)
    &&& vel_wf(p.velocity)
    &&& p.object.object_type is Powerup
    &&& animate_wf(p.animate)
}

/// A power-up after one full tick: like a goomba it is pinned to one pixel
/// per tick, runs the shared lifecycle (ignoring the grounding flag), and
/// its animation clock advances twice: once as its own animation update and
/// once as the lifecycle's.
pub open spec fn powerup_update_spec(p: PowerUpV, ns: Seq<SurroundingObject>, b: WorldBounds) -> (PowerUpV, Seq<GameEvent>) {
    let v0 = Vec2i { x: (WALK_SPEED * fsign_int(p.velocity.x as int)) as i64, y: p.velocity.y };
    let grounded = has_support_below(p.object, ns);
    let v1 = grounding_velocity(v0, grounded);
    let o1 = integrate_pos(p.object, v1);
    let f = collide_fold(o1, v1, ns);
    let brd = border_spec(f.0, f.1, b);
    let p1 = PowerUpV { object: brd.0, velocity: brd.1, ..p };
    let p2 = PowerUpV { animate: animate_step(animate_step(p1.animate)), ..p1 };
    (p2, f.2 + opt_event_seq(brd.2))
}

impl PowerUp {
    /// A power-up at pixel position `(x, y)`, moving to the right.
    pub fn new(x: usize, y: usize) -> (p: PowerUp)
        requires
            x <= MAX_PX,
            y <= MAX_PX,
        ensures
            p.object.pos.x == x * SUBPIXEL,
            p.object.pos.y == y * SUBPIXEL,
            p.object.width == MARIO_SPRITE_BLOCK_SIZE,
            p.object.height == MARIO_SPRITE_BLOCK_SIZE,
            p.object.object_type is Powerup,
            p.velocity == (Vec2i { x: WALK_SPEED, y: 0 }),
            p@.animate.frames =~= seq![SPRITE_MUSHROOM],
            p@.animate.speed_num == 1,
            p@.animate.speed_den == 1,
            p@.animate.time_to_change == ttc_spec(1, 1),
            p@.animate.animation is None,
            p@.animate.current_frame_index == 0,
            p@.animate.time_elapsed == 0,
            powerup_wf(p@),
    {
        let mut animate = Animate::new(1, 1);
        animate.change_animation_sprites(vec![SPRITE_MUSHROOM]);
        PowerUp {
            object: Object::new(x, y, ObjectType::Powerup),
            velocity: Vec2i { x: WALK_SPEED, y: 0 },
            animate,
        }
    }

    /// One full tick; see [`powerup_update_spec`].
    pub fn update(&mut self, surrounding_objects: &Vec<SurroundingObject>, world_bounds: WorldBounds) -> (events: Vec<GameEvent>)
        requires
            powerup_wf(old(self)@),
            bounds_wf(world_bounds),
            forall|i: int| 0 <= i < surrounding_objects@.len()
                ==> surrounding_wf(#[trigger] surrounding_objects@[i]),
        ensures
            final(self)@ == powerup_update_spec(old(self)@, surrounding_objects@, world_bounds).0,
            events@ == powerup_update_spec(old(self)@, surrounding_objects@, world_bounds).1,
            powerup_wf(final(self)@),
    {
        let s: i64 = fsign(self.velocity.x);
        self.velocity.x = if s < 0 { -WALK_SPEED } else { WALK_SPEED };
        let r = update_physics(&mut self.object, &mut self.velocity, surrounding_objects, &world_bounds);
        proof {
            let v0 = Vec2i { x: (WALK_SPEED * fsign_int(old(self)@.velocity.x as int)) as i64, y: old(self)@.velocity.y };
            let grounded = has_support_below(old(self)@.object, surrounding_objects@);
            let v1 = grounding_velocity(v0, grounded);
            let o1 = integrate_pos(old(self)@.object, v1);
            lemma_collide_fold_same_shape(o1, v1, surrounding_objects@);
        }
        self.animate.update();
        self.animate.update();
        assert(final(self)@ =~~= powerup_update_spec(old(self)@, surrounding_objects@, world_bounds).0);
        r.0
    }
}

/// A block tile: geometry, the sprite it was loaded with, and its animation
/// state (only ever a cosmetic bump overlay).
#[derive(Clone, Debug)]
pub struct Block {
    pub object: Object,
    pub texture_id: u8,
    pub animate: Animate,
}

/// The mathematical model of a [`Block`].
#[verifier::ext_equal]
pub struct BlockV {
    pub object: Object,
    pub texture_id: u8,
    pub animate: AnimateV,
}

impl View for Block {
    type V = BlockV;

    open spec fn view(&self) -> BlockV {
        BlockV {
            object: self.object,
            texture_id: self.texture_id,
            animate: self.animate@,
        }
    }
}

/// A well-formed block.
pub open spec fn block_wf(b: BlockV) -> bool {
    &&& obj_wf(b.object)
    &&& b.object.object_type is Block
    &&& animate_wf(b.animate)
}

impl Block {
    /// A plain block at pixel position `(x, y)` showing tile `texture_id`.
    pub fn new_block(x: usize, y: usize, texture_id: u8) -> (b: Block)
        requires
            x <= MAX_PX,
            y <= MAX_PX,
        ensures
            b.object.pos.x == x * SUBPIXEL,
            b.object.pos.y == y * SUBPIXEL,
            b.object.width == MARIO_SPRITE_BLOCK_SIZE,
            b.object.height == MARIO_SPRITE_BLOCK_SIZE,
            b.object.object_type == ObjectType::Block(BlockType::Block),
            b.texture_id == texture_id,
            b@.animate.frames =~= seq![texture_id as u32],
            b@.animate.speed_num == 1,
            b@.animate.speed_den == 1,
            b@.animate.time_to_change == ttc_spec(1, 1),
            b@.animate.animation is None,
            b@.animate.current_frame_index == 0,
            b@.animate.time_elapsed == 0,
            block_wf(b@),
    {
        let mut animate = Animate::new(1, 1);
        animate.change_animation_sprites(vec![texture_id as u32]);
        Block {
            object: Object::new(x, y, ObjectType::Block(BlockType::Block)),
            texture_id,
            animate,
        }
    }

    /// A power-up block at pixel position `(x, y)` showing tile `texture_id`.
    pub fn new_powerup_block(x: usize, y: usize, texture_id: u8) -> (b: Block)
        requires
            x <= MAX_PX,
            y <= MAX_PX,
        ensures
            b.object.pos.x == x * SUBPIXEL,
            b.object.pos.y == y * SUBPIXEL,
            b.object.width == MARIO_SPRITE_BLOCK_SIZE,
            b.object.height == MARIO_SPRITE_BLOCK_SIZE,
            b.object.object_type == ObjectType::Block(BlockType::PowerupBlock),
            b.texture_id == texture_id,
            b@.animate.frames =~= seq![texture_id as u32],
            b@.animate.speed_num == 1,
            b@.animate.speed_den == 1,
            b@.animate.time_to_change == ttc_spec(1, 1),
            b@.animate.animation is None,
            b@.animate.current_frame_index == 0,
            b@.animate.time_elapsed == 0,
            block_wf(b@),
    {
        let mut animate = Animate::new(1, 1);
        animate.change_animation_sprites(vec![texture_id as u32]);
        Block {
            object: Object::new(x, y, ObjectType::Block(BlockType::PowerupBlock)),
            texture_id,
            animate,
        }
    }

    /// Turns a used power-up block into a plain block in place: the kind tag
    /// and the sprite change, the grid slot stays.
    pub fn transform_into_regular_block(&mut self)
        requires
            block_wf(old(self)@),
        ensures
            final(self)@ == (BlockV {
                object: Object {
                    object_type: ObjectType::Block(BlockType::Block),
                    ..old(self)@.object
                },
                animate: change_sprites_spec(old(self)@.animate, seq![SPRITE_PLAIN_BLOCK]),
                ..old(self)@
            }),
            block_wf(final(self)@),
    {
        self.object.object_type = ObjectType::Block(BlockType::Block);
        self.animate.change_animation_sprites(vec![SPRITE_PLAIN_BLOCK]);
        assert(final(self)@ =~~= (BlockV {
            object: Object {
                object_type: ObjectType::Block(BlockType::Block),
                ..old(self)@.object
            },
            animate: change_sprites_spec(old(self)@.animate, seq![SPRITE_PLAIN_BLOCK]),
            ..old(self)@
        }));
    }

    /// One tick: only the animation clock advances.
    pub fn update(&mut self)
        requires
            block_wf(old(self)@),
        ensures
            final(self)@ == (BlockV { animate: animate_step(old(self)@.animate), ..old(self)@ }),
            block_wf(final(self)@),
    {
        self.animate.update();
        assert(final(self)@ =~~= (BlockV { animate: animate_step(old(self)@.animate), ..old(self)@ }));
    }
}

/// The spawn animations a [`SpawningObject`] can play.
#[derive(Clone, Copy, PartialEq, Eq, Structural, Debug)]
pub enum SpawnAnimation {
    PowerUp,
}

/// A not-yet-live power-up rising out of its block: the wrapped entity, the
/// rise progress and its end, and the draw offset that shrinks as it rises.
#[derive(Clone, Debug)]
pub struct SpawningObject {
    pub object: PowerUp,
    pub animation_progress: i64,
    pub animation_finish: i64,
    pub spawn_animation: SpawnAnimation,
    pub draw_offset: Vec2i,
}

/// The mathematical model of a [`SpawningObject`].
#[verifier::ext_equal]
pub struct SpawningObjectV {
    pub object: PowerUpV,
    pub animation_progress: i64,
    pub animation_finish: i64,
    pub spawn_animation: SpawnAnimation,
    pub draw_offset: Vec2i,
}

impl View for SpawningObject {
    type V = SpawningObjectV;

    open spec fn view(&self) -> SpawningObjectV {
        SpawningObjectV {
            object: self.object@,
            animation_progress: self.animation_progress,
            animation_finish: self.animation_finish,
            spawn_animation: self.spawn_animation,
            draw_offset: self.draw_offset,
        }
    }
}

/// A well-formed spawning wrapper.
pub open spec fn spawning_wf(s: SpawningObjectV) -> bool {
    &&& powerup_wf(s.object)
    &&& 0 <= s.animation_progress <= POS_LIMIT
    &&& 0 < s.animation_finish <= TILE_SUB
    &&& -POS_LIMIT <= s.draw_offset.x <= POS_LIMIT
    &&& -POS_LIMIT <= s.draw_offset.y <= POS_LIMIT
}

/// Rise speed of a spawning power-up: half a pixel per tick, in subpixels.
pub const SPAWN_RISE_PER_TICK: i64 = 60;

/// A spawning wrapper after one tick, and whether the rise is complete: the
/// progress gains the rise speed; short of the end the draw offset shrinks.
pub open spec fn spawning_step(s: SpawningObjectV) -> (SpawningObjectV, bool) {
    let p2 = clamp_int(s.animation_progress + SPAWN_RISE_PER_TICK, -POS_LIMIT as int, POS_LIMIT as int) as i64;
    if p2 >= s.animation_finish {
        (SpawningObjectV { animation_progress: p2, ..s }, true)
    } else {
        (
            SpawningObjectV {
                animation_progress: p2,
                draw_offset: Vec2i {
                    x: s.draw_offset.x,
                    y: clamp_int(s.draw_offset.y - SPAWN_RISE_PER_TICK, -POS_LIMIT as int, POS_LIMIT as int) as i64,
                },
                ..s
            },
            false,
        )
    }
}

impl SpawningObject {
    /// Wraps `object` as a power-up rising out of a block: it is drawn one
    /// tile down and rises one tile's worth of subpixels.
    pub fn new(object: PowerUp) -> (s: SpawningObject)
        requires
            powerup_wf(object@),
        ensures
            s@ == (SpawningObjectV {
                object: object@,
                animation_progress: 0,
                animation_finish: TILE_SUB,
                spawn_animation: SpawnAnimation::PowerUp,
                draw_offset: Vec2i { x: 0, y: TILE_SUB },
            }),
            spawning_wf(s@),
    {
        SpawningObject {
            object,
            animation_progress: 0,
            animation_finish: TILE_SUB,
            spawn_animation: SpawnAnimation::PowerUp,
            draw_offset: Vec2i { x: 0, y: TILE_SUB },
        }
    }

    /// One tick of the rise; see [`spawning_step`].
    pub fn update(&mut self) -> (done: bool)
        requires
            spawning_wf(old(self)@),
        ensures
            (final(self)@, done) == spawning_step(old(self)@),
            spawning_wf(final(self)@),
    {
        self.animation_progress = clamped_add(self.animation_progress, SPAWN_RISE_PER_TICK, POS_LIMIT);
        if self.animation_progress >= self.animation_finish {
            assert((final(self)@, true) =~~= spawning_step(old(self)@));
            true
        } else {
            self.draw_offset.y = clamped_add(self.draw_offset.y, -SPAWN_RISE_PER_TICK, POS_LIMIT);
            assert((final(self)@, false) =~~= spawning_step(old(self)@));
            false
        }
    }
}

} // verus!
