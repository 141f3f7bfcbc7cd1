//! The world orchestrator: it owns every entity collection and the spatial
//! index, drives the per-tick update of all entities, applies the resulting
//! gameplay events, and runs the game-state machine.
//!
//! The spatial index is a grid of one cell per tile; a cell holds a
//! reference — a kind and an index into the owning collection — to at most
//! one entity. Indices are unstable handles: removing an entity shifts the
//! later indices, which the grid does not renumber; a reference that points
//! past the end of its collection is treated as an empty cell.

use vstd::prelude::*;
use crate::config::{
    SUBPIXEL, MARIO_SPRITE_BLOCK_SIZE, MAX_PX, POS_LIMIT, WORLD_WIDTH, CAMERA_WIDTH,
    MAX_VELOCITY_X, ACCELERATION_PER_TICK, GOOMBA_MAX_SPEED, PLAYER_START_X, PLAYER_START_Y,
    FROZEN_TICKS, SPRITE_GOOMBA_1, SPRITE_GOOMBA_2, SPRITE_GOOMBA_3,
    SPRITE_MUSHROOM, WALK_SPEED, TILE_SUB, GRAVITY_PER_TICK, VEL_LIMIT, SPRITE_PLAIN_BLOCK,
};
use crate::geom::{
    Vec2i, clamp_int, spec_tile_index, tile_index, spec_tile_to_grid, tile_to_grid,
    spec_sub_to_px, sub_to_px, MAX_GRID, sgn, sgn_int, fsign, fsign_int, clamped_add,
};
use crate::entity::{Object, ObjectType, BlockType, EnemyType, obj_wf, obj_matches, SurroundingObject, surrounding_wf};
use crate::animation::{
    AnimateV, ttc_spec, change_sprites_spec, play_animation_spec, scale_speed_spec,
    FrameTypeV, PlayAnimationV, PlayAnimationBuilder, copied_frames, animate_step,
};
use crate::actors::{
    Player, PlayerV, player_wf, Goomba, GoombaV, goomba_wf, PowerUp, PowerUpV, powerup_wf,
    Block, BlockV, block_wf, SpawningObject, SpawningObjectV, spawning_wf, SpawnAnimation,
    handle_input_spec, power_up_spec, power_down_spec, PlayerState,
    spawning_step, goomba_update_spec, powerup_update_spec, player_update_spec,
};
use crate::level::{LevelData, spec_sprite_id_to_type, sprite_id_to_type};
use crate::lifecycle::{
    GameEvent, GameEventType, apply_gravity, WorldBounds, bounds_wf, event_objects_wf,
    lemma_physics_wf, has_support_below, grounding_velocity, integrate_pos,
};
use crate::collision::center_x;
use vstd::arithmetic::div_mod::lemma_fundamental_div_mod_converse;

verus! {

/// What one grid cell points at: nothing, the player, or an index into one
/// of the owning collections.
#[derive(Clone, Copy, PartialEq, Eq, Structural, Debug)]
pub enum ObjectReference {
    Block(usize),
    Enemy(usize),
    Player,
    Powerup(usize),
    Empty,
}

/// The finite game-state machine: `Frozen` counts down a number of ticks and
/// reverts to `Playing`; `GameWon` and `GameOver` are terminal.
#[derive(Clone, Copy, PartialEq, Eq, Structural, Debug)]
pub enum GameState {
    Playing,
    GameWon,
    GameOver,
    Frozen(u32),
}

/// The camera: derived display state following the player, clamped to the
/// world.
#[derive(Clone, Copy, PartialEq, Eq, Structural, Debug)]
pub struct Camera {
    pub x: usize,
    pub y: usize,
    pub width: usize,
    pub height: usize,
}

/// The camera after following the player to pixel position `(px, py)`: it
/// trails a quarter screen behind, never scrolls back left, and stays inside
/// the world.
pub open spec fn camera_update_spec(c: Camera, px: usize, py: usize) -> Camera {
    let target = if px >= c.width / 4 { (px - c.width / 4) as usize } else { 0 };
    let x2 = if target >= c.x {
        if target > WORLD_WIDTH - c.width { (WORLD_WIDTH - c.width) as usize } else { target }
    } else {
        c.x
    };
    let y2 = if py >= c.height { (py - c.height) as usize } else { 0 };
    Camera { x: x2, y: y2, ..c }
}

impl Camera {
    /// A camera of the given view size at the world's origin.
    pub fn new(width: usize, height: usize) -> (c: Camera)
        ensures
            c == (Camera { x: 0, y: 0, width, height }),
    {
        Camera { x: 0, y: 0, width, height }
    }

    /// Follows the player; see [`camera_update_spec`].
    pub fn update(&mut self, player_x: usize, player_y: usize)
        requires
            old(self).width <= WORLD_WIDTH,
        ensures
            *final(self) == camera_update_spec(*old(self), player_x, player_y),
    {
        let quarter: usize = self.width / 4;
        let new_x: usize = if player_x >= quarter { player_x - quarter } else { 0 };
        if new_x >= self.x {
            let limit: usize = WORLD_WIDTH - self.width;
            self.x = if new_x > limit { limit } else { new_x };
        }
        self.y = if player_y >= self.height { player_y - self.height } else { 0 };
    }
}

/// The world: pixel extent, the spatial index, the player, the owning
/// collections, the not-yet-live spawns, the camera, and the game state.
pub struct World {
    pub height: usize,
    pub width: usize,
    pub objects: Vec<Vec<ObjectReference>>,
    pub player: Player,
    pub enemies: Vec<Goomba>,
    pub powerups: Vec<PowerUp>,
    pub blocks: Vec<Block>,
    pub spawning_objects: Vec<SpawningObject>,
    pub camera: Camera,
    pub game_state: GameState,
}

/// The mathematical model of a [`World`].
#[verifier::ext_equal]
pub struct WorldV {
    pub height: usize,
    pub width: usize,
    pub grid: Seq<Seq<ObjectReference>>,
    pub player: PlayerV,
    pub enemies: Seq<GoombaV>,
    pub powerups: Seq<PowerUpV>,
    pub blocks: Seq<BlockV>,
    pub spawning_objects: Seq<SpawningObjectV>,
    pub camera: Camera,
    pub game_state: GameState,
}

/// The deep view of the grid storage.
pub open spec fn grid_view(objects: Vec<Vec<ObjectReference>>) -> Seq<Seq<ObjectReference>> {
    objects@.map_values(|row: Vec<ObjectReference>| row@)
}

/// The view of a goomba collection.
pub open spec fn goombas_view(v: Vec<Goomba>) -> Seq<GoombaV> {
    v@.map_values(|g: Goomba| g@)
}

/// The view of a power-up collection.
pub open spec fn powerups_view(v: Vec<PowerUp>) -> Seq<PowerUpV> {
    v@.map_values(|p: PowerUp| p@)
}

/// The view of a block collection.
pub open spec fn blocks_view(v: Vec<Block>) -> Seq<BlockV> {
    v@.map_values(|b: Block| b@)
}

/// The view of a spawning-wrapper collection.
pub open spec fn spawnings_view(v: Vec<SpawningObject>) -> Seq<SpawningObjectV> {
    v@.map_values(|s: SpawningObject| s@)
}

impl View for World {
    type V = WorldV;

    open spec fn view(&self) -> WorldV {
        WorldV {
            height: self.height,
            width: self.width,
            grid: grid_view(self.objects),
            player: self.player@,
            enemies: goombas_view(self.enemies),
            powerups: powerups_view(self.powerups),
            blocks: blocks_view(self.blocks),
            spawning_objects: spawnings_view(self.spawning_objects),
            camera: self.camera,
            game_state: self.game_state,
        }
    }
}

/// A well-formed world: a rectangular grid of one cell per tile, a bounded
/// extent, well-formed entities everywhere, and a camera inside the world.
pub open spec fn world_wf(w: WorldV) -> bool {
    &&& MARIO_SPRITE_BLOCK_SIZE <= w.width <= MAX_PX
    &&& MARIO_SPRITE_BLOCK_SIZE <= w.height <= MAX_PX
    &&& w.grid.len() == w.height / MARIO_SPRITE_BLOCK_SIZE
    &&& forall|i: int| 0 <= i < w.grid.len()
        ==> (#[trigger] w.grid[i]).len() == w.width / MARIO_SPRITE_BLOCK_SIZE
    &&& player_wf(w.player)
    &&& forall|i: int| 0 <= i < w.enemies.len() ==> goomba_wf(#[trigger] w.enemies[i])
    &&& forall|i: int| 0 <= i < w.powerups.len() ==> powerup_wf(#[trigger] w.powerups[i])
    &&& forall|i: int| 0 <= i < w.blocks.len() ==> block_wf(#[trigger] w.blocks[i])
    &&& forall|i: int| 0 <= i < w.spawning_objects.len()
        ==> spawning_wf(#[trigger] w.spawning_objects[i])
    &&& w.camera.width <= WORLD_WIDTH
    &&& w.camera.x <= WORLD_WIDTH
}

/// The grid tile a subpixel coordinate falls on, as a grid index.
pub open spec fn grid_coord(p: i64) -> int {
    spec_tile_to_grid(spec_tile_index(p as int))
}

/// `grid` with the cell at row `ty`, column `tx` replaced by `r`.
pub open spec fn grid_set_spec(grid: Seq<Seq<ObjectReference>>, ty: int, tx: int, r: ObjectReference) -> Seq<Seq<ObjectReference>> {
    grid.update(ty, grid[ty].update(tx, r))
}

/// The cell a reference-lookup for `object` resolves to, if its tile lies in
/// the grid.
pub open spec fn ref_at_spec(grid: Seq<Seq<ObjectReference>>, object: Object) -> Option<ObjectReference> {
    let ty = grid_coord(object.pos.y);
    let tx = grid_coord(object.pos.x);
    if ty < grid.len() && tx < grid[ty].len() {
        Some(grid[ty][tx])
    } else {
        None
    }
}

/// `grid` with `object`'s cell cleared, if its tile lies in the grid.
pub open spec fn clear_ref_spec(grid: Seq<Seq<ObjectReference>>, object: Object) -> Seq<Seq<ObjectReference>> {
    let ty = grid_coord(object.pos.y);
    let tx = grid_coord(object.pos.x);
    if ty < grid.len() && tx < grid[ty].len() {
        grid_set_spec(grid, ty, tx, ObjectReference::Empty)
    } else {
        grid
    }
}

/// A fresh animation state cycling through `frames` at speed factor 1.
pub open spec fn base_anim(frames: Seq<u32>) -> AnimateV {
    AnimateV {
        frames,
        animation: None,
        current_frame_index: 0,
        speed_num: 1,
        speed_den: 1,
        time_to_change: ttc_spec(1, 1) as i64,
        time_elapsed: 0,
    }
}

/// The goomba that [`World::add_object`] creates at pixel position `(px, py)`.
pub open spec fn mk_goomba(px: usize, py: usize) -> GoombaV {
    GoombaV {
        object: Object {
            pos: Vec2i { x: (px * SUBPIXEL) as i64, y: (py * SUBPIXEL) as i64 },
            width: MARIO_SPRITE_BLOCK_SIZE,
            height: MARIO_SPRITE_BLOCK_SIZE,
            object_type: ObjectType::Enemy(EnemyType::Goomba),
        },
        max_speed: GOOMBA_MAX_SPEED,
        velocity: Vec2i { x: WALK_SPEED, y: 0 },
        animate: base_anim(seq![SPRITE_GOOMBA_1, SPRITE_GOOMBA_2, SPRITE_GOOMBA_3]),
        is_grounded: false,
    }
}

/// The power-up that the world creates at pixel position `(px, py)`.
pub open spec fn mk_powerup(px: usize, py: usize) -> PowerUpV {
    PowerUpV {
        object: Object {
            pos: Vec2i { x: (px * SUBPIXEL) as i64, y: (py * SUBPIXEL) as i64 },
            width: MARIO_SPRITE_BLOCK_SIZE,
            height: MARIO_SPRITE_BLOCK_SIZE,
            object_type: ObjectType::Powerup,
        },
        velocity: Vec2i { x: WALK_SPEED, y: 0 },
        animate: base_anim(seq![SPRITE_MUSHROOM]),
    }
}

/// The block that [`World::add_block`] creates at pixel position `(px, py)`.
pub open spec fn mk_block(px: usize, py: usize, object_type: ObjectType, texture_id: u8) -> BlockV {
    BlockV {
        object: Object {
            pos: Vec2i { x: (px * SUBPIXEL) as i64, y: (py * SUBPIXEL) as i64 },
            width: MARIO_SPRITE_BLOCK_SIZE,
            height: MARIO_SPRITE_BLOCK_SIZE,
            object_type,
        },
        texture_id,
        animate: base_anim(seq![texture_id as u32]),
    }
}

/// A goomba's starting position, as the object handed to
/// [`World::add_object`].
pub open spec fn spawn_obj(x: usize, y: usize) -> Object {
    Object {
        pos: Vec2i { x: (x * SUBPIXEL) as i64, y: (y * SUBPIXEL) as i64 },
        width: MARIO_SPRITE_BLOCK_SIZE,
        height: MARIO_SPRITE_BLOCK_SIZE,
        object_type: ObjectType::Enemy(EnemyType::Goomba),
    }
}

/// Whether the grid cell at column `tx`, row `ty` is free (or out of the
/// grid, where nothing is placed).
pub open spec fn start_cell_free(w: WorldV, tx: int, ty: int) -> bool {
    ty < w.grid.len() && tx < w.grid[ty].len() ==> w.grid[ty][tx] is Empty
}

/// The world after wrapping `object` as a rising power-up spawn.
pub open spec fn spawn_powerup_spec(w: WorldV, object: Object) -> WorldV {
    let px = spec_sub_to_px(object.pos.x as int) as usize;
    let py = spec_sub_to_px(object.pos.y as int) as usize;
    WorldV {
        spawning_objects: w.spawning_objects.push(SpawningObjectV {
            object: mk_powerup(px, py),
            animation_progress: 0,
            animation_finish: TILE_SUB,
            spawn_animation: SpawnAnimation::PowerUp,
            draw_offset: Vec2i { x: 0, y: TILE_SUB },
        }),
        ..w
    }
}

/// The world after registering `object` as a live entity: outside the grid
/// nothing happens; inside, an enemy or power-up is created at the object's
/// pixel position, appended to its collection, and the cell takes a
/// reference to it (the player only takes the cell).
pub open spec fn add_object_spec(w: WorldV, object: Object) -> WorldV {
    let ty = grid_coord(object.pos.y);
    let tx = grid_coord(object.pos.x);
    if ty >= w.grid.len() || tx >= w.grid[ty].len() {
        w
    } else {
        let px = spec_sub_to_px(object.pos.x as int) as usize;
        let py = spec_sub_to_px(object.pos.y as int) as usize;
        match object.object_type {
            ObjectType::Enemy(_) => WorldV {
                enemies: w.enemies.push(mk_goomba(px, py)),
                grid: grid_set_spec(w.grid, ty, tx, ObjectReference::Enemy(w.enemies.len() as usize)),
                ..w
            },
            ObjectType::Powerup => WorldV {
                powerups: w.powerups.push(mk_powerup(px, py)),
                grid: grid_set_spec(w.grid, ty, tx, ObjectReference::Powerup(w.powerups.len() as usize)),
                ..w
            },
            ObjectType::Player => WorldV {
                grid: grid_set_spec(w.grid, ty, tx, ObjectReference::Player),
                ..w
            },
            ObjectType::Block(_) => w,
        }
    }
}

/// The world after placing `object` as a block: outside the grid nothing
/// happens; inside, the block is appended and the cell takes a reference to
/// it.
pub open spec fn add_block_spec(w: WorldV, object: Object, texture_id: u8) -> WorldV {
    let ty = grid_coord(object.pos.y);
    let tx = grid_coord(object.pos.x);
    if ty >= w.grid.len() || tx >= w.grid[ty].len() {
        w
    } else {
        let px = spec_sub_to_px(object.pos.x as int) as usize;
        let py = spec_sub_to_px(object.pos.y as int) as usize;
        WorldV {
            blocks: w.blocks.push(mk_block(px, py, object.object_type, texture_id)),
            grid: grid_set_spec(w.grid, ty, tx, ObjectReference::Block(w.blocks.len() as usize)),
            ..w
        }
    }
}

/// The world after loading the first `k` tiles of `tiles` into blocks: each
/// tile whose identifier names a block kind is placed at its row-major pixel
/// position.
pub open spec fn load_level_spec(w: WorldV, tiles: Seq<usize>, k: int) -> WorldV
    decreases k,
{
    if k <= 0 {
        w
    } else {
        let prev = load_level_spec(w, tiles, k - 1);
        let cols = w.width / MARIO_SPRITE_BLOCK_SIZE;
        let id = tiles[k - 1];
        match spec_sprite_id_to_type(id) {
            Some(t) => {
                let x = ((k - 1) % (cols as int)) * MARIO_SPRITE_BLOCK_SIZE;
                let y = ((k - 1) / (cols as int)) * MARIO_SPRITE_BLOCK_SIZE;
                let object = Object {
                    pos: Vec2i { x: (x * SUBPIXEL) as i64, y: (y * SUBPIXEL) as i64 },
                    width: MARIO_SPRITE_BLOCK_SIZE,
                    height: MARIO_SPRITE_BLOCK_SIZE,
                    object_type: t,
                };
                add_block_spec(prev, object, id as u8)
            },
            None => prev,
        }
    }
}

/// Rounding a coordinate that sits exactly on tile `t` gives `t` back.
pub proof fn lemma_tile_index_exact(t: int)
    requires
        0 <= t <= 0x400_0000,
    ensures
        spec_tile_index(t * TILE_SUB) == t,
        spec_sub_to_px(t * TILE_SUB) == t * MARIO_SPRITE_BLOCK_SIZE,
{
    assert(t * TILE_SUB + TILE_SUB / 2 == t * (TILE_SUB as int) + TILE_SUB / 2) by (nonlinear_arith);
    lemma_fundamental_div_mod_converse(t * TILE_SUB + TILE_SUB / 2, TILE_SUB as int, t, TILE_SUB / 2);
    assert(t * TILE_SUB == (t * MARIO_SPRITE_BLOCK_SIZE) * (SUBPIXEL as int) + 0) by (nonlinear_arith);
    lemma_fundamental_div_mod_converse(t * TILE_SUB, SUBPIXEL as int, t * MARIO_SPRITE_BLOCK_SIZE, 0);
    assert(0 <= t * MARIO_SPRITE_BLOCK_SIZE <= MAX_GRID as int) by (nonlinear_arith)
        requires
            0 <= t <= 0x400_0000,
    ;
}

/// A possible neighbor as a sequence of zero or one entries.
pub open spec fn opt_neighbor_seq(e: Option<SurroundingObject>) -> Seq<SurroundingObject> {
    match e {
        Some(n) => seq![n],
        None => Seq::empty(),
    }
}

/// What the cell at row `ty`, column `tx` contributes to a neighbor query in
/// direction `(dy, dx)`: nothing outside the grid, for an empty cell, for the
/// player's own marker, or for an index that points past the end of its
/// collection (a stale handle, tolerated as empty); otherwise the referenced
/// entity's snapshot, tagged with the sign-reduced direction.
pub open spec fn resolve_cell(
    grid: Seq<Seq<ObjectReference>>,
    enemies: Seq<Object>,
    powerups: Seq<Object>,
    blocks: Seq<Object>,
    ty: int,
    tx: int,
    dy: int,
    dx: int,
) -> Option<SurroundingObject> {
    if 0 <= ty < grid.len() && 0 <= tx < grid[0].len() {
        match grid[ty][tx] {
            ObjectReference::Block(i) => if i < blocks.len() {
                Some(SurroundingObject {
                    object: blocks[i as int],
                    relative_direction: (sgn_int(dy) as i64, sgn_int(dx) as i64),
                })
            } else {
                None
            },
            ObjectReference::Enemy(i) => if i < enemies.len() {
                Some(SurroundingObject {
                    object: enemies[i as int],
                    relative_direction: (sgn_int(dy) as i64, sgn_int(dx) as i64),
                })
            } else {
                None
            },
            ObjectReference::Powerup(i) => if i < powerups.len() {
                Some(SurroundingObject {
                    object: powerups[i as int],
                    relative_direction: (sgn_int(dy) as i64, sgn_int(dx) as i64),
                })
            } else {
                None
            },
            ObjectReference::Player => None,
            ObjectReference::Empty => None,
        }
    } else {
        None
    }
}

/// The `k`-th entry of the neighbor enumeration around `obj` with radius
/// `r`: offsets run row-major over `(dy, dx)` in `[-r, r]`, skipping the
/// entity's own cell.
pub open spec fn surrounding_entry(
    grid: Seq<Seq<ObjectReference>>,
    enemies: Seq<Object>,
    powerups: Seq<Object>,
    blocks: Seq<Object>,
    obj: Object,
    r: int,
    k: int,
) -> Option<SurroundingObject> {
    let n = 2 * r + 1;
    let dy = k / n - r;
    let dx = k % n - r;
    if dy == 0 && dx == 0 {
        None
    } else {
        resolve_cell(
            grid,
            enemies,
            powerups,
            blocks,
            spec_tile_index(obj.pos.y as int) + dy,
            spec_tile_index(obj.pos.x as int) + dx,
            dy,
            dx,
        )
    }
}

/// The neighbor list built from the first `k` offsets of the enumeration.
pub open spec fn surrounding_upto(
    grid: Seq<Seq<ObjectReference>>,
    enemies: Seq<Object>,
    powerups: Seq<Object>,
    blocks: Seq<Object>,
    obj: Object,
    r: int,
    k: int,
) -> Seq<SurroundingObject>
    decreases k,
{
    if k <= 0 {
        Seq::empty()
    } else {
        surrounding_upto(grid, enemies, powerups, blocks, obj, r, k - 1)
            + opt_neighbor_seq(surrounding_entry(grid, enemies, powerups, blocks, obj, r, k - 1))
    }
}

/// The whole neighbor list of `obj` at radius `r`.
pub open spec fn surrounding_spec(
    grid: Seq<Seq<ObjectReference>>,
    enemies: Seq<Object>,
    powerups: Seq<Object>,
    blocks: Seq<Object>,
    obj: Object,
    r: int,
) -> Seq<SurroundingObject> {
    surrounding_upto(grid, enemies, powerups, blocks, obj, r, (2 * r + 1) * (2 * r + 1))
}



/// `s` without every goomba that is the same logical entity as `target`.
pub open spec fn remove_goombas_matching(s: Seq<GoombaV>, target: Object) -> Seq<GoombaV>
    decreases s.len(),
{
    if s.len() == 0 {
        Seq::empty()
    } else {
        (if obj_matches(s[0].object, target) { Seq::empty() } else { seq![s[0]] })
            + remove_goombas_matching(s.skip(1), target)
    }
}

/// `s` without every power-up that is the same logical entity as `target`.
pub open spec fn remove_powerups_matching(s: Seq<PowerUpV>, target: Object) -> Seq<PowerUpV>
    decreases s.len(),
{
    if s.len() == 0 {
        Seq::empty()
    } else {
        (if obj_matches(s[0].object, target) { Seq::empty() } else { seq![s[0]] })
            + remove_powerups_matching(s.skip(1), target)
    }
}

/// The first index of a goomba that is the same logical entity as `target`,
/// or the length when there is none.
pub open spec fn find_goomba(s: Seq<GoombaV>, target: Object) -> int
    decreases s.len(),
{
    if s.len() == 0 {
        0
    } else if obj_matches(s[0].object, target) {
        0
    } else {
        1 + find_goomba(s.skip(1), target)
    }
}

/// One scan for the two parties of an enemy-enemy collision: from index `k`
/// on, a goomba matching `t1` takes the first slot, otherwise one matching
/// `t2` takes the second; the scan stops once both are taken.
pub open spec fn find_pair(s: Seq<GoombaV>, t1: Object, t2: Object, i1: Option<int>, i2: Option<int>, k: int) -> (Option<int>, Option<int>)
    decreases s.len() - k,
{
    if k < 0 || k >= s.len() || (i1 is Some && i2 is Some) {
        (i1, i2)
    } else {
        let n1 = if obj_matches(s[k].object, t1) { Some(k) } else { i1 };
        let n2 = if !obj_matches(s[k].object, t1) && obj_matches(s[k].object, t2) { Some(k) } else { i2 };
        find_pair(s, t1, t2, n1, n2, k + 1)
    }
}

/// The draw-offset keyframes of a block's bump: it rises four half-pixels
/// and settles back.
pub open spec fn bump_offsets() -> Seq<Vec2i> {
    seq![
        Vec2i { x: 0, y: (-240) as i64 },
        Vec2i { x: 0, y: (-480) as i64 },
        Vec2i { x: 0, y: (-720) as i64 },
        Vec2i { x: 0, y: (-960) as i64 },
        Vec2i { x: 0, y: (-720) as i64 },
        Vec2i { x: 0, y: (-480) as i64 },
        Vec2i { x: 0, y: (-240) as i64 },
    ]
}

/// A used power-up block turned plain, in place.
pub open spec fn transform_block_spec(b: BlockV) -> BlockV {
    BlockV {
        object: Object { object_type: ObjectType::Block(BlockType::Block), ..b.object },
        animate: change_sprites_spec(b.animate, seq![SPRITE_PLAIN_BLOCK]),
        ..b
    }
}

/// The wrapper a fresh spawn pushes.
pub open spec fn mk_spawning(p: PowerUpV) -> SpawningObjectV {
    SpawningObjectV {
        object: p,
        animation_progress: 0,
        animation_finish: TILE_SUB,
        spawn_animation: SpawnAnimation::PowerUp,
        draw_offset: Vec2i { x: 0, y: TILE_SUB },
    }
}


/// The spawning pass from slot `i` upward, highest slot first: every rising
/// power-up advances one tick; one that finished rising is taken out by
/// swap-removal and, when its grid cell is free, registered as a live
/// power-up.
pub open spec fn spawn_pass_from(w: WorldV, i: int) -> WorldV
    decreases w.spawning_objects.len() - i,
{
    if i < 0 || i >= w.spawning_objects.len() {
        w
    } else {
        let w1 = spawn_pass_from(w, i + 1);
        if i >= w1.spawning_objects.len() {
            w1
        } else {
            let stepped = spawning_step(w1.spawning_objects[i]);
            let w2 = WorldV { spawning_objects: w1.spawning_objects.update(i, stepped.0), ..w1 };
            if stepped.1 {
                let sp2 = w2.spawning_objects;
                let w3 = WorldV {
                    spawning_objects: sp2.update(i, sp2.last()).drop_last(),
                    ..w2
                };
                let obj = stepped.0.object.object;
                let ty = grid_coord(obj.pos.y);
                let tx = grid_coord(obj.pos.x);
                if ty < w3.grid.len() && tx < w3.grid[ty].len() && w3.grid[ty][tx] is Empty {
                    add_object_spec(w3, obj)
                } else {
                    w3
                }
            } else {
                w2
            }
        }
    }
}


/// The position snapshot of the enemy collection.
pub open spec fn enemy_objects(s: Seq<GoombaV>) -> Seq<Object> {
    s.map_values(|g: GoombaV| g.object)
}

/// The position snapshot of the power-up collection.
pub open spec fn powerup_objects(s: Seq<PowerUpV>) -> Seq<Object> {
    s.map_values(|p: PowerUpV| p.object)
}

/// The position snapshot of the block collection.
pub open spec fn block_objects(s: Seq<BlockV>) -> Seq<Object> {
    s.map_values(|b: BlockV| b.object)
}

/// The world bounds an enemy or power-up ticks against: the whole level, in
/// subpixels.
pub open spec fn enemy_bounds(w: WorldV) -> WorldBounds {
    WorldBounds {
        min_x: 0,
        max_x: (w.width * SUBPIXEL) as i64,
        max_y: (w.height * SUBPIXEL) as i64,
    }
}

/// The world bounds the player ticks against: its left bound is the camera's
/// edge, so the player cannot walk off the visible screen.
pub open spec fn player_bounds(w: WorldV) -> WorldBounds {
    WorldBounds {
        min_x: (w.camera.x * SUBPIXEL) as i64,
        max_x: (w.width * SUBPIXEL) as i64,
        max_y: (w.height * SUBPIXEL) as i64,
    }
}

/// One enemy's turn of the enemy phase: enemy `k` ticks against the
/// snapshots and the current grid, and its grid cell follows it to its new
/// tile (a move out of the grid just vacates the old cell).
pub open spec fn enemy_phase_step(st: (WorldV, Seq<GameEvent>), snap_e: Seq<Object>, snap_p: Seq<Object>, snap_b: Seq<Object>, k: int) -> (WorldV, Seq<GameEvent>) {
    let w = st.0;
    if 0 <= k < w.enemies.len() {
        let g = w.enemies[k];
        let ns = surrounding_spec(w.grid, snap_e, snap_p, snap_b, g.object, 1);
        let upd = goomba_update_spec(g, ns, enemy_bounds(w));
        let g2 = upd.0;
        let old_ty = grid_coord(g.object.pos.y);
        let old_tx = grid_coord(g.object.pos.x);
        let new_ty = grid_coord(g2.object.pos.y);
        let new_tx = grid_coord(g2.object.pos.x);
        let w1 = WorldV { enemies: w.enemies.update(k, g2), ..w };
        let grid2 = if old_ty == new_ty && old_tx == new_tx {
            w1.grid
        } else if old_ty >= w1.grid.len() || old_tx >= w1.grid[old_ty].len() {
            w1.grid
        } else {
            let cleared = grid_set_spec(w1.grid, old_ty, old_tx, ObjectReference::Empty);
            if new_ty >= cleared.len() || new_tx >= cleared[new_ty].len() {
                cleared
            } else {
                grid_set_spec(cleared, new_ty, new_tx, ObjectReference::Enemy(k as usize))
            }
        };
        (WorldV { grid: grid2, ..w1 }, st.1 + upd.1)
    } else {
        st
    }
}

/// The enemy phase over the first `i` enemies, in order.
pub open spec fn enemy_phase(w: WorldV, snap_e: Seq<Object>, snap_p: Seq<Object>, snap_b: Seq<Object>, i: int) -> (WorldV, Seq<GameEvent>)
    decreases i,
{
    if i <= 0 {
        (w, Seq::empty())
    } else {
        enemy_phase_step(enemy_phase(w, snap_e, snap_p, snap_b, i - 1), snap_e, snap_p, snap_b, i - 1)
    }
}

/// One power-up's turn of the power-up phase; the mirror of
/// [`enemy_phase_step`].
pub open spec fn powerup_phase_step(st: (WorldV, Seq<GameEvent>), snap_e: Seq<Object>, snap_p: Seq<Object>, snap_b: Seq<Object>, k: int) -> (WorldV, Seq<GameEvent>) {
    let w = st.0;
    if 0 <= k < w.powerups.len() {
        let g = w.powerups[k];
        let ns = surrounding_spec(w.grid, snap_e, snap_p, snap_b, g.object, 1);
        let upd = powerup_update_spec(g, ns, enemy_bounds(w));
        let g2 = upd.0;
        let old_ty = grid_coord(g.object.pos.y);
        let old_tx = grid_coord(g.object.pos.x);
        let new_ty = grid_coord(g2.object.pos.y);
        let new_tx = grid_coord(g2.object.pos.x);
        let w1 = WorldV { powerups: w.powerups.update(k, g2), ..w };
        let grid2 = if old_ty == new_ty && old_tx == new_tx {
            w1.grid
        } else if old_ty >= w1.grid.len() || old_tx >= w1.grid[old_ty].len() {
            w1.grid
        } else {
            let cleared = grid_set_spec(w1.grid, old_ty, old_tx, ObjectReference::Empty);
            if new_ty >= cleared.len() || new_tx >= cleared[new_ty].len() {
                cleared
            } else {
                grid_set_spec(cleared, new_ty, new_tx, ObjectReference::Powerup(k as usize))
            }
        };
        (WorldV { grid: grid2, ..w1 }, st.1 + upd.1)
    } else {
        st
    }
}

/// The power-up phase over the first `i` power-ups, in order.
pub open spec fn powerup_phase(w: WorldV, snap_e: Seq<Object>, snap_p: Seq<Object>, snap_b: Seq<Object>, i: int) -> (WorldV, Seq<GameEvent>)
    decreases i,
{
    if i <= 0 {
        (w, Seq::empty())
    } else {
        powerup_phase_step(powerup_phase(w, snap_e, snap_p, snap_b, i - 1), snap_e, snap_p, snap_b, i - 1)
    }
}

/// Every block's animation clock advanced by one tick.
pub open spec fn blocks_tick(blocks: Seq<BlockV>) -> Seq<BlockV> {
    blocks.map_values(|b: BlockV| BlockV { animate: animate_step(b.animate), ..b })
}

/// The events applied in order from index `i` on; consuming a `GameOver` or
/// `GameWon` stops the tick, leaving the rest unapplied.
pub open spec fn apply_events_from(w: WorldV, evs: Seq<GameEvent>, i: int) -> (WorldV, bool)
    decreases evs.len() - i,
{
    if i < 0 || i >= evs.len() {
        (w, false)
    } else {
        let w1 = handle_event_spec(w, evs[i]);
        if evs[i].event is GameOver || evs[i].event is GameWon {
            (w1, true)
        } else {
            apply_events_from(w1, evs, i + 1)
        }
    }
}

/// One whole tick of the world, and the events it produced: rising spawns
/// advance; every enemy, block and power-up ticks against a start-of-tick
/// position snapshot; the player vacates its cell and ticks last; then the
/// collected events apply in order (a terminal event ends the tick at once);
/// finally the player's cell and the camera follow it.
pub open spec fn update_spec(w: WorldV) -> (WorldV, Seq<GameEvent>) {
    let w0 = spawn_pass_from(w, 0);
    let snap_e = enemy_objects(w0.enemies);
    let snap_p = powerup_objects(w0.powerups);
    let snap_b = block_objects(w0.blocks);
    let eph = enemy_phase(w0, snap_e, snap_p, snap_b, w0.enemies.len() as int);
    let w1 = WorldV { blocks: blocks_tick(eph.0.blocks), ..eph.0 };
    let pph = powerup_phase(w1, snap_e, snap_p, snap_b, w1.powerups.len() as int);
    let w2 = pph.0;
    let pt_y = grid_coord(w2.player.object.pos.y);
    let pt_x = grid_coord(w2.player.object.pos.x);
    let grid1 = if pt_y < w2.grid.len() && pt_x < w2.grid[pt_y].len() {
        grid_set_spec(w2.grid, pt_y, pt_x, ObjectReference::Empty)
    } else {
        w2.grid
    };
    let radius: int = if w2.player.power_state is Big { 2 } else { 1 };
    let ns = surrounding_spec(grid1, snap_e, snap_p, snap_b, w2.player.object, radius);
    let pu = player_update_spec(w2.player, ns, player_bounds(w2));
    let w3 = WorldV { player: pu.0, grid: grid1, ..w2 };
    let all = eph.1 + pph.1 + pu.1;
    let ap = apply_events_from(w3, all, 0);
    let w4 = ap.0;
    if ap.1 {
        (w4, all)
    } else {
        let nt_y = grid_coord(w4.player.object.pos.y);
        let nt_x = grid_coord(w4.player.object.pos.x);
        if nt_y >= w4.grid.len() || nt_x >= w4.grid[nt_y].len() {
            (w4, all)
        } else {
            let w5 = WorldV { grid: grid_set_spec(w4.grid, nt_y, nt_x, ObjectReference::Player), ..w4 };
            let w6 = WorldV {
                camera: camera_update_spec(
                    w5.camera,
                    spec_sub_to_px(w5.player.object.pos.x as int) as usize,
                    spec_sub_to_px(w5.player.object.pos.y as int) as usize,
                ),
                ..w5
            };
            (w6, all)
        }
    }
}

/// Applying a `Kill` event: the victim — the event's target, or its trigger
/// for a border fall — is removed from its owning collection by value
/// equality, and its grid cell is cleared.
pub open spec fn kill_spec(w: WorldV, ev: GameEvent) -> WorldV {
    let victim = match ev.target {
        Some(t) => t,
        None => ev.triggered_by,
    };
    let w1 = match victim.object_type {
        ObjectType::Enemy(_) => WorldV { enemies: remove_goombas_matching(w.enemies, victim), ..w },
        ObjectType::Powerup => WorldV { powerups: remove_powerups_matching(w.powerups, victim), ..w },
        _ => w,
    };
    WorldV { grid: clear_ref_spec(w1.grid, victim), ..w1 }
}

/// Applying a `PlayerHit` event: the player loses a power level and takes a
/// tick of gravity, the offending enemy is knocked back away from the
/// player, the world freezes — and a hit that killed the player ends the
/// game.
pub open spec fn player_hit_spec(w: WorldV, ev: GameEvent) -> WorldV {
    let p1 = power_down_spec(w.player);
    let p2 = PlayerV {
        velocity: Vec2i {
            x: p1.velocity.x,
            y: clamp_int(p1.velocity.y + GRAVITY_PER_TICK, -VEL_LIMIT as int, VEL_LIMIT as int) as i64,
        },
        ..p1
    };
    let i = find_goomba(w.enemies, ev.triggered_by);
    let enemies2 = if i < w.enemies.len() {
        let e = w.enemies[i];
        let new_vx = if p2.velocity.x < 0 { e.velocity.x } else { (-e.velocity.x) as i64 };
        w.enemies.update(i, GoombaV {
            velocity: Vec2i { x: new_vx, y: e.velocity.y },
            object: Object {
                pos: Vec2i {
                    x: clamp_int(e.object.pos.x + new_vx, -POS_LIMIT as int, POS_LIMIT as int) as i64,
                    y: e.object.pos.y,
                },
                ..e.object
            },
            ..e
        })
    } else {
        w.enemies
    };
    let gs = if p2.power_state is Dead { GameState::GameOver } else { GameState::Frozen(FROZEN_TICKS) };
    WorldV { player: p2, enemies: enemies2, game_state: gs, ..w }
}

/// Applying a `PlayerPowerUp` event: the player grows, and the collected
/// power-up leaves its cell and its collection.
pub open spec fn player_powerup_spec(w: WorldV, ev: GameEvent) -> WorldV {
    let p1 = power_up_spec(w.player);
    match ev.target {
        Some(t) => WorldV {
            player: p1,
            grid: clear_ref_spec(w.grid, t),
            powerups: remove_powerups_matching(w.powerups, t),
            ..w
        },
        None => WorldV { player: p1, ..w },
    }
}

/// Applying an `EnemyCollEnemy` event: when both parties are found and still
/// move in the same direction, the first is turned around so they diverge.
pub open spec fn enemy_coll_spec(w: WorldV, ev: GameEvent) -> WorldV {
    match ev.target {
        Some(t1) => {
            let pair = find_pair(w.enemies, t1, ev.triggered_by, None, None, 0);
            match pair.0 {
                Some(i1) => match pair.1 {
                    Some(i2) => {
                        let e1 = w.enemies[i1];
                        let e2 = w.enemies[i2];
                        if fsign_int(e1.velocity.x as int) == fsign_int(e2.velocity.x as int) {
                            WorldV {
                                enemies: w.enemies.update(i1, GoombaV {
                                    velocity: Vec2i { x: (-e1.velocity.x) as i64, y: e1.velocity.y },
                                    ..e1
                                }),
                                ..w
                            }
                        } else {
                            w
                        }
                    },
                    None => w,
                },
                None => w,
            }
        },
        None => w,
    }
}

/// Applying a `PlayerHitPowerupBlock` event: the block transforms into a
/// plain block in its grid slot, and a power-up spawn starts rising exactly
/// one tile above the block's position.
pub open spec fn powerup_block_spec(w: WorldV, ev: GameEvent) -> WorldV {
    match ev.target {
        Some(t) => if t.object_type == ObjectType::Block(BlockType::PowerupBlock) {
            let blocks2 = match ref_at_spec(w.grid, t) {
                Some(ObjectReference::Block(i)) => if i < w.blocks.len() {
                    w.blocks.update(i as int, transform_block_spec(w.blocks[i as int]))
                } else {
                    w.blocks
                },
                _ => w.blocks,
            };
            let px = spec_sub_to_px(t.pos.x as int) as usize;
            let py = spec_sub_to_px(t.pos.y as int) as usize;
            if py >= MARIO_SPRITE_BLOCK_SIZE {
                WorldV {
                    blocks: blocks2,
                    spawning_objects: w.spawning_objects.push(
                        mk_spawning(mk_powerup(px, (py - MARIO_SPRITE_BLOCK_SIZE) as usize))),
                    ..w
                }
            } else {
                WorldV { blocks: blocks2, ..w }
            }
        } else {
            w
        },
        None => w,
    }
}

/// Applying a `PlayerHitBlock` event: a cosmetic bump overlay on the block,
/// but only when the player is below it and horizontally under it.
pub open spec fn hit_block_spec(w: WorldV, ev: GameEvent) -> WorldV {
    match ev.target {
        Some(t) => if t.object_type == ObjectType::Block(BlockType::Block) {
            match ref_at_spec(w.grid, t) {
                Some(ObjectReference::Block(i)) => if i < w.blocks.len() {
                    let b = w.blocks[i as int];
                    let pcx = center_x(w.player.object);
                    if b.object.pos.y >= w.player.object.pos.y || pcx < b.object.pos.x
                        || pcx > b.object.pos.x + b.object.width * (SUBPIXEL as int) {
                        w
                    } else {
                        let overlay = PlayAnimationV {
                            frame_type: Some(FrameTypeV::PosOffset(bump_offsets())),
                            texture_frames: b.animate.frames,
                            frame_index: 0,
                            loop_for: None,
                        };
                        WorldV {
                            blocks: w.blocks.update(i as int, BlockV {
                                animate: play_animation_spec(scale_speed_spec(b.animate, 2, 1), overlay),
                                ..b
                            }),
                            ..w
                        }
                    }
                } else {
                    w
                },
                _ => w,
            }
        } else {
            w
        },
        None => w,
    }
}

/// The world after consuming one gameplay event.
pub open spec fn handle_event_spec(w: WorldV, ev: GameEvent) -> WorldV {
    match ev.event {
        GameEventType::GameWon => WorldV { game_state: GameState::GameWon, ..w },
        GameEventType::GameOver => WorldV { game_state: GameState::GameOver, ..w },
        GameEventType::Kill => kill_spec(w, ev),
        GameEventType::PlayerHit => player_hit_spec(w, ev),
        GameEventType::PlayerPowerUp => player_powerup_spec(w, ev),
        GameEventType::EnemyCollEnemy => enemy_coll_spec(w, ev),
        GameEventType::PlayerHitPowerupBlock => powerup_block_spec(w, ev),
        GameEventType::PlayerHitBlock => hit_block_spec(w, ev),
    }
}

/// Truncating a pixel count to subpixels and back gives the pixel count.
pub proof fn lemma_px_roundtrip(px: int)
    requires
        0 <= px <= MAX_GRID,
    ensures
        spec_sub_to_px(px * SUBPIXEL) == px,
{
    assert(px * SUBPIXEL == px * (SUBPIXEL as int) + 0) by (nonlinear_arith);
    lemma_fundamental_div_mod_converse(px * SUBPIXEL, SUBPIXEL as int, px, 0);
}

/// Removes every goomba that is the same logical entity as `target`.
fn retain_goombas(v: &mut Vec<Goomba>, target: &Object)
    ensures
        goombas_view(*final(v)) == remove_goombas_matching(goombas_view(*old(v)), *target),
{
    let ghost s0 = goombas_view(*old(v));
    let mut i: usize = v.len();
    proof {
        assert(s0.skip(i as int) =~= Seq::<GoombaV>::empty());
        assert(goombas_view(*v) =~= s0.take(i as int) + remove_goombas_matching(s0.skip(i as int), *target));
    }
    while i > 0
        invariant
            i <= s0.len(),
            s0 == goombas_view(*old(v)),
            goombas_view(*v) == s0.take(i as int) + remove_goombas_matching(s0.skip(i as int), *target),
            v@.len() >= i,
        decreases i,
    {
        i = i - 1;
        let matched = v[i].object.matches(target);
        proof {
            assert(goombas_view(*v)[i as int] == s0[i as int]);
            assert(s0.skip(i as int)[0] == s0[i as int]);
            assert(s0.skip(i as int).skip(1) =~= s0.skip(i + 1));
        }
        let ghost before = goombas_view(*v);
        if matched {
            v.remove(i);
            proof {
                assert(goombas_view(*v) =~= before.remove(i as int));
                assert(s0.take(i + 1).remove(i as int) =~= s0.take(i as int));
                assert(before.remove(i as int)
                    =~= s0.take(i as int) + remove_goombas_matching(s0.skip(i + 1), *target));
                assert(goombas_view(*v) =~= s0.take(i as int) + remove_goombas_matching(s0.skip(i as int), *target));
            }
        } else {
            proof {
                assert(s0.take(i + 1) =~= s0.take(i as int) + seq![s0[i as int]]);
                assert(goombas_view(*v) =~= s0.take(i as int) + remove_goombas_matching(s0.skip(i as int), *target));
            }
        }
    }
    proof {
        assert(s0.take(0) =~= Seq::<GoombaV>::empty());
        assert(s0.skip(0) =~= s0);
        assert(goombas_view(*v) =~= remove_goombas_matching(s0, *target));
    }
}

/// Removes every power-up that is the same logical entity as `target`.
fn retain_powerups(v: &mut Vec<PowerUp>, target: &Object)
    ensures
        powerups_view(*final(v)) == remove_powerups_matching(powerups_view(*old(v)), *target),
{
    let ghost s0 = powerups_view(*old(v));
    let mut i: usize = v.len();
    proof {
        assert(s0.skip(i as int) =~= Seq::<PowerUpV>::empty());
        assert(powerups_view(*v) =~= s0.take(i as int) + remove_powerups_matching(s0.skip(i as int), *target));
    }
    while i > 0
        invariant
            i <= s0.len(),
            s0 == powerups_view(*old(v)),
            powerups_view(*v) == s0.take(i as int) + remove_powerups_matching(s0.skip(i as int), *target),
            v@.len() >= i,
        decreases i,
    {
        i = i - 1;
        let matched = v[i].object.matches(target);
        proof {
            assert(powerups_view(*v)[i as int] == s0[i as int]);
            assert(s0.skip(i as int)[0] == s0[i as int]);
            assert(s0.skip(i as int).skip(1) =~= s0.skip(i + 1));
        }
        let ghost before = powerups_view(*v);
        if matched {
            v.remove(i);
            proof {
                assert(powerups_view(*v) =~= before.remove(i as int));
                assert(s0.take(i + 1).remove(i as int) =~= s0.take(i as int));
                assert(before.remove(i as int)
                    =~= s0.take(i as int) + remove_powerups_matching(s0.skip(i + 1), *target));
                assert(powerups_view(*v) =~= s0.take(i as int) + remove_powerups_matching(s0.skip(i as int), *target));
            }
        } else {
            proof {
                assert(s0.take(i + 1) =~= s0.take(i as int) + seq![s0[i as int]]);
                assert(powerups_view(*v) =~= s0.take(i as int) + remove_powerups_matching(s0.skip(i as int), *target));
            }
        }
    }
    proof {
        assert(s0.take(0) =~= Seq::<PowerUpV>::empty());
        assert(s0.skip(0) =~= s0);
        assert(powerups_view(*v) =~= remove_powerups_matching(s0, *target));
    }
}


/// An index option as a mathematical index option.
pub open spec fn opt_int(o: Option<usize>) -> Option<int> {
    match o {
        Some(i) => Some(i as int),
        None => None,
    }
}

/// Every survivor of a removal was already in the sequence.
proof fn lemma_remove_goombas_subset(s: Seq<GoombaV>, target: Object, i: int)
    requires
        0 <= i < remove_goombas_matching(s, target).len(),
    ensures
        exists|j: int| 0 <= j < s.len() && s[j] == remove_goombas_matching(s, target)[i],
    decreases s.len(),
{
    if s.len() == 0 {
    } else if obj_matches(s[0].object, target) {
        lemma_remove_goombas_subset(s.skip(1), target, i);
        let j = choose|j: int| 0 <= j < s.skip(1).len()
            && s.skip(1)[j] == remove_goombas_matching(s.skip(1), target)[i];
        assert(s[j + 1] == remove_goombas_matching(s, target)[i]);
    } else {
        if i == 0 {
            assert(s[0] == remove_goombas_matching(s, target)[0]);
        } else {
            lemma_remove_goombas_subset(s.skip(1), target, i - 1);
            let j = choose|j: int| 0 <= j < s.skip(1).len()
                && s.skip(1)[j] == remove_goombas_matching(s.skip(1), target)[i - 1];
            assert(s[j + 1] == remove_goombas_matching(s, target)[i]);
        }
    }
}

/// Every survivor of a removal was already in the sequence.
proof fn lemma_remove_powerups_subset(s: Seq<PowerUpV>, target: Object, i: int)
    requires
        0 <= i < remove_powerups_matching(s, target).len(),
    ensures
        exists|j: int| 0 <= j < s.len() && s[j] == remove_powerups_matching(s, target)[i],
    decreases s.len(),
{
    if s.len() == 0 {
    } else if obj_matches(s[0].object, target) {
        lemma_remove_powerups_subset(s.skip(1), target, i);
        let j = choose|j: int| 0 <= j < s.skip(1).len()
            && s.skip(1)[j] == remove_powerups_matching(s.skip(1), target)[i];
        assert(s[j + 1] == remove_powerups_matching(s, target)[i]);
    } else {
        if i == 0 {
            assert(s[0] == remove_powerups_matching(s, target)[0]);
        } else {
            lemma_remove_powerups_subset(s.skip(1), target, i - 1);
            let j = choose|j: int| 0 <= j < s.skip(1).len()
                && s.skip(1)[j] == remove_powerups_matching(s.skip(1), target)[i - 1];
            assert(s[j + 1] == remove_powerups_matching(s, target)[i]);
        }
    }
}

/// When no goomba before `i` matches, the first match is at `i` if `s[i]`
/// matches, and past the end if the scan ran out.
proof fn lemma_find_goomba_prefix(s: Seq<GoombaV>, target: Object, i: int)
    requires
        0 <= i <= s.len(),
        forall|j: int| 0 <= j < i ==> !obj_matches((#[trigger] s[j]).object, target),
    ensures
        i < s.len() && obj_matches(s[i].object, target) ==> find_goomba(s, target) == i,
        i == s.len() ==> find_goomba(s, target) == s.len(),
    decreases i,
{
    if i == 0 {
        if s.len() == 0 {
        }
    } else {
        assert(!obj_matches(s[0].object, target));
        assert(s.skip(1).len() == s.len() - 1);
        assert(forall|j: int| 0 <= j < i - 1 ==> !obj_matches((#[trigger] s.skip(1)[j]).object, target));
        lemma_find_goomba_prefix(s.skip(1), target, i - 1);
        if i < s.len() {
            assert(s.skip(1)[i - 1] == s[i]);
        }
    }
}

/// Removing matches of a target that matches nothing changes nothing.
proof fn lemma_remove_goombas_no_match(s: Seq<GoombaV>, target: Object)
    requires
        forall|i: int| 0 <= i < s.len() ==> !obj_matches((#[trigger] s[i]).object, target),
    ensures
        remove_goombas_matching(s, target) == s,
    decreases s.len(),
{
    if s.len() == 0 {
        assert(remove_goombas_matching(s, target) =~= s);
    } else {
        assert(forall|i: int| 0 <= i < s.skip(1).len()
            ==> !obj_matches((#[trigger] s.skip(1)[i]).object, target));
        lemma_remove_goombas_no_match(s.skip(1), target);
        assert(remove_goombas_matching(s, target) =~= s);
    }
}

/// Removing matches of a target that matches nothing changes nothing.
proof fn lemma_remove_powerups_no_match(s: Seq<PowerUpV>, target: Object)
    requires
        forall|i: int| 0 <= i < s.len() ==> !obj_matches((#[trigger] s[i]).object, target),
    ensures
        remove_powerups_matching(s, target) == s,
    decreases s.len(),
{
    if s.len() == 0 {
        assert(remove_powerups_matching(s, target) =~= s);
    } else {
        assert(forall|i: int| 0 <= i < s.skip(1).len()
            ==> !obj_matches((#[trigger] s.skip(1)[i]).object, target));
        lemma_remove_powerups_no_match(s.skip(1), target);
        assert(remove_powerups_matching(s, target) =~= s);
    }
}

/// `Kill` removal is idempotent: applying a `Kill` event whose victim is
/// already gone — no enemy and no power-up matches it by value, and its grid
/// cell is already empty — changes nothing of the world, and in particular
/// never fails.
pub proof fn lemma_kill_removal_idempotent(w: WorldV, ev: GameEvent)
    requires
        ev.event is Kill,
        ({
            let victim = match ev.target {
                Some(t) => t,
                None => ev.triggered_by,
            };
            &&& forall|i: int| 0 <= i < w.enemies.len()
                ==> !obj_matches((#[trigger] w.enemies[i]).object, victim)
            &&& forall|i: int| 0 <= i < w.powerups.len()
                ==> !obj_matches((#[trigger] w.powerups[i]).object, victim)
            &&& ({
                let ty = grid_coord(victim.pos.y);
                let tx = grid_coord(victim.pos.x);
                ty < w.grid.len() && tx < w.grid[ty].len() ==> w.grid[ty][tx] is Empty
            })
        }),
    ensures
        handle_event_spec(w, ev) == w,
{
    let victim = match ev.target {
        Some(t) => t,
        None => ev.triggered_by,
    };
    lemma_remove_goombas_no_match(w.enemies, victim);
    lemma_remove_powerups_no_match(w.powerups, victim);
    let ty = grid_coord(victim.pos.y);
    let tx = grid_coord(victim.pos.x);
    if ty < w.grid.len() && tx < w.grid[ty].len() {
        assert(clear_ref_spec(w.grid, victim) =~~= w.grid);
    }
    assert(handle_event_spec(w, ev) =~~= w);
}


/// The position snapshot of a goomba collection.
fn goomba_objects_vec(v: &Vec<Goomba>) -> (r: Vec<Object>)
    ensures
        r@ == enemy_objects(goombas_view(*v)),
{
    let mut r: Vec<Object> = Vec::new();
    let n: usize = v.len();
    let mut i: usize = 0;
    while i < n
        invariant
            i <= n,
            n == v@.len(),
            r@ =~= enemy_objects(goombas_view(*v)).take(i as int),
        decreases n - i,
    {
        r.push(v[i].object);
        proof {
            assert(r@ =~= enemy_objects(goombas_view(*v)).take(i + 1));
        }
        i = i + 1;
    }
    proof {
        assert(enemy_objects(goombas_view(*v)).take(n as int) =~= enemy_objects(goombas_view(*v)));
    }
    r
}

/// The position snapshot of a power-up collection.
fn powerup_objects_vec(v: &Vec<PowerUp>) -> (r: Vec<Object>)
    ensures
        r@ == powerup_objects(powerups_view(*v)),
{
    let mut r: Vec<Object> = Vec::new();
    let n: usize = v.len();
    let mut i: usize = 0;
    while i < n
        invariant
            i <= n,
            n == v@.len(),
            r@ =~= powerup_objects(powerups_view(*v)).take(i as int),
        decreases n - i,
    {
        r.push(v[i].object);
        proof {
            assert(r@ =~= powerup_objects(powerups_view(*v)).take(i + 1));
        }
        i = i + 1;
    }
    proof {
        assert(powerup_objects(powerups_view(*v)).take(n as int) =~= powerup_objects(powerups_view(*v)));
    }
    r
}

/// The position snapshot of a block collection.
fn block_objects_vec(v: &Vec<Block>) -> (r: Vec<Object>)
    ensures
        r@ == block_objects(blocks_view(*v)),
{
    let mut r: Vec<Object> = Vec::new();
    let n: usize = v.len();
    let mut i: usize = 0;
    while i < n
        invariant
            i <= n,
            n == v@.len(),
            r@ =~= block_objects(blocks_view(*v)).take(i as int),
        decreases n - i,
    {
        r.push(v[i].object);
        proof {
            assert(r@ =~= block_objects(blocks_view(*v)).take(i + 1));
        }
        i = i + 1;
    }
    proof {
        assert(block_objects(blocks_view(*v)).take(n as int) =~= block_objects(blocks_view(*v)));
    }
    r
}

/// Sets one grid cell.
fn grid_cell_set(objects: &mut Vec<Vec<ObjectReference>>, ty: usize, tx: usize, r: ObjectReference)
    requires
        ty < old(objects)@.len(),
        tx < old(objects)@[ty as int]@.len(),
    ensures
        grid_view(*final(objects)) == grid_set_spec(grid_view(*old(objects)), ty as int, tx as int, r),
        final(objects)@.len() == old(objects)@.len(),
{
    let row = &mut objects[ty];
    row.set(tx, r);
    proof {
        assert(grid_view(*objects) =~= grid_set_spec(grid_view(*old(objects)), ty as int, tx as int, r));
    }
}

impl World {
    /// An empty world of the given pixel extent: an all-empty grid of one
    /// cell per tile, the player at the start position, no other entities,
    /// and the state machine at `Playing`.
    pub fn new(height: usize, width: usize) -> (w: World)
        requires
            MARIO_SPRITE_BLOCK_SIZE <= height <= MAX_PX,
            MARIO_SPRITE_BLOCK_SIZE <= width <= MAX_PX,
        ensures
            w@.height == height,
            w@.width == width,
            w@.grid.len() == height / MARIO_SPRITE_BLOCK_SIZE,
            forall|i: int| 0 <= i < w@.grid.len()
                ==> (#[trigger] w@.grid[i]).len() == width / MARIO_SPRITE_BLOCK_SIZE,
            forall|i: int, j: int| 0 <= i < w@.grid.len() && 0 <= j < w@.grid[i].len()
                ==> w@.grid[i][j] is Empty,
            w@.player.object.pos.x == PLAYER_START_X * SUBPIXEL,
            w@.player.object.pos.y == PLAYER_START_Y * SUBPIXEL,
            w@.player.power_state is Small,
            w@.player.velocity == (Vec2i { x: 0, y: 0 }),
            w@.player.max_speed == MAX_VELOCITY_X,
            w@.enemies.len() == 0,
            w@.powerups.len() == 0,
            w@.blocks.len() == 0,
            w@.spawning_objects.len() == 0,
            w@.camera == (Camera { x: 0, y: 0, width: CAMERA_WIDTH, height }),
            w@.game_state is Playing,
            world_wf(w@),
    {
        let rows: usize = height / MARIO_SPRITE_BLOCK_SIZE;
        let cols: usize = width / MARIO_SPRITE_BLOCK_SIZE;
        let mut objects: Vec<Vec<ObjectReference>> = Vec::new();
        let mut r: usize = 0;
        while r < rows
            invariant
                r <= rows,
                objects@.len() == r,
                forall|i: int| 0 <= i < r ==> (#[trigger] objects@[i])@.len() == cols,
                forall|i: int, j: int| 0 <= i < r && 0 <= j < cols
                    ==> objects@[i]@[j] is Empty,
            decreases rows - r,
        {
            let mut row: Vec<ObjectReference> = Vec::new();
            let mut c: usize = 0;
            while c < cols
                invariant
                    c <= cols,
                    row@.len() == c,
                    forall|j: int| 0 <= j < c ==> row@[j] is Empty,
                decreases cols - c,
            {
                row.push(ObjectReference::Empty);
                c = c + 1;
            }
            objects.push(row);
            r = r + 1;
        }
        let w = World {
            height,
            width,
            objects,
            player: Player::new(PLAYER_START_X, PLAYER_START_Y, MAX_VELOCITY_X),
            enemies: Vec::new(),
            powerups: Vec::new(),
            blocks: Vec::new(),
            spawning_objects: Vec::new(),
            camera: Camera::new(CAMERA_WIDTH, height),
            game_state: GameState::Playing,
        };
        proof {
            assert(w@.enemies =~= Seq::<GoombaV>::empty());
            assert(w@.powerups =~= Seq::<PowerUpV>::empty());
            assert(w@.blocks =~= Seq::<BlockV>::empty());
            assert(w@.spawning_objects =~= Seq::<SpawningObjectV>::empty());
        }
        w
    }

    /// Registers `object` as a live enemy, power-up or player; see
    /// [`add_object_spec`]. Adding to an occupied cell desynchronizes the
    /// index and is ruled out.
    pub fn add_object(&mut self, object: Object)
        requires
            world_wf(old(self)@),
            obj_wf(object),
            !(object.object_type is Block),
            ({
                let ty = grid_coord(object.pos.y);
                let tx = grid_coord(object.pos.x);
                ty < old(self)@.grid.len() && tx < old(self)@.grid[ty].len()
                    ==> old(self)@.grid[ty][tx] is Empty
            }),
        ensures
            final(self)@ == add_object_spec(old(self)@, object),
            world_wf(final(self)@),
    {
        let ty: usize = tile_to_grid(tile_index(object.pos.y));
        let tx: usize = tile_to_grid(tile_index(object.pos.x));
        if ty >= self.objects.len() || tx >= self.objects[ty].len() {
            assert(final(self)@ =~~= add_object_spec(old(self)@, object));
            return;
        }
        let px: usize = sub_to_px(object.pos.x);
        let py: usize = sub_to_px(object.pos.y);
        match object.object_type {
            ObjectType::Enemy(_) => {
                let g = Goomba::new(px, py, GOOMBA_MAX_SPEED);
                proof {
                    assert(g@ =~~= mk_goomba(px, py));
                }
                self.enemies.push(g);
                let idx: usize = self.enemies.len() - 1;
                grid_cell_set(&mut self.objects, ty, tx, ObjectReference::Enemy(idx));
                assert(final(self)@.enemies =~= add_object_spec(old(self)@, object).enemies);
                assert(final(self)@ =~~= add_object_spec(old(self)@, object));
            },
            ObjectType::Powerup => {
                let p = PowerUp::new(px, py);
                proof {
                    assert(p@ =~~= mk_powerup(px, py));
                }
                self.powerups.push(p);
                let idx: usize = self.powerups.len() - 1;
                grid_cell_set(&mut self.objects, ty, tx, ObjectReference::Powerup(idx));
                assert(final(self)@.powerups =~= add_object_spec(old(self)@, object).powerups);
                assert(final(self)@ =~~= add_object_spec(old(self)@, object));
            },
            ObjectType::Player => {
                grid_cell_set(&mut self.objects, ty, tx, ObjectReference::Player);
                assert(final(self)@ =~~= add_object_spec(old(self)@, object));
            },
            ObjectType::Block(_) => {
                assert(final(self)@ =~~= add_object_spec(old(self)@, object));
            },
        }
    }

    /// Places `object` as a block entity; see [`add_block_spec`]. Adding to
    /// an occupied cell desynchronizes the index and is ruled out.
    pub fn add_block(&mut self, object: Object, texture_id: u8)
        requires
            world_wf(old(self)@),
            obj_wf(object),
            object.object_type is Block,
            ({
                let ty = grid_coord(object.pos.y);
                let tx = grid_coord(object.pos.x);
                ty < old(self)@.grid.len() && tx < old(self)@.grid[ty].len()
                    ==> old(self)@.grid[ty][tx] is Empty
            }),
        ensures
            final(self)@ == add_block_spec(old(self)@, object, texture_id),
            world_wf(final(self)@),
    {
        let ty: usize = tile_to_grid(tile_index(object.pos.y));
        let tx: usize = tile_to_grid(tile_index(object.pos.x));
        if ty >= self.objects.len() || tx >= self.objects[ty].len() {
            assert(final(self)@ =~~= add_block_spec(old(self)@, object, texture_id));
            return;
        }
        let px: usize = sub_to_px(object.pos.x);
        let py: usize = sub_to_px(object.pos.y);
        let b = match object.object_type {
            ObjectType::Block(BlockType::Block) => Block::new_block(px, py, texture_id),
            _ => Block::new_powerup_block(px, py, texture_id),
        };
        proof {
            assert(b@.animate.frames =~= seq![texture_id as u32]);
            assert(b@ =~~= mk_block(px, py, object.object_type, texture_id));
        }
        self.blocks.push(b);
        let idx: usize = self.blocks.len() - 1;
        grid_cell_set(&mut self.objects, ty, tx, ObjectReference::Block(idx));
        assert(final(self)@.blocks =~= add_block_spec(old(self)@, object, texture_id).blocks);
        assert(final(self)@ =~~= add_block_spec(old(self)@, object, texture_id));
    }

    /// The grid cell `object`'s tile resolves to; see [`ref_at_spec`].
    pub fn get_the_objects_reference(&self, object: &Object) -> (r: Option<ObjectReference>)
        requires
            world_wf(self@),
            obj_wf(*object),
        ensures
            r == ref_at_spec(self@.grid, *object),
    {
        let ty: usize = tile_to_grid(tile_index(object.pos.y));
        let tx: usize = tile_to_grid(tile_index(object.pos.x));
        if ty < self.objects.len() && tx < self.objects[ty].len() {
            Some(self.objects[ty][tx])
        } else {
            None
        }
    }

    /// Clears the grid cell `object`'s tile resolves to; see
    /// [`clear_ref_spec`].
    pub fn clear_the_objects_reference(&mut self, object: &Object)
        requires
            world_wf(old(self)@),
            obj_wf(*object),
        ensures
            final(self)@ == (WorldV { grid: clear_ref_spec(old(self)@.grid, *object), ..old(self)@ }),
            world_wf(final(self)@),
    {
        let ty: usize = tile_to_grid(tile_index(object.pos.y));
        let tx: usize = tile_to_grid(tile_index(object.pos.x));
        if ty < self.objects.len() && tx < self.objects[ty].len() {
            grid_cell_set(&mut self.objects, ty, tx, ObjectReference::Empty);
        }
        assert(final(self)@ =~~= (WorldV { grid: clear_ref_spec(old(self)@.grid, *object), ..old(self)@ }));
    }

    /// Loads the level's tile stream: every tile whose identifier names a
    /// block kind becomes a block entity at its row-major position; see
    /// [`load_level_spec`]. Loading expects a world whose grid is still
    /// empty.
    pub fn load_level(&mut self, level: &LevelData)
        requires
            world_wf(old(self)@),
            old(self)@.blocks.len() == 0,
            level.tiles@.len() <= 0x100_0000,
            forall|i: int, j: int| 0 <= i < old(self)@.grid.len() && 0 <= j < old(self)@.grid[i].len()
                ==> old(self)@.grid[i][j] is Empty,
        ensures
            final(self)@ == load_level_spec(old(self)@, level.tiles@, level.tiles@.len() as int),
            world_wf(final(self)@),
    {
        let cols: usize = self.width / MARIO_SPRITE_BLOCK_SIZE;
        let ghost w0 = self@;
        let ghost tiles = level.tiles@;
        let n: usize = level.tiles.len();
        let mut i: usize = 0;
        while i < n
            invariant
                i <= n,
                n == tiles.len(),
                n <= 0x100_0000,
                tiles == level.tiles@,
                cols == w0.width / MARIO_SPRITE_BLOCK_SIZE,
                1 <= cols,
                world_wf(self@),
                world_wf(w0),
                self@ == load_level_spec(w0, tiles, i as int),
                self@.height == w0.height,
                self@.width == w0.width,
                self@.grid.len() == w0.grid.len(),
                self@.blocks.len() <= i,
                forall|a: int, b: int| 0 <= a < self@.grid.len() && 0 <= b < self@.grid[a].len()
                    && a * cols + b >= i ==> self@.grid[a][b] is Empty,
            decreases n - i,
        {
            let id: usize = level.tiles[i];
            match sprite_id_to_type(id) {
                Some(t) => {
                    let x: usize = (i % cols) * MARIO_SPRITE_BLOCK_SIZE;
                    let y: usize = (i / cols) * MARIO_SPRITE_BLOCK_SIZE;
                    let object = Object::new(x, y, t);
                    proof {
                        let q = (i as int) / (cols as int);
                        let rr = (i as int) % (cols as int);
                        vstd::arithmetic::div_mod::lemma_fundamental_div_mod(i as int, cols as int);
                        vstd::arithmetic::div_mod::lemma_mod_bound(i as int, cols as int);
                        assert(0 <= q <= i) by (nonlinear_arith)
                            requires
                                cols as int >= 1,
                                i as int == (cols as int) * q + rr,
                                0 <= rr < cols as int,
                                i >= 0,
                        ;
                        lemma_tile_index_exact(rr);
                        lemma_tile_index_exact(q);
                        assert(x == rr * MARIO_SPRITE_BLOCK_SIZE);
                        assert(y == q * MARIO_SPRITE_BLOCK_SIZE);
                        assert(grid_coord(object.pos.x) == rr);
                        assert(grid_coord(object.pos.y) == q);
                        if q < self@.grid.len() && rr < self@.grid[q].len() {
                            assert(q * cols + rr == i) by (nonlinear_arith)
                                requires
                                    i as int == (cols as int) * q + rr,
                            ;
                            assert(self@.grid[q][rr] is Empty);
                        }
                    }
                    self.add_block(object, id as u8);
                },
                None => {},
            }
            proof {
                assert(self@ =~~= load_level_spec(w0, tiles, i + 1));
            }
            i = i + 1;
        }
    }

    /// Places the level's fixed set of goombas. The cells they start on must
    /// still be free.
    pub fn load_enemies(&mut self)
        requires
            world_wf(old(self)@),
            start_cell_free(old(self)@, 10, 11),
            start_cell_free(old(self)@, 14, 11),
            start_cell_free(old(self)@, 40, 11),
            start_cell_free(old(self)@, 49, 11),
            start_cell_free(old(self)@, 55, 11),
            start_cell_free(old(self)@, 166, 11),
        ensures
            ({
                let w1 = add_object_spec(old(self)@, spawn_obj(160, 176));
                let w2 = add_object_spec(w1, spawn_obj(224, 176));
                let w3 = add_object_spec(w2, spawn_obj(640, 176));
                let w4 = add_object_spec(w3, spawn_obj(776, 176));
                let w5 = add_object_spec(w4, spawn_obj(876, 176));
                final(self)@ == add_object_spec(w5, spawn_obj(2648, 176))
            }),
            world_wf(final(self)@),
    {
        self.add_object(Object::new(160, 176, ObjectType::Enemy(EnemyType::Goomba)));
        self.add_object(Object::new(224, 176, ObjectType::Enemy(EnemyType::Goomba)));
        self.add_object(Object::new(640, 176, ObjectType::Enemy(EnemyType::Goomba)));
        self.add_object(Object::new(776, 176, ObjectType::Enemy(EnemyType::Goomba)));
        self.add_object(Object::new(876, 176, ObjectType::Enemy(EnemyType::Goomba)));
        self.add_object(Object::new(2648, 176, ObjectType::Enemy(EnemyType::Goomba)));
    }

    /// Wraps `object` as a power-up that rises out of a block; see
    /// [`spawn_powerup_spec`].
    pub fn spawn_powerup(&mut self, object: Object)
        requires
            world_wf(old(self)@),
            obj_wf(object),
            object.object_type is Powerup,
        ensures
            final(self)@ == spawn_powerup_spec(old(self)@, object),
            world_wf(final(self)@),
    {
        let px: usize = sub_to_px(object.pos.x);
        let py: usize = sub_to_px(object.pos.y);
        let powerup = PowerUp::new(px, py);
        proof {
            assert(powerup@ =~~= mk_powerup(px, py));
        }
        self.spawning_objects.push(SpawningObject::new(powerup));
        assert(final(self)@.spawning_objects =~= spawn_powerup_spec(old(self)@, object).spawning_objects);
        assert(final(self)@ =~~= spawn_powerup_spec(old(self)@, object));
    }

    /// Resets the player to the start position.
    pub fn load_player(&mut self)
        requires
            world_wf(old(self)@),
        ensures
            final(self)@ == (WorldV { player: final(self)@.player, ..old(self)@ }),
            final(self)@.player.object.pos.x == PLAYER_START_X * SUBPIXEL,
            final(self)@.player.object.pos.y == PLAYER_START_Y * SUBPIXEL,
            final(self)@.player.power_state is Small,
            world_wf(final(self)@),
    {
        self.player = Player::new(PLAYER_START_X, PLAYER_START_Y, MAX_VELOCITY_X);
    }

    /// Feeds one tick of input to the player: held directions accelerate it
    /// (and are remembered for the animation), a held jump key boosts or
    /// starts a jump. Returns whether a jump sound is owed; see
    /// [`handle_input_spec`].
    pub fn handle_input(&mut self, left: bool, right: bool, jump: bool) -> (sound: bool)
        requires
            world_wf(old(self)@),
        ensures
            final(self)@ == (WorldV {
                player: handle_input_spec(old(self)@.player, left, right, jump).0,
                ..old(self)@
            }),
            sound == handle_input_spec(old(self)@.player, left, right, jump).1,
            world_wf(final(self)@),
    {
        self.player.input_left = left;
        self.player.input_right = right;
        if right {
            self.player.add_horizontal_velocity(ACCELERATION_PER_TICK);
        }
        if left {
            self.player.add_horizontal_velocity(-ACCELERATION_PER_TICK);
        }
        let sound = if jump {
            self.player.jump()
        } else {
            false
        };
        assert(final(self)@ =~~= (WorldV {
            player: handle_input_spec(old(self)@.player, left, right, jump).0,
            ..old(self)@
        }));
        sound
    }

    /// The spatial neighbor query: every entity referenced by a grid cell
    /// within `radius` tiles of `object`'s tile (the entity's own cell
    /// excluded), paired with the sign-reduced direction toward it; see
    /// [`surrounding_spec`]. The collections are position snapshots of the
    /// owning collections.
    pub fn get_surrounding_objects(
        objects: &Vec<Vec<ObjectReference>>,
        enemies: &Vec<Object>,
        powerups: &Vec<Object>,
        blocks: &Vec<Object>,
        object: &Object,
        radius: usize,
    ) -> (result: Vec<SurroundingObject>)
        requires
            obj_wf(*object),
            1 <= radius <= 8,
            1 <= grid_view(*objects).len() <= 0x400_0000,
            grid_view(*objects)[0].len() <= 0x400_0000,
            forall|i: int| 0 <= i < grid_view(*objects).len()
                ==> (#[trigger] grid_view(*objects)[i]).len() == grid_view(*objects)[0].len(),
            forall|i: int| 0 <= i < enemies@.len() ==> obj_wf(#[trigger] enemies@[i]),
            forall|i: int| 0 <= i < powerups@.len() ==> obj_wf(#[trigger] powerups@[i]),
            forall|i: int| 0 <= i < blocks@.len() ==> obj_wf(#[trigger] blocks@[i]),
        ensures
            result@ == surrounding_spec(grid_view(*objects), enemies@, powerups@, blocks@, *object, radius as int),
            forall|i: int| 0 <= i < result@.len() ==> surrounding_wf(#[trigger] result@[i]),
    {
        let ghost grid = grid_view(*objects);
        let n: usize = 2 * radius + 1;
        let ty0: i64 = tile_index(object.pos.y);
        let tx0: i64 = tile_index(object.pos.x);
        let rows: usize = objects.len();
        let cols: usize = objects[0].len();
        let mut result: Vec<SurroundingObject> = Vec::new();
        let mut i: usize = 0;
        proof {
            assert(result@ =~= surrounding_upto(grid, enemies@, powerups@, blocks@, *object, radius as int, 0));
        }
        while i < n
            invariant
                i <= n,
                n == 2 * radius + 1,
                1 <= radius <= 8,
                obj_wf(*object),
                grid == grid_view(*objects),
                rows == grid.len(),
                cols == grid[0].len(),
                1 <= rows <= 0x400_0000,
                cols <= 0x400_0000,
                forall|a: int| 0 <= a < grid.len()
                    ==> (#[trigger] grid[a]).len() == cols,
                forall|a: int| 0 <= a < enemies@.len() ==> obj_wf(#[trigger] enemies@[a]),
                forall|a: int| 0 <= a < powerups@.len() ==> obj_wf(#[trigger] powerups@[a]),
                forall|a: int| 0 <= a < blocks@.len() ==> obj_wf(#[trigger] blocks@[a]),
                ty0 == spec_tile_index(object.pos.y as int),
                tx0 == spec_tile_index(object.pos.x as int),
                result@ == surrounding_upto(grid, enemies@, powerups@, blocks@, *object, radius as int, i * n),
                forall|a: int| 0 <= a < result@.len() ==> surrounding_wf(#[trigger] result@[a]),
            decreases n - i,
        {
            let mut j: usize = 0;
            while j < n
                invariant
                    i < n,
                    j <= n,
                    n == 2 * radius + 1,
                    1 <= radius <= 8,
                    obj_wf(*object),
                    grid == grid_view(*objects),
                    rows == grid.len(),
                    cols == grid[0].len(),
                    1 <= rows <= 0x400_0000,
                    cols <= 0x400_0000,
                    forall|a: int| 0 <= a < grid.len()
                        ==> (#[trigger] grid[a]).len() == cols,
                    forall|a: int| 0 <= a < enemies@.len() ==> obj_wf(#[trigger] enemies@[a]),
                    forall|a: int| 0 <= a < powerups@.len() ==> obj_wf(#[trigger] powerups@[a]),
                    forall|a: int| 0 <= a < blocks@.len() ==> obj_wf(#[trigger] blocks@[a]),
                    ty0 == spec_tile_index(object.pos.y as int),
                    tx0 == spec_tile_index(object.pos.x as int),
                    result@ == surrounding_upto(grid, enemies@, powerups@, blocks@, *object, radius as int, i * n + j),
                    forall|a: int| 0 <= a < result@.len() ==> surrounding_wf(#[trigger] result@[a]),
                decreases n - j,
            {
                let dy: i64 = i as i64 - radius as i64;
                let dx: i64 = j as i64 - radius as i64;
                let ghost k = i * n + j;
                proof {
                    assert((k as int) == (i as int) * (n as int) + (j as int)) by (nonlinear_arith)
                        requires
                            k == i * n + j,
                    ;
                    lemma_fundamental_div_mod_converse(k as int, n as int, i as int, j as int);
                    assert((k as int) / (n as int) - (radius as int) == dy);
                    assert((k as int) % (n as int) - (radius as int) == dx);
                }
                if !(dy == 0 && dx == 0) {
                    let ny: i64 = ty0 + dy;
                    let nx: i64 = tx0 + dx;
                    if ny >= 0 && ny < rows as i64 && nx >= 0 && nx < cols as i64 {
                        let cell: ObjectReference = objects[ny as usize][nx as usize];
                        proof {
                            assert(grid[ny as int][nx as int] == cell);
                        }
                        match cell {
                            ObjectReference::Block(bi) => {
                                if bi < blocks.len() {
                                    result.push(SurroundingObject::new(blocks[bi], (sgn(dy), sgn(dx))));
                                }
                            },
                            ObjectReference::Enemy(ei) => {
                                if ei < enemies.len() {
                                    result.push(SurroundingObject::new(enemies[ei], (sgn(dy), sgn(dx))));
                                }
                            },
                            ObjectReference::Powerup(pi) => {
                                if pi < powerups.len() {
                                    result.push(SurroundingObject::new(powerups[pi], (sgn(dy), sgn(dx))));
                                }
                            },
                            ObjectReference::Player => {},
                            ObjectReference::Empty => {},
                        }
                    }
                }
                proof {
                    assert(result@ =~= surrounding_upto(grid, enemies@, powerups@, blocks@, *object, radius as int, k + 1));
                }
                j = j + 1;
            }
            proof {
                assert((i as int) * (n as int) + (n as int) == ((i as int) + 1) * (n as int)) by (nonlinear_arith);
            }
            i = i + 1;
        }
        proof {
            assert((n as int) * (n as int) == (2 * (radius as int) + 1) * (2 * (radius as int) + 1)) by (nonlinear_arith)
                requires
                    n == 2 * radius + 1,
            ;
        }
        result
    }


    /// Consumes one gameplay event, mutating the world; see
    /// [`handle_event_spec`].
    #[verifier::rlimit(100)]
    pub fn handle_game_event(&mut self, game_event: GameEvent)
        requires
            world_wf(old(self)@),
            obj_wf(game_event.triggered_by),
            match game_event.target {
                Some(t) => obj_wf(t),
                None => true,
            },
        ensures
            final(self)@ == handle_event_spec(old(self)@, game_event),
            world_wf(final(self)@),
    {
        match game_event.event {
            GameEventType::GameWon => {
                self.game_state = GameState::GameWon;
                assert(final(self)@ =~~= handle_event_spec(old(self)@, game_event));
            },
            GameEventType::GameOver => {
                self.game_state = GameState::GameOver;
                assert(final(self)@ =~~= handle_event_spec(old(self)@, game_event));
            },
            GameEventType::Kill => {
                let victim: Object = match game_event.target {
                    Some(t) => t,
                    None => game_event.triggered_by,
                };
                match victim.object_type {
                    ObjectType::Enemy(_) => {
                        retain_goombas(&mut self.enemies, &victim);
                    },
                    ObjectType::Powerup => {
                        retain_powerups(&mut self.powerups, &victim);
                    },
                    _ => {},
                }
                proof {
                    let rv = remove_goombas_matching(old(self)@.enemies, victim);
                    assert forall|i: int| 0 <= i < rv.len() implies goomba_wf(#[trigger] rv[i]) by {
                        lemma_remove_goombas_subset(old(self)@.enemies, victim, i);
                    }
                    let rp = remove_powerups_matching(old(self)@.powerups, victim);
                    assert forall|i: int| 0 <= i < rp.len() implies powerup_wf(#[trigger] rp[i]) by {
                        lemma_remove_powerups_subset(old(self)@.powerups, victim, i);
                    }
                }
                self.clear_the_objects_reference(&victim);
                assert(final(self)@ =~~= handle_event_spec(old(self)@, game_event));
            },
            GameEventType::PlayerHit => {
                self.player.power_down();
                apply_gravity(&mut self.player.velocity);
                let ghost s0 = old(self)@.enemies;
                let enemy_obj: Object = game_event.triggered_by;
                let n: usize = self.enemies.len();
                let mut i: usize = 0;
                let mut found: Option<usize> = None;
                while i < n
                    invariant_except_break
                        found is None,
                    invariant
                        i <= n,
                        n == self.enemies@.len(),
                        s0 == goombas_view(self.enemies),
                        forall|j: int| 0 <= j < i ==> !obj_matches((#[trigger] s0[j]).object, enemy_obj),
                    ensures
                        match found {
                            Some(a) => a < n && obj_matches(s0[a as int].object, enemy_obj)
                                && forall|j: int| 0 <= j < a
                                    ==> !obj_matches((#[trigger] s0[j]).object, enemy_obj),
                            None => forall|j: int| 0 <= j < n
                                ==> !obj_matches((#[trigger] s0[j]).object, enemy_obj),
                        },
                    decreases n - i,
                {
                    if self.enemies[i].object.matches(&enemy_obj) {
                        found = Some(i);
                        break;
                    }
                    i = i + 1;
                }
                proof {
                    match found {
                        Some(a) => lemma_find_goomba_prefix(s0, enemy_obj, a as int),
                        None => lemma_find_goomba_prefix(s0, enemy_obj, n as int),
                    }
                }
                match found {
                    Some(a) => {
                        proof {
                            assert(goomba_wf(s0[a as int]));
                        }
                        let evx: i64 = self.enemies[a].velocity.x;
                        let new_vx: i64 = if self.player.velocity.x < 0 { evx } else { -evx };
                        let e = &mut self.enemies[a];
                        e.velocity.x = new_vx;
                        e.object.pos.x = clamped_add(e.object.pos.x, new_vx, POS_LIMIT);
                    },
                    None => {},
                }
                self.game_state = GameState::Frozen(FROZEN_TICKS);
                match self.player.power_state {
                    PlayerState::Dead => {
                        self.game_state = GameState::GameOver;
                    },
                    _ => {},
                }
                assert(final(self)@.enemies =~= handle_event_spec(old(self)@, game_event).enemies);
                assert(final(self)@ =~~= handle_event_spec(old(self)@, game_event));
            },
            GameEventType::PlayerPowerUp => {
                self.player.power_up();
                match game_event.target {
                    Some(target) => {
                        self.clear_the_objects_reference(&target);
                        retain_powerups(&mut self.powerups, &target);
                        proof {
                            let rp = remove_powerups_matching(old(self)@.powerups, target);
                            assert forall|i: int| 0 <= i < rp.len() implies powerup_wf(#[trigger] rp[i]) by {
                                lemma_remove_powerups_subset(old(self)@.powerups, target, i);
                            }
                        }
                    },
                    None => {},
                }
                assert(final(self)@ =~~= handle_event_spec(old(self)@, game_event));
            },
            GameEventType::EnemyCollEnemy => {
                match game_event.target {
                    Some(target1) => {
                        let target2: Object = game_event.triggered_by;
                        let ghost s0 = old(self)@.enemies;
                        let n: usize = self.enemies.len();
                        let mut k: usize = 0;
                        let mut i1: Option<usize> = None;
                        let mut i2: Option<usize> = None;
                        while k < n && !(i1.is_some() && i2.is_some())
                            invariant
                                k <= n,
                                n == self.enemies@.len(),
                                s0 == goombas_view(self.enemies),
                                find_pair(s0, target1, target2, None, None, 0)
                                    == find_pair(s0, target1, target2, opt_int(i1), opt_int(i2), k as int),
                                match i1 {
                                    Some(a) => a < n && obj_matches(s0[a as int].object, target1),
                                    None => true,
                                },
                                match i2 {
                                    Some(b) => b < n && !obj_matches(s0[b as int].object, target1),
                                    None => true,
                                },
                            decreases n - k,
                        {
                            if self.enemies[k].object.matches(&target1) {
                                i1 = Some(k);
                            } else if self.enemies[k].object.matches(&target2) {
                                i2 = Some(k);
                            }
                            k = k + 1;
                        }
                        match i1 {
                            Some(a) => match i2 {
                                Some(b) => {
                                    let v1: i64 = self.enemies[a].velocity.x;
                                    let v2: i64 = self.enemies[b].velocity.x;
                                    if fsign(v1) == fsign(v2) {
                                        let e = &mut self.enemies[a];
                                        e.velocity.x = -v1;
                                    }
                                },
                                None => {},
                            },
                            None => {},
                        }
                        assert(final(self)@.enemies =~= handle_event_spec(old(self)@, game_event).enemies);
                        assert(final(self)@ =~~= handle_event_spec(old(self)@, game_event));
                    },
                    None => {
                        assert(final(self)@ =~~= handle_event_spec(old(self)@, game_event));
                    },
                }
            },
            GameEventType::PlayerHitPowerupBlock => {
                match game_event.target {
                    Some(target) => {
                        match target.object_type {
                            ObjectType::Block(BlockType::PowerupBlock) => {
                                let object_ref = self.get_the_objects_reference(&target);
                                match object_ref {
                                    Some(ObjectReference::Block(index)) => {
                                        if index < self.blocks.len() {
                                            let blk = &mut self.blocks[index];
                                            blk.transform_into_regular_block();
                                            proof {
                                                assert forall|a: int| 0 <= a < self@.blocks.len()
                                                    implies block_wf(#[trigger] self@.blocks[a]) by {
                                                    if a != index as int {
                                                        assert(self@.blocks[a] == old(self)@.blocks[a]);
                                                    }
                                                }
                                            }
                                        }
                                    },
                                    _ => {},
                                }
                                proof {
                                    assert(world_wf(self@));
                                }
                                let px: usize = sub_to_px(target.pos.x);
                                let py: usize = sub_to_px(target.pos.y);
                                if py >= MARIO_SPRITE_BLOCK_SIZE {
                                    self.spawn_powerup(Object::new(
                                        px,
                                        py - MARIO_SPRITE_BLOCK_SIZE,
                                        ObjectType::Powerup,
                                    ));
                                    proof {
                                        lemma_px_roundtrip(px as int);
                                        lemma_px_roundtrip(py - MARIO_SPRITE_BLOCK_SIZE);
                                    }
                                }
                                assert(final(self)@.blocks
                                    =~= handle_event_spec(old(self)@, game_event).blocks);
                                assert(final(self)@.spawning_objects
                                    =~= handle_event_spec(old(self)@, game_event).spawning_objects);
                                assert(final(self)@ =~~= handle_event_spec(old(self)@, game_event));
                            },
                            _ => {
                                assert(final(self)@ =~~= handle_event_spec(old(self)@, game_event));
                            },
                        }
                    },
                    None => {
                        assert(final(self)@ =~~= handle_event_spec(old(self)@, game_event));
                    },
                }
            },
            GameEventType::PlayerHitBlock => {
                match game_event.target {
                    Some(target) => {
                        if target.object_type == ObjectType::Block(BlockType::Block) {
                            let object_ref = self.get_the_objects_reference(&target);
                            match object_ref {
                                Some(ObjectReference::Block(index)) => {
                                    if index < self.blocks.len() {
                                        let y: i64 = self.blocks[index].object.pos.y;
                                        let bx: i64 = self.blocks[index].object.pos.x;
                                        let bw: i64 = self.blocks[index].object.width as i64 * SUBPIXEL;
                                        let pcx: i64 = self.player.object.pos.x
                                            + self.player.object.width as i64 * (SUBPIXEL / 2);
                                        if y >= self.player.object.pos.y || pcx < bx || pcx > bx + bw {
                                        } else {
                                            let frames_copy = copied_frames(&self.blocks[index].animate.frames);
                                            let offsets = vec![
                                                Vec2i { x: 0, y: -240 },
                                                Vec2i { x: 0, y: -480 },
                                                Vec2i { x: 0, y: -720 },
                                                Vec2i { x: 0, y: -960 },
                                                Vec2i { x: 0, y: -720 },
                                                Vec2i { x: 0, y: -480 },
                                                Vec2i { x: 0, y: -240 },
                                            ];
                                            proof {
                                                assert(offsets@ =~= bump_offsets());
                                            }
                                            let builder = PlayAnimationBuilder::new(frames_copy);
                                            let builder = builder.pos_offset_frames(offsets);
                                            let animation = builder.build();
                                            let blk = &mut self.blocks[index];
                                            blk.animate.scale_animation_speed(2, 1);
                                            blk.animate.play_animation(animation);
                                        }
                                    }
                                },
                                _ => {},
                            }
                        }
                        assert(final(self)@.blocks =~= handle_event_spec(old(self)@, game_event).blocks);
                        assert(final(self)@ =~~= handle_event_spec(old(self)@, game_event));
                    },
                    None => {
                        assert(final(self)@ =~~= handle_event_spec(old(self)@, game_event));
                    },
                }
            },
        }
    }


    /// One tick of every rising power-up: each advances; a finished one
    /// leaves the spawning list and, if its grid cell is free, joins the live
    /// power-ups (an occupied cell drops the spawn, keeping the index in
    /// sync); see [`spawn_pass_from`].
    pub fn update_spawning_objects(&mut self)
        requires
            world_wf(old(self)@),
        ensures
            final(self)@ == spawn_pass_from(old(self)@, 0),
            world_wf(final(self)@),
    {
        let ghost w0 = self@;
        let mut i: usize = self.spawning_objects.len();
        while i > 0
            invariant
                world_wf(self@),
                i <= self.spawning_objects@.len(),
                i <= w0.spawning_objects.len(),
                self@ == spawn_pass_from(w0, i as int),
                forall|j: int| 0 <= j < i ==> self@.spawning_objects[j] == w0.spawning_objects[j],
            decreases i,
        {
            i = i - 1;
            let ghost w_before = self@;
            let sref = &mut self.spawning_objects[i];
            let done = sref.update();
            proof {
                assert(self@.spawning_objects
                    =~= w_before.spawning_objects.update(i as int, spawning_step(w_before.spawning_objects[i as int]).0));
                assert(self@ =~~= (WorldV {
                    spawning_objects: w_before.spawning_objects.update(
                        i as int,
                        spawning_step(w_before.spawning_objects[i as int]).0,
                    ),
                    ..w_before
                }));
            }
            if done {
                let removed = self.spawning_objects.swap_remove(i);
                proof {
                    assert(self@.spawning_objects
                        =~= w_before.spawning_objects.update(
                            i as int,
                            spawning_step(w_before.spawning_objects[i as int]).0,
                        ).update(
                            i as int,
                            w_before.spawning_objects.update(
                                i as int,
                                spawning_step(w_before.spawning_objects[i as int]).0,
                            ).last(),
                        ).drop_last());
                }
                let obj: Object = removed.object.object;
                let ty: usize = tile_to_grid(tile_index(obj.pos.y));
                let tx: usize = tile_to_grid(tile_index(obj.pos.x));
                if ty < self.objects.len() && tx < self.objects[ty].len() {
                    let cell: ObjectReference = self.objects[ty][tx];
                    match cell {
                        ObjectReference::Empty => {
                            self.add_object(obj);
                        },
                        _ => {},
                    }
                }
            }
            proof {
                assert(self@ =~~= spawn_pass_from(w0, i as int));
            }
        }
    }


    /// Runs the enemy phase: every goomba ticks, in order, against the
    /// start-of-tick snapshots and the evolving grid; see [`enemy_phase`].
    fn run_enemy_phase(&mut self, snap_e: &Vec<Object>, snap_p: &Vec<Object>, snap_b: &Vec<Object>) -> (events: Vec<GameEvent>)
        requires
            world_wf(old(self)@),
            forall|i: int| 0 <= i < snap_e@.len() ==> obj_wf(#[trigger] snap_e@[i]),
            forall|i: int| 0 <= i < snap_p@.len() ==> obj_wf(#[trigger] snap_p@[i]),
            forall|i: int| 0 <= i < snap_b@.len() ==> obj_wf(#[trigger] snap_b@[i]),
        ensures
            final(self)@ == enemy_phase(old(self)@, snap_e@, snap_p@, snap_b@, old(self)@.enemies.len() as int).0,
            events@ == enemy_phase(old(self)@, snap_e@, snap_p@, snap_b@, old(self)@.enemies.len() as int).1,
            world_wf(final(self)@),
            forall|k: int| 0 <= k < events@.len() ==> event_objects_wf(#[trigger] events@[k]),
            final(self)@.player == old(self)@.player,
            final(self)@.powerups == old(self)@.powerups,
            final(self)@.blocks == old(self)@.blocks,
            final(self)@.spawning_objects == old(self)@.spawning_objects,
            final(self)@.camera == old(self)@.camera,
            final(self)@.game_state == old(self)@.game_state,
            final(self)@.width == old(self)@.width,
            final(self)@.height == old(self)@.height,
    {
        let ghost w0 = self@;
        let bounds = WorldBounds {
            min_x: 0,
            max_x: self.width as i64 * SUBPIXEL,
            max_y: self.height as i64 * SUBPIXEL,
        };
        let n: usize = self.enemies.len();
        let mut events: Vec<GameEvent> = Vec::new();
        let mut k: usize = 0;
        proof {
            assert(events@ =~= enemy_phase(w0, snap_e@, snap_p@, snap_b@, 0).1);
        }
        while k < n
            invariant
                k <= n,
                n == self.enemies@.len(),
                n == w0.enemies.len(),
                world_wf(self@),
                world_wf(w0),
                forall|i: int| 0 <= i < snap_e@.len() ==> obj_wf(#[trigger] snap_e@[i]),
                forall|i: int| 0 <= i < snap_p@.len() ==> obj_wf(#[trigger] snap_p@[i]),
                forall|i: int| 0 <= i < snap_b@.len() ==> obj_wf(#[trigger] snap_b@[i]),
                self@ == enemy_phase(w0, snap_e@, snap_p@, snap_b@, k as int).0,
                events@ == enemy_phase(w0, snap_e@, snap_p@, snap_b@, k as int).1,
                forall|a: int| 0 <= a < events@.len() ==> event_objects_wf(#[trigger] events@[a]),
                self@.width == w0.width,
                self@.height == w0.height,
                self@.camera == w0.camera,
                self@.player == w0.player,
                self@.powerups == w0.powerups,
                self@.blocks == w0.blocks,
                self@.spawning_objects == w0.spawning_objects,
                self@.game_state == w0.game_state,
                bounds == enemy_bounds(w0),
            decreases n - k,
        {
            let ghost w_pre = self@;
            let g_object: Object = self.enemies[k].object;
            let surrounding = World::get_surrounding_objects(
                &self.objects, snap_e, snap_p, snap_b, &g_object, 1);
            let old_ty: usize = tile_to_grid(tile_index(g_object.pos.y));
            let old_tx: usize = tile_to_grid(tile_index(g_object.pos.x));
            let e = &mut self.enemies[k];
            let mut evs = e.update(&surrounding, bounds);
            proof {
                let g = w_pre.enemies[k as int];
                let v0 = Vec2i { x: (WALK_SPEED * fsign_int(g.velocity.x as int)) as i64, y: g.velocity.y };
                lemma_physics_wf(g.object, v0, surrounding@, bounds);
            }
            events.append(&mut evs);
            let new_object: Object = self.enemies[k].object;
            let new_ty: usize = tile_to_grid(tile_index(new_object.pos.y));
            let new_tx: usize = tile_to_grid(tile_index(new_object.pos.x));
            if old_ty == new_ty && old_tx == new_tx {
            } else if old_ty >= self.objects.len() || old_tx >= self.objects[old_ty].len() {
            } else {
                grid_cell_set(&mut self.objects, old_ty, old_tx, ObjectReference::Empty);
                if new_ty >= self.objects.len() || new_tx >= self.objects[new_ty].len() {
                } else {
                    grid_cell_set(&mut self.objects, new_ty, new_tx, ObjectReference::Enemy(k));
                }
            }
            proof {
                assert(self@ =~~= enemy_phase(w0, snap_e@, snap_p@, snap_b@, k + 1).0);
                assert(events@ =~= enemy_phase(w0, snap_e@, snap_p@, snap_b@, k + 1).1);
            }
            k = k + 1;
        }
        events
    }

    /// Advances every block's animation clock by one tick.
    fn run_blocks_tick(&mut self)
        requires
            world_wf(old(self)@),
        ensures
            final(self)@ == (WorldV { blocks: blocks_tick(old(self)@.blocks), ..old(self)@ }),
            world_wf(final(self)@),
    {
        let n: usize = self.blocks.len();
        let mut i: usize = 0;
        while i < n
            invariant
                i <= n,
                n == self.blocks@.len(),
                world_wf(self@),
                self@.blocks.len() == old(self)@.blocks.len(),
                forall|j: int| 0 <= j < i
                    ==> #[trigger] self@.blocks[j] == (BlockV {
                        animate: animate_step(old(self)@.blocks[j].animate),
                        ..old(self)@.blocks[j]
                    }),
                forall|j: int| i <= j < n ==> #[trigger] self@.blocks[j] == old(self)@.blocks[j],
                self@ == (WorldV { blocks: self@.blocks, ..old(self)@ }),
            decreases n - i,
        {
            let ghost pre = self@;
            proof {
                assert(block_wf(pre.blocks[i as int]));
            }
            let b = &mut self.blocks[i];
            b.update();
            proof {
                assert(self@.blocks =~= pre.blocks.update(i as int, self@.blocks[i as int]));
                assert forall|a: int| 0 <= a < self@.blocks.len()
                    implies block_wf(#[trigger] self@.blocks[a]) by {
                    if a != i as int {
                        assert(self@.blocks[a] == pre.blocks[a]);
                    }
                }
                assert(self@.enemies == pre.enemies);
                assert(self@.powerups == pre.powerups);
                assert(self@.spawning_objects == pre.spawning_objects);
                assert(self@.player == pre.player);
                assert(self@.grid == pre.grid);
                assert(world_wf(self@));
                assert(self@ =~~= (WorldV { blocks: self@.blocks, ..old(self)@ }));
            }
            i = i + 1;
        }
        proof {
            assert(self@.blocks =~= blocks_tick(old(self)@.blocks));
            assert(self@ =~~= (WorldV { blocks: blocks_tick(old(self)@.blocks), ..old(self)@ }));
        }
    }

    /// Runs the power-up phase; the mirror of [`run_enemy_phase`]; see
    /// [`powerup_phase`].
    fn run_powerup_phase(&mut self, snap_e: &Vec<Object>, snap_p: &Vec<Object>, snap_b: &Vec<Object>) -> (events: Vec<GameEvent>)
        requires
            world_wf(old(self)@),
            forall|i: int| 0 <= i < snap_e@.len() ==> obj_wf(#[trigger] snap_e@[i]),
            forall|i: int| 0 <= i < snap_p@.len() ==> obj_wf(#[trigger] snap_p@[i]),
            forall|i: int| 0 <= i < snap_b@.len() ==> obj_wf(#[trigger] snap_b@[i]),
        ensures
            final(self)@ == powerup_phase(old(self)@, snap_e@, snap_p@, snap_b@, old(self)@.powerups.len() as int).0,
            events@ == powerup_phase(old(self)@, snap_e@, snap_p@, snap_b@, old(self)@.powerups.len() as int).1,
            world_wf(final(self)@),
            forall|k: int| 0 <= k < events@.len() ==> event_objects_wf(#[trigger] events@[k]),
            final(self)@.player == old(self)@.player,
            final(self)@.enemies == old(self)@.enemies,
            final(self)@.blocks == old(self)@.blocks,
            final(self)@.spawning_objects == old(self)@.spawning_objects,
            final(self)@.camera == old(self)@.camera,
            final(self)@.game_state == old(self)@.game_state,
            final(self)@.width == old(self)@.width,
            final(self)@.height == old(self)@.height,
    {
        let ghost w0 = self@;
        let bounds = WorldBounds {
            min_x: 0,
            max_x: self.width as i64 * SUBPIXEL,
            max_y: self.height as i64 * SUBPIXEL,
        };
        let n: usize = self.powerups.len();
        let mut events: Vec<GameEvent> = Vec::new();
        let mut k: usize = 0;
        proof {
            assert(events@ =~= powerup_phase(w0, snap_e@, snap_p@, snap_b@, 0).1);
        }
        while k < n
            invariant
                k <= n,
                n == self.powerups@.len(),
                n == w0.powerups.len(),
                world_wf(self@),
                world_wf(w0),
                forall|i: int| 0 <= i < snap_e@.len() ==> obj_wf(#[trigger] snap_e@[i]),
                forall|i: int| 0 <= i < snap_p@.len() ==> obj_wf(#[trigger] snap_p@[i]),
                forall|i: int| 0 <= i < snap_b@.len() ==> obj_wf(#[trigger] snap_b@[i]),
                self@ == powerup_phase(w0, snap_e@, snap_p@, snap_b@, k as int).0,
                events@ == powerup_phase(w0, snap_e@, snap_p@, snap_b@, k as int).1,
                forall|a: int| 0 <= a < events@.len() ==> event_objects_wf(#[trigger] events@[a]),
                self@.width == w0.width,
                self@.height == w0.height,
                self@.camera == w0.camera,
                self@.player == w0.player,
                self@.enemies == w0.enemies,
                self@.blocks == w0.blocks,
                self@.spawning_objects == w0.spawning_objects,
                self@.game_state == w0.game_state,
                bounds == enemy_bounds(w0),
            decreases n - k,
        {
            let ghost w_pre = self@;
            let g_object: Object = self.powerups[k].object;
            let surrounding = World::get_surrounding_objects(
                &self.objects, snap_e, snap_p, snap_b, &g_object, 1);
            let old_ty: usize = tile_to_grid(tile_index(g_object.pos.y));
            let old_tx: usize = tile_to_grid(tile_index(g_object.pos.x));
            let e = &mut self.powerups[k];
            let mut evs = e.update(&surrounding, bounds);
            proof {
                let g = w_pre.powerups[k as int];
                let v0 = Vec2i { x: (WALK_SPEED * fsign_int(g.velocity.x as int)) as i64, y: g.velocity.y };
                lemma_physics_wf(g.object, v0, surrounding@, bounds);
            }
            events.append(&mut evs);
            let new_object: Object = self.powerups[k].object;
            let new_ty: usize = tile_to_grid(tile_index(new_object.pos.y));
            let new_tx: usize = tile_to_grid(tile_index(new_object.pos.x));
            if old_ty == new_ty && old_tx == new_tx {
            } else if old_ty >= self.objects.len() || old_tx >= self.objects[old_ty].len() {
            } else {
                grid_cell_set(&mut self.objects, old_ty, old_tx, ObjectReference::Empty);
                if new_ty >= self.objects.len() || new_tx >= self.objects[new_ty].len() {
                } else {
                    grid_cell_set(&mut self.objects, new_ty, new_tx, ObjectReference::Powerup(k));
                }
            }
            proof {
                assert(self@ =~~= powerup_phase(w0, snap_e@, snap_p@, snap_b@, k + 1).0);
                assert(events@ =~= powerup_phase(w0, snap_e@, snap_p@, snap_b@, k + 1).1);
            }
            k = k + 1;
        }
        events
    }

    /// Applies the tick's events in order; a `GameOver` or `GameWon` is
    /// applied and stops the tick at once; see [`apply_events_from`].
    fn apply_events(&mut self, events: &Vec<GameEvent>) -> (stopped: bool)
        requires
            world_wf(old(self)@),
            forall|k: int| 0 <= k < events@.len() ==> event_objects_wf(#[trigger] events@[k]),
        ensures
            final(self)@ == apply_events_from(old(self)@, events@, 0).0,
            stopped == apply_events_from(old(self)@, events@, 0).1,
            world_wf(final(self)@),
    {
        let n: usize = events.len();
        let mut i: usize = 0;
        while i < n
            invariant
                i <= n,
                n == events@.len(),
                world_wf(self@),
                forall|k: int| 0 <= k < events@.len() ==> event_objects_wf(#[trigger] events@[k]),
                apply_events_from(old(self)@, events@, 0).0 == apply_events_from(self@, events@, i as int).0,
                apply_events_from(old(self)@, events@, 0).1 == apply_events_from(self@, events@, i as int).1,
            decreases n - i,
        {
            let ev: GameEvent = events[i];
            self.handle_game_event(ev);
            match ev.event {
                GameEventType::GameOver => {
                    return true;
                },
                GameEventType::GameWon => {
                    return true;
                },
                _ => {},
            }
            i = i + 1;
        }
        false
    }

    /// One whole physics tick; returns the events the tick produced, in the
    /// order they were consumed; see [`update_spec`].
    #[verifier::rlimit(100)]
    pub fn update(&mut self) -> (events: Vec<GameEvent>)
        requires
            world_wf(old(self)@),
        ensures
            final(self)@ == update_spec(old(self)@).0,
            events@ == update_spec(old(self)@).1,
            world_wf(final(self)@),
    {
        self.update_spawning_objects();
        let snap_e = goomba_objects_vec(&self.enemies);
        let snap_p = powerup_objects_vec(&self.powerups);
        let snap_b = block_objects_vec(&self.blocks);
        proof {
            assert forall|i: int| 0 <= i < snap_e@.len() implies obj_wf(#[trigger] snap_e@[i]) by {
                assert(goomba_wf(self@.enemies[i]));
            }
            assert forall|i: int| 0 <= i < snap_p@.len() implies obj_wf(#[trigger] snap_p@[i]) by {
                assert(powerup_wf(self@.powerups[i]));
            }
            assert forall|i: int| 0 <= i < snap_b@.len() implies obj_wf(#[trigger] snap_b@[i]) by {
                assert(block_wf(self@.blocks[i]));
            }
        }
        let mut events = self.run_enemy_phase(&snap_e, &snap_p, &snap_b);
        self.run_blocks_tick();
        let mut pevs = self.run_powerup_phase(&snap_e, &snap_p, &snap_b);
        events.append(&mut pevs);
        let p_object: Object = self.player.object;
        let pt_y: usize = tile_to_grid(tile_index(p_object.pos.y));
        let pt_x: usize = tile_to_grid(tile_index(p_object.pos.x));
        let ghost w2 = self@;
        if pt_y < self.objects.len() && pt_x < self.objects[pt_y].len() {
            grid_cell_set(&mut self.objects, pt_y, pt_x, ObjectReference::Empty);
            proof {
                assert forall|a: int| 0 <= a < self@.grid.len()
                    implies (#[trigger] self@.grid[a]).len()
                        == self@.width / MARIO_SPRITE_BLOCK_SIZE by {
                    if a != pt_y as int {
                        assert(self@.grid[a] == w2.grid[a]);
                    } else {
                        assert(self@.grid[a] == w2.grid[a].update(pt_x as int, ObjectReference::Empty));
                    }
                }
                assert(self@.enemies == w2.enemies);
                assert(self@.powerups == w2.powerups);
                assert(self@.blocks == w2.blocks);
                assert(self@.spawning_objects == w2.spawning_objects);
                assert(self@.player == w2.player);
                assert(world_wf(self@));
            }
        }
        let radius: usize = match self.player.power_state {
            PlayerState::Big => 2,
            _ => 1,
        };
        proof {
            assert(grid_view(self.objects) == self@.grid);
            assert(self.objects@.len() == self@.grid.len());
            assert(self.objects@[0]@ == self@.grid[0]);
            assert(self@.grid[0].len() == self@.width / MARIO_SPRITE_BLOCK_SIZE);
        }
        let surrounding = World::get_surrounding_objects(
            &self.objects, &snap_e, &snap_p, &snap_b, &p_object, radius);
        let bounds = WorldBounds {
            min_x: self.camera.x as i64 * SUBPIXEL,
            max_x: self.width as i64 * SUBPIXEL,
            max_y: self.height as i64 * SUBPIXEL,
        };
        let ghost player_pre = self@.player;
        let mut plevs = self.player.update(&surrounding, bounds);
        proof {
            lemma_physics_wf(player_pre.object, player_pre.velocity, surrounding@, bounds);
        }
        events.append(&mut plevs);
        proof {
            assert(events@ =~= update_spec(old(self)@).1);
        }
        let stopped = self.apply_events(&events);
        if stopped {
            assert(final(self)@ =~= update_spec(old(self)@).0);
            return events;
        }
        let nt_y: usize = tile_to_grid(tile_index(self.player.object.pos.y));
        let nt_x: usize = tile_to_grid(tile_index(self.player.object.pos.x));
        if nt_y >= self.objects.len() || nt_x >= self.objects[nt_y].len() {
            assert(final(self)@ =~= update_spec(old(self)@).0);
            return events;
        }
        grid_cell_set(&mut self.objects, nt_y, nt_x, ObjectReference::Player);
        let px: usize = sub_to_px(self.player.object.pos.x);
        let py: usize = sub_to_px(self.player.object.pos.y);
        self.camera.update(px, py);
        assert(final(self)@ =~= update_spec(old(self)@).0);
        events
    }

    /// One tick of the frozen countdown: the remaining ticks decrease by
    /// one, and at zero the state machine reverts to `Playing`.
    pub fn tick_frozen(&mut self)
        requires
            old(self)@.game_state is Frozen,
        ensures
            final(self)@ == (WorldV {
                game_state: match old(self)@.game_state {
                    GameState::Frozen(t) => if t <= 1 {
                        GameState::Playing
                    } else {
                        GameState::Frozen((t - 1) as u32)
                    },
                    _ => old(self)@.game_state,
                },
                ..old(self)@
            }),
    {
        match self.game_state {
            GameState::Frozen(t) => {
                self.game_state = if t <= 1 {
                    GameState::Playing
                } else {
                    GameState::Frozen(t - 1)
                };
            },
            _ => {},
        }
        assert(final(self)@ =~~= (WorldV { game_state: final(self).game_state, ..old(self)@ }));
    }
}

} // verus!
