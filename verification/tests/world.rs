//! The world orchestrator: level loading, the spatial index, event handling
//! and whole ticks.

use rustario::actors::{PlayerState, PowerUp, SpawningObject};
use rustario::config::{mario_world_size, FROZEN_TICKS, WORLD_HEIGHT, WORLD_WIDTH};
use rustario::entity::{BlockType, EnemyType, Object, ObjectType};
use rustario::level::{sprite_id_to_type, LevelData, Tile};
use rustario::lifecycle::{GameEvent, GameEventType};
use rustario::world::{Camera, GameState, ObjectReference, World};

fn standard_world() -> World {
    World::new(WORLD_HEIGHT, WORLD_WIDTH)
}

fn goomba_obj(x: usize, y: usize) -> Object {
    Object::new(x, y, ObjectType::Enemy(EnemyType::Goomba))
}

#[test]
fn world_dimensions_and_fresh_grid() {
    let d = mario_world_size();
    assert_eq!(d.width, 3392);
    assert_eq!(d.height, 224);
    let w = standard_world();
    assert_eq!(w.objects.len(), 14); // one row of cells per tile
    assert_eq!(w.objects[0].len(), 212);
    assert_eq!(w.objects[11][10], ObjectReference::Empty);
    assert_eq!(w.game_state, GameState::Playing);
    assert_eq!(w.player.object.pos.x, 48 * 120);
    assert_eq!(w.player.object.pos.y, 176 * 120);
    assert_eq!(w.player.power_state, PlayerState::Small);
}

#[test]
fn sprite_identifiers_map_to_block_kinds() {
    assert_eq!(
        sprite_id_to_type(9),
        Some(ObjectType::Block(BlockType::PowerupBlock))
    );
    assert_eq!(
        sprite_id_to_type(10),
        Some(ObjectType::Block(BlockType::Block))
    );
    assert_eq!(
        sprite_id_to_type(31),
        Some(ObjectType::Block(BlockType::Block))
    );
    assert_eq!(sprite_id_to_type(8), None);
    assert_eq!(sprite_id_to_type(18), None);
    let t = Tile { sprite_id: 9 };
    assert_eq!(t.sprite_id, 9);
}

#[test]
fn load_level_places_blocks_row_major() {
    let mut w = World::new(32, 64); // two rows of four tiles
    let level = LevelData {
        height: 32,
        tiles: vec![10, 0, 9, 0, 0, 25, 0, 0],
    };
    w.load_level(&level);
    assert_eq!(w.blocks.len(), 3);
    assert_eq!(
        w.blocks[0].object.object_type,
        ObjectType::Block(BlockType::Block)
    );
    assert_eq!(w.blocks[0].object.pos.x, 0);
    assert_eq!(
        w.blocks[1].object.object_type,
        ObjectType::Block(BlockType::PowerupBlock)
    );
    assert_eq!(w.blocks[1].object.pos.x, 32 * 120);
    assert_eq!(w.blocks[2].object.pos.y, 16 * 120); // second row
    assert_eq!(w.objects[0][0], ObjectReference::Block(0));
    assert_eq!(w.objects[0][2], ObjectReference::Block(1));
    assert_eq!(w.objects[1][1], ObjectReference::Block(2));
    assert_eq!(w.objects[0][1], ObjectReference::Empty);
}

#[test]
fn load_enemies_registers_six_goombas() {
    let mut w = standard_world();
    w.load_enemies();
    assert_eq!(w.enemies.len(), 6);
    assert_eq!(w.enemies[0].object.pos.x, 160 * 120);
    assert_eq!(w.objects[11][10], ObjectReference::Enemy(0));
    assert_eq!(w.objects[11][166], ObjectReference::Enemy(5));
}

#[test]
fn kill_removes_enemy_and_is_idempotent() {
    // P3: killing an already-removed entity (matched by value) is a no-op.
    let mut w = standard_world();
    w.add_object(goomba_obj(160, 176));
    assert_eq!(w.enemies.len(), 1);
    let victim = goomba_obj(160, 176);
    let kill = GameEvent {
        event: GameEventType::Kill,
        triggered_by: w.player.object,
        target: Some(victim),
    };
    w.handle_game_event(kill);
    assert_eq!(w.enemies.len(), 0);
    assert_eq!(w.objects[11][10], ObjectReference::Empty);
    // The same event again: nothing to remove, nothing changes, no failure.
    w.handle_game_event(kill);
    assert_eq!(w.enemies.len(), 0);
    assert_eq!(w.objects[11][10], ObjectReference::Empty);
    assert_eq!(w.game_state, GameState::Playing);
}

#[test]
fn player_hit_freezes_and_death_ends_the_game() {
    let mut w = standard_world();
    w.player.power_up();
    assert_eq!(w.player.power_state, PlayerState::Big);
    assert_eq!(w.player.object.height, 32);
    let hit = GameEvent {
        event: GameEventType::PlayerHit,
        triggered_by: goomba_obj(49, 176),
        target: Some(w.player.object),
    };
    w.handle_game_event(hit);
    assert_eq!(w.player.power_state, PlayerState::Small);
    assert_eq!(w.player.object.height, 16);
    assert_eq!(w.game_state, GameState::Frozen(FROZEN_TICKS));
    // A second hit kills the small player and ends the game.
    w.handle_game_event(hit);
    assert_eq!(w.player.power_state, PlayerState::Dead);
    assert_eq!(w.game_state, GameState::GameOver);
}

#[test]
fn player_hit_knocks_the_offender_back() {
    let mut w = standard_world();
    w.add_object(goomba_obj(160, 176));
    w.enemies[0].velocity.x = 120;
    let hit = GameEvent {
        event: GameEventType::PlayerHit,
        triggered_by: goomba_obj(160, 176),
        target: Some(w.player.object),
    };
    w.handle_game_event(hit); // player speed 0 counts as positive: flip
    assert_eq!(w.enemies[0].velocity.x, -120);
    assert_eq!(w.enemies[0].object.pos.x, 160 * 120 - 120);
}

#[test]
fn powerup_collection_promotes_and_removes() {
    let mut w = standard_world();
    w.add_object(Object::new(64, 176, ObjectType::Powerup));
    assert_eq!(w.powerups.len(), 1);
    assert_eq!(w.objects[11][4], ObjectReference::Powerup(0));
    let ev = GameEvent {
        event: GameEventType::PlayerPowerUp,
        triggered_by: w.player.object,
        target: Some(Object::new(64, 176, ObjectType::Powerup)),
    };
    w.handle_game_event(ev);
    assert_eq!(w.player.power_state, PlayerState::Big);
    assert_eq!(w.powerups.len(), 0);
    assert_eq!(w.objects[11][4], ObjectReference::Empty);
    assert!(w.player.animate.animation.is_some()); // growth overlay installed
}

#[test]
fn powerup_block_transforms_and_spawns_above() {
    // P8, scenario D: the block turns plain in place and a rising power-up
    // appears exactly one tile above the block's position.
    let mut w = standard_world();
    w.add_block(
        Object::new(64, 160, ObjectType::Block(BlockType::PowerupBlock)),
        9,
    );
    let bump = GameEvent {
        event: GameEventType::PlayerHitPowerupBlock,
        triggered_by: w.player.object,
        target: Some(Object::new(64, 160, ObjectType::Block(BlockType::PowerupBlock))),
    };
    w.handle_game_event(bump);
    assert_eq!(
        w.blocks[0].object.object_type,
        ObjectType::Block(BlockType::Block)
    );
    assert_eq!(w.objects[10][4], ObjectReference::Block(0)); // same grid slot
    assert_eq!(w.spawning_objects.len(), 1);
    assert_eq!(w.spawning_objects[0].object.object.pos.x, 64 * 120);
    assert_eq!(w.spawning_objects[0].object.object.pos.y, (160 - 16) * 120);
}

#[test]
fn plain_block_bump_plays_overlay_only_from_below() {
    let mut w = standard_world();
    w.add_block(Object::new(48, 160, ObjectType::Block(BlockType::Block)), 10);
    let target = Object::new(48, 160, ObjectType::Block(BlockType::Block));
    let bump = GameEvent {
        event: GameEventType::PlayerHitBlock,
        triggered_by: w.player.object,
        target: Some(target),
    };
    // Player at (48, 176): below the block and under its span.
    w.handle_game_event(bump);
    assert!(w.blocks[0].animate.animation.is_some());

    // A block below the player never bumps.
    w.add_block(Object::new(48, 192, ObjectType::Block(BlockType::Block)), 10);
    let low = Object::new(48, 192, ObjectType::Block(BlockType::Block));
    let no_bump = GameEvent {
        event: GameEventType::PlayerHitBlock,
        triggered_by: w.player.object,
        target: Some(low),
    };
    w.handle_game_event(no_bump);
    assert!(w.blocks[1].animate.animation.is_none());
}

#[test]
fn spawning_powerup_rises_then_goes_live() {
    let mut s = SpawningObject::new(PowerUp::new(64, 144));
    assert_eq!(s.draw_offset.y, 16 * 120);
    for _ in 0..31 {
        assert!(!s.update());
    }
    assert!(s.update()); // the 32nd half-pixel step completes one tile
    let mut w = standard_world();
    w.spawn_powerup(Object::new(64, 144, ObjectType::Powerup));
    w.spawning_objects[0].animation_progress = 16 * 120 - 60;
    w.update_spawning_objects();
    assert_eq!(w.spawning_objects.len(), 0);
    assert_eq!(w.powerups.len(), 1);
    assert_eq!(w.powerups[0].object.pos.y, 144 * 120);
    assert_eq!(w.objects[9][4], ObjectReference::Powerup(0));
}

#[test]
fn enemies_meeting_head_on_diverge() {
    // P9, scenario E: two enemies walking toward each other end the tick
    // moving away from each other.
    let mut w = standard_world();
    w.add_object(goomba_obj(160, 176));
    w.add_object(goomba_obj(176, 176));
    w.enemies[0].velocity.x = 120;
    w.enemies[1].velocity.x = -120;
    w.update();
    assert!(w.enemies[0].object.pos.x < w.enemies[1].object.pos.x);
    assert!(w.enemies[0].velocity.x < 0); // the left one now walks left
    assert!(w.enemies[1].velocity.x > 0); // the right one now walks right
}

#[test]
fn falling_out_of_the_world_ends_the_game()
{
    // P10, scenario F: a player below the world's height bound makes the
    // tick emit GameOver and stop.
    let mut w = standard_world();
    w.player.object.pos.y = 230 * 120;
    let events = w.update();
    assert_eq!(w.game_state, GameState::GameOver);
    assert!(events.iter().any(|e| e.event == GameEventType::GameOver));
}

#[test]
fn crossing_the_right_bound_wins() {
    let mut w = standard_world();
    w.player.object.pos.x = 3390 * 120;
    let events = w.update();
    assert_eq!(w.game_state, GameState::GameWon);
    assert!(events.iter().any(|e| e.event == GameEventType::GameWon));
}

#[test]
fn input_accelerates_clamps_and_jumps() {
    let mut w = standard_world();
    let sound = w.handle_input(false, true, false);
    assert!(!sound);
    assert_eq!(w.player.velocity.x, 6); // one tick of acceleration
    w.player.velocity.x = 334;
    w.handle_input(false, true, false);
    assert_eq!(w.player.velocity.x, 336); // clamped at the speed cap
    w.player.is_grounded = true;
    let jump_sound = w.handle_input(false, false, true);
    assert!(jump_sound);
    assert_eq!(w.player.velocity.y, -384); // take-off plus one boost
    assert!(!w.player.is_grounded);
    // Holding jump while falling does not slow the fall.
    w.player.velocity.y = 100;
    let again = w.handle_input(false, false, true);
    assert!(!again);
    assert_eq!(w.player.velocity.y, 100);
}

#[test]
fn frozen_state_counts_down_to_playing() {
    let mut w = standard_world();
    w.game_state = GameState::Frozen(2);
    w.tick_frozen();
    assert_eq!(w.game_state, GameState::Frozen(1));
    w.tick_frozen();
    assert_eq!(w.game_state, GameState::Playing);
}

#[test]
fn camera_follows_without_scrolling_back() {
    let mut c = Camera::new(600, 224);
    c.update(600, 176);
    assert_eq!(c.x, 450); // a quarter screen behind the player
    c.update(100, 176);
    assert_eq!(c.x, 450); // never scrolls back left
    c.update(4000, 176);
    assert_eq!(c.x, WORLD_WIDTH - 600); // clamped inside the world
    assert_eq!(c.y, 0);
}

#[test]
fn full_tick_on_solid_ground_keeps_the_player_resting() {
    let mut w = standard_world();
    // A floor row under the player's tile and its neighbors.
    for col in 0..6 {
        w.add_block(
            Object::new(col * 16, 192, ObjectType::Block(BlockType::Block)),
            10,
        );
    }
    let events = w.update();
    assert!(events.is_empty());
    assert_eq!(w.player.velocity.y, 0);
    assert_eq!(w.player.object.pos.y, 176 * 120);
    assert!(w.player.is_grounded);
    assert_eq!(w.game_state, GameState::Playing);
}
