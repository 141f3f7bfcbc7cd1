//! Collision, grounding, border and integer-geometry behavior of one entity.

use rustario::collision::{
    get_collision_response, handler_for, resolve_collision, CollisionType, HandlerKind,
};
use rustario::entity::{BlockType, EnemyType, Object, ObjectType, SurroundingObject};
use rustario::geom::{clamped_add, fsign, sgn, sub_to_px, tile_index, tile_to_grid, Vec2i};
use rustario::lifecycle::{
    apply_x_axis_friction, create_game_event, find_support_below, handle_world_border,
    update_physics, GameEventType, WorldBounds,
};

fn bounds() -> WorldBounds {
    WorldBounds {
        min_x: 0,
        max_x: 3392 * 120,
        max_y: 224 * 120,
    }
}

fn block_at(x: usize, y: usize) -> Object {
    Object::new(x, y, ObjectType::Block(BlockType::Block))
}

#[test]
fn tile_index_rounds_to_nearest_half_away_from_zero() {
    assert_eq!(tile_index(0), 0);
    assert_eq!(tile_index(959), 0);
    assert_eq!(tile_index(960), 1); // half a tile rounds up
    assert_eq!(tile_index(1920), 1);
    assert_eq!(tile_index(-960), -1); // and away from zero below
    assert_eq!(tile_index(-959), 0);
    assert_eq!(tile_to_grid(-3), 0);
    assert_eq!(tile_to_grid(7), 7);
}

#[test]
fn sign_conventions() {
    assert_eq!(fsign(0), 1); // zero counts as positive
    assert_eq!(fsign(-5), -1);
    assert_eq!(sgn(0), 0);
    assert_eq!(sgn(9), 1);
    assert_eq!(sgn(-9), -1);
}

#[test]
fn clamped_add_saturates() {
    assert_eq!(clamped_add(5, 7, 100), 12);
    assert_eq!(clamped_add(95, 10, 100), 100);
    assert_eq!(clamped_add(-95, -10, 100), -100);
    assert_eq!(sub_to_px(-5), 0);
    assert_eq!(sub_to_px(241), 2);
}

#[test]
fn collision_detection_is_commutative() {
    // P2: A vs B collided exactly when B vs A collided.
    let a = Object::new(48, 176, ObjectType::Player);
    let b = block_at(49, 177); // overlapping by most of a tile
    let va = Vec2i::new(0, 0);
    let ra = get_collision_response(&a, &va, &SurroundingObject::new(b, (1, 1)));
    let rb = get_collision_response(&b, &va, &SurroundingObject::new(a, (-1, -1)));
    assert!(ra.collided);
    assert!(rb.collided);

    let c = block_at(80, 176); // two tiles away: no contact either way
    let rac = get_collision_response(&a, &va, &SurroundingObject::new(c, (0, 1)));
    let rca = get_collision_response(&c, &va, &SurroundingObject::new(a, (0, -1)));
    assert!(!rac.collided);
    assert!(!rca.collided);
}

#[test]
fn resolver_leaves_velocity_when_moving_away() {
    // Moving away from the neighbor on the push axis keeps the speed.
    let a = Object::new(49, 176, ObjectType::Player);
    let b = block_at(48, 176);
    let v = Vec2i::new(240, 0); // moving right, neighbor on the left
    let r = get_collision_response(&a, &v, &SurroundingObject::new(b, (0, -1)));
    assert!(r.collided);
    assert_eq!(r.new_velocity.x, 240);
    assert!(r.new_pos.x > a.pos.x); // pushed right, away from the block
}

#[test]
fn handler_table_matches_kind_pairs() {
    let player = ObjectType::Player;
    let goomba = ObjectType::Enemy(EnemyType::Goomba);
    let block = ObjectType::Block(BlockType::Block);
    let powerup = ObjectType::Powerup;
    assert_eq!(handler_for(player, block), HandlerKind::Block);
    assert_eq!(handler_for(player, goomba), HandlerKind::PlayerEnemy);
    assert_eq!(handler_for(player, powerup), HandlerKind::Powerup);
    assert_eq!(handler_for(goomba, block), HandlerKind::EnemyBlock);
    assert_eq!(handler_for(goomba, goomba), HandlerKind::Enemy);
    assert_eq!(handler_for(goomba, player), HandlerKind::DoNothing);
    assert_eq!(handler_for(powerup, block), HandlerKind::EnemyBlock);
    assert_eq!(handler_for(powerup, goomba), HandlerKind::Enemy);
}

#[test]
fn powerup_collection_leaves_player_untouched() {
    let player = Object::new(48, 176, ObjectType::Player);
    let shroom = Object::new(49, 176, ObjectType::Powerup);
    let v = Vec2i::new(120, 0);
    let r = resolve_collision(
        HandlerKind::Powerup,
        &player,
        &v,
        &SurroundingObject::new(shroom, (0, 1)),
    );
    assert!(r.collided);
    assert_eq!(r.collision_type, Some(CollisionType::PlayerWithPowerup));
    assert_eq!(r.new_pos, player.pos);
    assert_eq!(r.new_velocity, v);
}

#[test]
fn enemy_turns_at_wall_on_same_row() {
    let goomba = Object::new(49, 176, ObjectType::Enemy(EnemyType::Goomba));
    let wall = block_at(64, 176);
    let v = Vec2i::new(120, 0);
    let r = resolve_collision(
        HandlerKind::EnemyBlock,
        &goomba,
        &v,
        &SurroundingObject::new(wall, (0, 1)),
    );
    assert_eq!(r.new_velocity.x, -120);
    assert_eq!(r.collision_type, Some(CollisionType::EnemyWithBlock));
}

#[test]
fn event_mapping_swaps_roles_on_player_hit() {
    let player = Object::new(48, 176, ObjectType::Player);
    let goomba = Object::new(49, 176, ObjectType::Enemy(EnemyType::Goomba));
    let hit = create_game_event(CollisionType::PlayerHitBy, &player, &goomba).unwrap();
    assert_eq!(hit.event, GameEventType::PlayerHit);
    assert!(hit.triggered_by.matches(&goomba));
    assert!(hit.target.unwrap().matches(&player));
    // An enemy turned by a block is purely physical: no event.
    assert!(create_game_event(CollisionType::EnemyWithBlock, &goomba, &player).is_none());
}

#[test]
fn grounding_check_blocks_gravity() {
    // P1: with a block directly below, the tick adds no gravity.
    let mut player = Object::new(48, 160, ObjectType::Player);
    let mut v = Vec2i::new(0, 0);
    let below = SurroundingObject::new(block_at(48, 176), (1, 0));
    let neighbors = vec![below];
    assert!(find_support_below(&player, &neighbors));
    let (events, grounded) = update_physics(&mut player, &mut v, &neighbors, &bounds());
    assert!(grounded);
    assert_eq!(v.y, 0);
    assert!(events.is_empty());
}

#[test]
fn airborne_entity_gains_gravity() {
    let mut player = Object::new(48, 160, ObjectType::Player);
    let mut v = Vec2i::new(0, 0);
    let neighbors: Vec<SurroundingObject> = Vec::new();
    let (_, grounded) = update_physics(&mut player, &mut v, &neighbors, &bounds());
    assert!(!grounded);
    assert_eq!(v.y, 32); // one tick of gravity, in subpixels
    assert_eq!(player.pos.y, 160 * 120 + 32);
}

#[test]
fn friction_stops_at_zero() {
    let mut v = Vec2i::new(3, 0);
    apply_x_axis_friction(&mut v, true); // ground friction of 4 swallows a speed of 3
    assert_eq!(v.x, 0);
    let mut w = Vec2i::new(-10, 5);
    apply_x_axis_friction(&mut w, false); // air friction of 2
    assert_eq!(w.x, -8);
    assert_eq!(w.y, 5);
}

#[test]
fn player_rests_on_block_without_sinking() {
    // P5, scenario A: at rest on a block one tile below, the player's
    // vertical velocity stays 0 and it does not sink through the block.
    let mut player = Object::new(48, 160, ObjectType::Player);
    let mut v = Vec2i::new(0, 0);
    let neighbors = vec![SurroundingObject::new(block_at(48, 176), (1, 0))];
    update_physics(&mut player, &mut v, &neighbors, &bounds());
    assert_eq!(v.y, 0);
    assert_eq!(player.pos.y, 160 * 120);
}

#[test]
fn head_on_block_stops_and_pushes_back() {
    // P6, scenario B: moving right at 2 pixels per tick into a block one
    // tile to the right zeroes the horizontal speed and pushes the player
    // left by the overlap.
    let mut player = Object::new(48, 176, ObjectType::Player);
    let mut v = Vec2i::new(240, 0);
    let neighbors = vec![SurroundingObject::new(block_at(64, 176), (0, 1))];
    let (events, _) = update_physics(&mut player, &mut v, &neighbors, &bounds());
    assert_eq!(v.x, 0);
    assert_eq!(player.pos.x, 48 * 120); // pushed back exactly by the overlap
    assert_eq!(events.len(), 1);
    assert_eq!(events[0].event, GameEventType::PlayerHitBlock);
}

#[test]
fn stomp_kills_enemy_and_bounces_player() {
    // P7, scenario C: the player's bottom edge above the enemy's, with
    // overlap, kills the enemy and bounces the player upward at the fixed
    // speed of 3 pixels per tick.
    let mut player = Object::new(48, 168, ObjectType::Player);
    let mut v = Vec2i::new(0, 0);
    let goomba = Object::new(48, 176, ObjectType::Enemy(EnemyType::Goomba));
    let neighbors = vec![SurroundingObject::new(goomba, (1, 0))];
    let (events, _) = update_physics(&mut player, &mut v, &neighbors, &bounds());
    assert_eq!(v.y, -360);
    assert_eq!(events.len(), 1);
    assert_eq!(events[0].event, GameEventType::Kill);
    assert!(events[0].target.unwrap().matches(&goomba));
}

#[test]
fn player_border_events() {
    // Past the right bound the player wins; past the bottom it loses.
    let mut winner = Object::new(3392, 176, ObjectType::Player);
    let mut v = Vec2i::new(0, 0);
    let ev = handle_world_border(&mut winner, &mut v, &bounds()).unwrap();
    assert_eq!(ev.event, GameEventType::GameWon);

    let mut faller = Object::new(48, 230, ObjectType::Player);
    let mut v2 = Vec2i::new(0, 0);
    let ev2 = handle_world_border(&mut faller, &mut v2, &bounds()).unwrap();
    assert_eq!(ev2.event, GameEventType::GameOver);

    // The left bound clamps and stops.
    let mut clamped = Object::new(0, 176, ObjectType::Player);
    clamped.pos.x = -100;
    let mut v3 = Vec2i::new(-50, 0);
    let b = WorldBounds {
        min_x: 120,
        ..bounds()
    };
    assert!(handle_world_border(&mut clamped, &mut v3, &b).is_none());
    assert_eq!(clamped.pos.x, 120);
    assert_eq!(v3.x, 0);
}

#[test]
fn enemy_border_clamps_and_falls_to_kill() {
    let mut goomba = Object::new(3390, 176, ObjectType::Enemy(EnemyType::Goomba));
    let mut v = Vec2i::new(120, 0);
    assert!(handle_world_border(&mut goomba, &mut v, &bounds()).is_none());
    assert_eq!(goomba.pos.x, 3392 * 120 - 16 * 120); // stopped at the edge
    assert_eq!(v.x, 0);

    let mut faller = Object::new(100, 230, ObjectType::Enemy(EnemyType::Goomba));
    let mut v2 = Vec2i::new(120, 0);
    let ev = handle_world_border(&mut faller, &mut v2, &bounds()).unwrap();
    assert_eq!(ev.event, GameEventType::Kill);
    assert!(ev.target.is_none());
}
