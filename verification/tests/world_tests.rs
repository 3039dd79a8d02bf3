use arena_combat::animation::FrameRange;
use arena_combat::collision::{ContactStarted, GameScore};
use arena_combat::direction::Orientation;
use arena_combat::lifecycle::{EnemyState, GameState};
use arena_combat::player::{
    execute_player_behavior, player_move_sign, setup_player, MoveKeys, PLAYER_START_HEALTH,
};
use arena_combat::spawner::{setup_enemies, spawn_enemies, DAMAGE_SLIME};
use arena_combat::timing::TickTimer;
use arena_combat::world::{
    execute_bullets_lifetime, execute_bullets_move, execute_enemy_behavior, play_animations,
    setup_arena, start_enemy_dying, Bullet, Enemy, Position, Steering, Velocity, World, PLAYER_ID,
};

const NO_KEYS: MoveKeys = MoveKeys { left: false, up: false, right: false, down: false };

fn make_enemy(id: u64, x: i64, y: i64) -> Enemy {
    let (_, config) = setup_enemies();
    Enemy {
        id,
        pos: Position { x, y },
        z_depth: 0,
        steering: Steering { dx: 0, dy: 0 },
        state: EnemyState::Alive,
        anim: arena_combat::animation::AnimationConfig {
            idle: config.idle_frames,
            walk: config.walk_frames,
            dying: config.dying_frames,
            current_frame_range: config.walk_frames.bottom,
            fps: 10,
            elapsed_frame_timer: arena_combat::animation::AnimationConfig::timer_from_fps(10),
        },
        frame_index: 0,
        collidable: true,
        dmg: DAMAGE_SLIME,
    }
}

#[test]
fn spawner_three_seconds_spawns_three_enemies_at_listed_locations() {
    let (mut spawner, config) = setup_enemies();
    let locations = spawner.locations.clone();
    assert_eq!(locations.len(), 5);
    let mut spawned = Vec::new();
    for _ in 0..30 {
        if let Some(e) = spawn_enemies(&mut spawner, &config, 100, 100_000) {
            spawned.push(e);
        }
    }
    assert_eq!(spawned.len(), 3);
    for e in &spawned {
        assert!(locations.contains(&e.pos));
        assert!(matches!(e.state, EnemyState::Alive));
        assert_eq!(e.anim.current_frame_range, config.walk_frames.bottom);
        assert_eq!(e.frame_index, config.walk_frames.bottom.start);
    }
}

#[test]
fn spawner_rearms_without_drift() {
    let (mut spawner, config) = setup_enemies();
    // 0.999999 s: no spawn; the next microsecond completes the period.
    assert!(spawn_enemies(&mut spawner, &config, 1, 999_999).is_none());
    assert!(spawn_enemies(&mut spawner, &config, 1, 1).is_some());
    assert_eq!(spawner.timer.elapsed_micros, 0);
}

#[test]
fn move_sign_follows_key_priority() {
    let k = |left, up, right, down| MoveKeys { left, up, right, down };
    assert_eq!(player_move_sign(k(true, false, false, true)), (-1, -1));
    assert_eq!(player_move_sign(k(true, true, false, false)), (-1, 1));
    assert_eq!(player_move_sign(k(false, false, true, true)), (1, -1));
    assert_eq!(player_move_sign(k(false, true, true, false)), (1, 1));
    assert_eq!(player_move_sign(k(true, false, false, false)), (-1, 0));
    assert_eq!(player_move_sign(k(false, true, false, false)), (0, 1));
    assert_eq!(player_move_sign(k(false, false, true, false)), (1, 0));
    assert_eq!(player_move_sign(k(false, false, false, true)), (0, -1));
    assert_eq!(player_move_sign(k(false, false, false, false)), (0, 0));
}

#[test]
fn player_selects_walk_clip_when_moving_and_idle_when_still() {
    let (_, mut anim) = setup_player();
    let aim_right = Some(Orientation { x: 1000, y: 0 });
    let keys = MoveKeys { left: false, up: true, right: false, down: false };
    execute_player_behavior(&mut anim, keys, aim_right, false, Position { x: 0, y: 0 }, 50);
    assert_eq!(anim.current_frame_range, FrameRange { start: 32, end: 39 });
    execute_player_behavior(&mut anim, NO_KEYS, aim_right, false, Position { x: 0, y: 0 }, 50);
    assert_eq!(anim.current_frame_range, FrameRange { start: 3, end: 3 });
}

#[test]
fn firing_creates_one_bullet_along_the_aim() {
    let (_, mut anim) = setup_player();
    let aim = Some(Orientation { x: 0, y: -1000 });
    let act =
        execute_player_behavior(&mut anim, NO_KEYS, aim, true, Position { x: 7_000, y: 8_000 }, 42);
    let b = act.fired_bullet.expect("a bullet must be fired");
    assert_eq!(b.id, 42);
    assert_eq!(b.pos, Position { x: 7_000, y: 8_000 });
    assert_eq!(b.vel, Velocity { x: 0, y: -200_000 });
    assert_eq!(b.elapsed.period_micros, 1_000_000);
}

#[test]
fn no_aim_means_no_facing_change_and_no_shot() {
    let (_, mut anim) = setup_player();
    let before = anim.current_frame_range;
    let act = execute_player_behavior(&mut anim, NO_KEYS, None, true, Position { x: 0, y: 0 }, 1);
    assert!(act.fired_bullet.is_none());
    assert_eq!(anim.current_frame_range, before);
}

#[test]
fn alive_enemy_steers_toward_the_player() {
    let mut enemies = vec![make_enemy(21, 10_000, 2_000)];
    execute_enemy_behavior(&mut enemies, Position { x: 4_000, y: 5_000 }, 16_000);
    assert_eq!(enemies[0].steering, Steering { dx: -6_000, dy: 3_000 });
    assert_eq!(enemies[0].z_depth, -20_000);
}

#[test]
fn hit_enemy_starts_dying_and_sheds_its_collider() {
    let mut enemies = vec![make_enemy(21, 0, 0)];
    start_enemy_dying(&mut enemies, &vec![arena_combat::collision::EnemyReceiveHitEvent(21)]);
    // 10 fps, four dying frames: 0.4 s of dying animation.
    assert_eq!(enemies[0].state, EnemyState::Dying { remaining_micros: 400_000 });
    assert_eq!(enemies[0].anim.current_frame_range, FrameRange { start: 35, end: 39 });
    assert!(!enemies[0].collidable);
    assert_eq!(enemies[0].steering, Steering { dx: 0, dy: 0 });
}

#[test]
fn second_hit_keeps_the_original_remaining_time() {
    let mut enemies = vec![make_enemy(21, 0, 0)];
    let hit = vec![arena_combat::collision::EnemyReceiveHitEvent(21)];
    start_enemy_dying(&mut enemies, &hit);
    execute_enemy_behavior(&mut enemies, Position { x: 0, y: 0 }, 100_000);
    assert_eq!(enemies[0].state, EnemyState::Dying { remaining_micros: 300_000 });
    // Another hit on the already-dying enemy changes nothing.
    start_enemy_dying(&mut enemies, &hit);
    assert_eq!(enemies[0].state, EnemyState::Dying { remaining_micros: 300_000 });
}

#[test]
fn dying_enemy_is_removed_exactly_when_its_timer_expires() {
    let mut enemies = vec![make_enemy(21, 0, 0)];
    start_enemy_dying(&mut enemies, &vec![arena_combat::collision::EnemyReceiveHitEvent(21)]);
    execute_enemy_behavior(&mut enemies, Position { x: 0, y: 0 }, 399_999);
    assert_eq!(enemies.len(), 1);
    execute_enemy_behavior(&mut enemies, Position { x: 0, y: 0 }, 1);
    assert_eq!(enemies.len(), 0);
    // Removal of an already-removed enemy is a no-op.
    execute_enemy_behavior(&mut enemies, Position { x: 0, y: 0 }, 1);
    assert_eq!(enemies.len(), 0);
}

#[test]
fn duplicate_hits_in_one_tick_transition_once() {
    let mut enemies = vec![make_enemy(21, 0, 0)];
    let hits = vec![
        arena_combat::collision::EnemyReceiveHitEvent(21),
        arena_combat::collision::EnemyReceiveHitEvent(21),
    ];
    start_enemy_dying(&mut enemies, &hits);
    assert_eq!(enemies[0].state, EnemyState::Dying { remaining_micros: 400_000 });
}

#[test]
fn stale_hit_event_is_ignored() {
    let mut enemies = vec![make_enemy(21, 0, 0)];
    start_enemy_dying(&mut enemies, &vec![arena_combat::collision::EnemyReceiveHitEvent(77)]);
    assert_eq!(enemies[0].state, EnemyState::Alive);
}

#[test]
fn bullet_expires_after_its_lifetime() {
    let bullet = Bullet {
        id: 31,
        pos: Position { x: 0, y: 0 },
        vel: Velocity { x: 0, y: 0 },
        elapsed: TickTimer::new(1_000_000),
    };
    let mut bullets = vec![bullet];
    execute_bullets_lifetime(&mut bullets, 999_999);
    assert_eq!(bullets.len(), 1);
    execute_bullets_lifetime(&mut bullets, 1);
    assert_eq!(bullets.len(), 0);
}

#[test]
fn moving_bullet_hits_the_first_alive_enemy_in_its_box() {
    // The bullet starts 20 units left of the enemy and flies right at
    // 200 units per second; after 0.05 s it is 10 units away, inside
    // the 12-unit hit box.
    let mut bullets = vec![Bullet {
        id: 31,
        pos: Position { x: -20_000, y: 0 },
        vel: Velocity { x: 200_000, y: 0 },
        elapsed: TickTimer::new(1_000_000),
    }];
    let mut enemies = vec![make_enemy(21, 0, 0)];
    execute_bullets_move(&mut bullets, &mut enemies, 50_000);
    assert_eq!(bullets.len(), 0);
    assert!(matches!(enemies[0].state, EnemyState::Dying { .. }));
}

#[test]
fn bullet_out_of_reach_just_moves() {
    let mut bullets = vec![Bullet {
        id: 31,
        pos: Position { x: -100_000, y: 0 },
        vel: Velocity { x: 200_000, y: 0 },
        elapsed: TickTimer::new(1_000_000),
    }];
    let mut enemies = vec![make_enemy(21, 0, 0)];
    execute_bullets_move(&mut bullets, &mut enemies, 50_000);
    assert_eq!(bullets.len(), 1);
    assert_eq!(bullets[0].pos, Position { x: -90_000, y: 0 });
    assert_eq!(enemies[0].state, EnemyState::Alive);
}

#[test]
fn dying_enemy_does_not_stop_bullets() {
    let mut bullets = vec![Bullet {
        id: 31,
        pos: Position { x: 0, y: 0 },
        vel: Velocity { x: 0, y: 0 },
        elapsed: TickTimer::new(1_000_000),
    }];
    let mut enemies = vec![make_enemy(21, 0, 0)];
    start_enemy_dying(&mut enemies, &vec![arena_combat::collision::EnemyReceiveHitEvent(21)]);
    execute_bullets_move(&mut bullets, &mut enemies, 10_000);
    assert_eq!(bullets.len(), 1);
}

#[test]
fn animations_advance_all_enemies() {
    let mut enemies = vec![make_enemy(21, 0, 0), make_enemy(22, 0, 0)];
    enemies[1].frame_index = 3;
    play_animations(&mut enemies, 100_000);
    assert_eq!(enemies[0].frame_index, 1);
    assert_eq!(enemies[1].frame_index, 4);
}

#[test]
fn arena_has_four_environment_walls() {
    let walls = setup_arena();
    assert_eq!(walls.len(), 4);
    assert_eq!(walls[0].center, Position { x: 0, y: 330_000 });
    assert_eq!(walls[1].center, Position { x: 0, y: -390_000 });
    assert_eq!(walls[2].center, Position { x: -380_000, y: 0 });
    assert_eq!(walls[3].center, Position { x: 380_000, y: 0 });
}

#[test]
fn fresh_world_matches_the_setup() {
    let w = World::new();
    assert_eq!(w.state, GameState::InGame);
    assert_eq!(w.player.health, PLAYER_START_HEALTH);
    assert_eq!(w.player_pos, Position { x: -100_000, y: 0 });
    assert_eq!(w.score.0, 0);
    assert!(w.enemies.is_empty());
    assert!(w.bullets.is_empty());
    assert_eq!(w.walls.len(), 4);
    assert_eq!(w.spawner.locations.len(), 5);
}

#[test]
fn end_to_end_enemy_contact_drains_health_and_ends_the_game() {
    let mut w = World::new();
    // Let one enemy spawn, then report enemy-player contacts until the
    // player's health runs out.
    let mut signaled_ticks = 0;
    let mut first_signal_health = None;
    w.tick(&Vec::new(), NO_KEYS, None, false, 1_000_000);
    assert_eq!(w.enemies.len(), 1);
    let enemy_id = w.enemies[0].id;
    for _ in 0..12 {
        // Keep the enemy alive so it can keep hurting the player.
        w.enemies[0].state = EnemyState::Alive;
        w.enemies[0].collidable = true;
        let contacts = vec![ContactStarted { first: enemy_id, second: PLAYER_ID }];
        if w.tick(&contacts, NO_KEYS, None, false, 1_000) {
            signaled_ticks += 1;
            first_signal_health = Some(w.player.health);
        }
    }
    assert_eq!(w.player.health, 0);
    assert_eq!(signaled_ticks, 1);
    assert_eq!(first_signal_health, Some(0));
    assert_eq!(w.state, GameState::End);
}

#[test]
fn end_to_end_shot_enemy_scores_once() {
    let mut w = World::new();
    w.tick(&Vec::new(), NO_KEYS, None, false, 1_000_000);
    assert_eq!(w.enemies.len(), 1);
    let enemy_id = w.enemies[0].id;
    // Fire a bullet, then report its contact with the enemy.
    let aim = Some(Orientation { x: 1000, y: 0 });
    w.tick(&Vec::new(), NO_KEYS, aim, true, 1_000);
    assert_eq!(w.bullets.len(), 1);
    let bullet_id = w.bullets[0].id;
    let contacts = vec![ContactStarted { first: bullet_id, second: enemy_id }];
    w.tick(&contacts, NO_KEYS, None, false, 1_000);
    assert_eq!(w.score.0, 1);
    assert!(w.bullets.is_empty());
    assert!(matches!(w.enemies[0].state, EnemyState::Dying { .. }));
    // Reporting the same contact again changes nothing: the bullet is
    // gone and the dying enemy has shed its collider.
    w.tick(&contacts, NO_KEYS, None, false, 1_000);
    assert_eq!(w.score.0, 1);
}

#[test]
fn world_tick_spawns_once_per_second() {
    let mut w = World::new();
    for _ in 0..30 {
        w.tick(&Vec::new(), NO_KEYS, None, false, 100_000);
    }
    assert_eq!(w.enemies.len(), 3);
    let locations = w.spawner.locations.clone();
    for e in &w.enemies {
        assert!(locations.contains(&e.pos));
    }
}
