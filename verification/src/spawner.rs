//! Timer-gated, randomized-location enemy creation.
//!
//! Each completed period of a repeating interval timer creates exactly
//! one enemy at one of a fixed list of candidate locations, chosen
//! uniformly at random (with replacement) from an external entropy
//! source.

use vstd::prelude::*;

use crate::animation::AnimationByDirection;
use crate::animation::AnimationConfig;
use crate::animation::FrameRange;
use crate::lifecycle::EnemyState;
use crate::timing::TickTimer;
use crate::world::Enemy;
use crate::world::Position;
use crate::world::Steering;

verus! {

/// Damage an enemy deals the player on contact.
pub const DAMAGE_SLIME: u32 = 10;

/// Base movement speed of an enemy, in world units per second; the
/// physics collaborator applies it to the steering the core computes.
pub const SPEED_SLIME: i64 = 50;

/// Microseconds between two spawn attempts.
pub const ENEMY_SPAWN_INTERVAL_MICROS: u64 = 1_000_000;

/// Frame rate shared by every spawned enemy's animations.
pub const ENEMY_FPS: u8 = 10;

/// The animation clips a freshly spawned enemy is given.
#[derive(Clone, Copy, Debug, PartialEq, Eq, Structural)]
pub struct EnemySpriteSpawnConfig {
    pub walk_frames: AnimationByDirection,
    pub idle_frames: AnimationByDirection,
    pub dying_frames: FrameRange,
}

impl EnemySpriteSpawnConfig {
    pub open spec fn wf(self) -> bool {
        &&& self.walk_frames.wf()
        &&& self.idle_frames.wf()
        &&& self.dying_frames.wf()
    }
}

/// The fixed candidate spawn locations and the repeating spawn timer.
#[derive(Debug)]
pub struct EnemySpawner {
    pub locations: Vec<Position>,
    pub timer: TickTimer,
}

impl EnemySpawner {
    pub open spec fn wf(self) -> bool {
        &&& self.locations@.len() > 0
        &&& forall|i: int| 0 <= i < self.locations@.len() ==> (#[trigger] self.locations@[i]).wf()
        &&& self.timer.wf()
    }
}

/// Relies on rand::random: draws a value from the thread-local
/// generator.  Nothing can be promised of the value; callers reduce it
/// to the range they need and are verified for every possible outcome.
pub assume_specification<T>[ rand::random::<T> ]() -> (r: T)
    where
        rand::distributions::Standard: rand::distributions::Distribution<T>,
;

/// The animation state a freshly spawned enemy starts with: walking and
/// facing down, timer freshly armed.
pub open spec fn spec_spawned_anim(config: EnemySpriteSpawnConfig) -> AnimationConfig {
    AnimationConfig {
        idle: config.idle_frames,
        walk: config.walk_frames,
        dying: config.dying_frames,
        current_frame_range: config.walk_frames.bottom,
        fps: ENEMY_FPS,
        elapsed_frame_timer: TickTimer {
            elapsed_micros: 0,
            period_micros: (1_000_000 as int / ENEMY_FPS as int) as u64,
        },
    }
}

/// Advances the spawn timer by one tick.  Exactly when it completes a
/// period — it re-arms immediately, so at most once per tick and
/// without drift beyond tick granularity — one enemy is created: alive,
/// collidable, standing still, walking-down animation from its first
/// frame, placed at one of the candidate locations.  Which location is
/// drawn from the external entropy source; every choice lies in the
/// list.
pub fn spawn_enemies(
    spawner: &mut EnemySpawner,
    config: &EnemySpriteSpawnConfig,
    next_id: u64,
    dt_micros: u64,
) -> (spawned: Option<Enemy>)
    requires
        old(spawner).wf(),
        config.wf(),
    ensures
        final(spawner).wf(),
        final(spawner).locations == old(spawner).locations,
        final(spawner).timer.period_micros == old(spawner).timer.period_micros,
        (spawned is Some) == old(spawner).timer.spec_fires(dt_micros),
        old(spawner).timer.spec_fires(dt_micros) ==> final(spawner).timer.elapsed_micros == 0,
        !old(spawner).timer.spec_fires(dt_micros) ==> final(spawner).timer.elapsed_micros == old(
            spawner,
        ).timer.elapsed_micros + dt_micros,
        spawned matches Some(e) ==> {
            &&& exists|i: int|
                0 <= i < old(spawner).locations@.len() && e.pos == old(spawner).locations@[i]
            &&& e.id == next_id
            &&& e.state is Alive
            &&& e.collidable
            &&& e.dmg == DAMAGE_SLIME
            &&& e.steering == (Steering { dx: 0, dy: 0 })
            &&& e.z_depth == 0
            &&& e.anim == spec_spawned_anim(*config)
            &&& e.frame_index == config.walk_frames.bottom.start
            &&& e.wf()
        },
{
    let fired = spawner.timer.tick(dt_micros);
    if fired {
        let draw: usize = rand::random::<usize>();
        let location_index = draw % spawner.locations.len();
        let pos = spawner.locations[location_index];
        let anim = AnimationConfig {
            idle: config.idle_frames,
            walk: config.walk_frames,
            dying: config.dying_frames,
            current_frame_range: config.walk_frames.bottom,
            fps: ENEMY_FPS,
            elapsed_frame_timer: AnimationConfig::timer_from_fps(ENEMY_FPS),
        };
        let enemy = Enemy {
            id: next_id,
            pos,
            z_depth: 0,
            steering: Steering { dx: 0, dy: 0 },
            state: EnemyState::Alive,
            anim,
            frame_index: config.walk_frames.bottom.start,
            collidable: true,
            dmg: DAMAGE_SLIME,
        };
        assert(enemy.pos == spawner.locations@[location_index as int]);
        Some(enemy)
    } else {
        None
    }
}

/// The five candidate spawn locations of the arena, in thousandths of a
/// world unit.
pub open spec fn spec_spawn_locations() -> Seq<Position> {
    seq![
        Position { x: 0, y: -15_000i64 },
        Position { x: -345_000i64, y: 295_000 },
        Position { x: 345_000, y: 295_000 },
        Position { x: -345_000i64, y: -360_000i64 },
        Position { x: 345_000, y: -360_000i64 },
    ]
}

/// The frame clips of the enemy sprite sheet: walking animations per
/// direction (idle reuses them) and a flat dying clip.
pub open spec fn spec_slime_config() -> EnemySpriteSpawnConfig {
    EnemySpriteSpawnConfig {
        walk_frames: AnimationByDirection {
            bottom: FrameRange { start: 0, end: 7 },
            bottom_left: FrameRange { start: 0, end: 7 },
            left: FrameRange { start: 16, end: 23 },
            top_left: FrameRange { start: 8, end: 15 },
            top: FrameRange { start: 8, end: 15 },
            top_right: FrameRange { start: 8, end: 15 },
            right: FrameRange { start: 24, end: 31 },
            bottom_right: FrameRange { start: 0, end: 7 },
        },
        idle_frames: AnimationByDirection {
            bottom: FrameRange { start: 0, end: 7 },
            bottom_left: FrameRange { start: 0, end: 7 },
            left: FrameRange { start: 16, end: 23 },
            top_left: FrameRange { start: 8, end: 15 },
            top: FrameRange { start: 8, end: 15 },
            top_right: FrameRange { start: 8, end: 15 },
            right: FrameRange { start: 24, end: 31 },
            bottom_right: FrameRange { start: 0, end: 7 },
        },
        dying_frames: FrameRange { start: 35, end: 39 },
    }
}

/// Sets up enemy spawning: the candidate location list, a repeating
/// one-second spawn timer, and the sprite clip configuration.
pub fn setup_enemies() -> (r: (EnemySpawner, EnemySpriteSpawnConfig))
    ensures
        r.0.wf(),
        r.0.locations@ == spec_spawn_locations(),
        r.0.timer.elapsed_micros == 0,
        r.0.timer.period_micros == ENEMY_SPAWN_INTERVAL_MICROS,
        r.1 == spec_slime_config(),
        r.1.wf(),
{
    let mut locations: Vec<Position> = Vec::new();
    locations.push(Position { x: 0, y: -15_000 });
    locations.push(Position { x: -345_000, y: 295_000 });
    locations.push(Position { x: 345_000, y: 295_000 });
    locations.push(Position { x: -345_000, y: -360_000 });
    locations.push(Position { x: 345_000, y: -360_000 });
    assert(locations@ =~= spec_spawn_locations());
    let spawner = EnemySpawner {
        locations,
        timer: TickTimer::new(ENEMY_SPAWN_INTERVAL_MICROS),
    };
    let walk_frames = AnimationByDirection {
        bottom: FrameRange { start: 0, end: 7 },
        bottom_left: FrameRange { start: 0, end: 7 },
        left: FrameRange { start: 16, end: 23 },
        top_left: FrameRange { start: 8, end: 15 },
        top: FrameRange { start: 8, end: 15 },
        top_right: FrameRange { start: 8, end: 15 },
        right: FrameRange { start: 24, end: 31 },
        bottom_right: FrameRange { start: 0, end: 7 },
    };
    let config = EnemySpriteSpawnConfig {
        walk_frames,
        idle_frames: walk_frames,
        dying_frames: FrameRange { start: 35, end: 39 },
    };
    (spawner, config)
}

} // verus!
