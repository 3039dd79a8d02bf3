//! The simulated arena: entity records, the per-tick systems that
//! mutate them, and the world structure that wires one tick together in
//! the required order (contact resolution, then life-cycle mutation,
//! then movement, spawning and animation).
//!
//! Coordinates are thousandths of a world unit; draw depths are
//! millionths of a unit; velocities are thousandths of a unit per
//! second; durations are microseconds.

use vstd::prelude::*;

use crate::animation::AnimationConfig;
use crate::animation::FrameRange;
use crate::animation::spec_next_frame_index;
use crate::collision::BulletCollided;
use crate::collision::CollidingObj;
use crate::collision::ContactStarted;
use crate::collision::EnemyReceiveHitEvent;
use crate::collision::GameScore;
use crate::collision::handle_collision;
use crate::collision::spec_bullet_events;
use crate::collision::spec_damage_events;
use crate::collision::spec_hit_events;
use crate::collision::spec_sat_add_u32;
use crate::collision::spec_shot_count;
use crate::direction::Orientation;
use crate::lifecycle::EnemyState;
use crate::lifecycle::GameState;
use crate::lifecycle::PlayerInfo;
use crate::lifecycle::dying_duration_micros;
use crate::lifecycle::handle_game_over;
use crate::lifecycle::on_player_damaged;
use crate::lifecycle::spec_apply_damage;
use crate::lifecycle::spec_dying_duration;
use crate::lifecycle::spec_game_over;
use crate::player::MoveKeys;
use crate::player::execute_player_behavior;
use crate::player::setup_player;
use crate::player::spec_move_sign;
use crate::player::spec_player_anim;
use crate::player::BULLET_LIFE_TIME_MICROS;
use crate::player::SPEED_BULLET;
use crate::spawner::EnemySpawner;
use crate::spawner::EnemySpriteSpawnConfig;
use crate::spawner::DAMAGE_SLIME;
use crate::spawner::setup_enemies;
use crate::spawner::spawn_enemies;
use crate::spawner::spec_slime_config;
use crate::spawner::spec_spawn_locations;
use crate::spawner::spec_spawned_anim;
use crate::spawner::ENEMY_SPAWN_INTERVAL_MICROS;
use crate::timing::TickTimer;

verus! {

/// Coordinates stay within this bound (a billion world units), so
/// coordinate differences and depth derivations fit 64-bit arithmetic.
pub const MAX_COORD: i64 = 1_000_000_000_000;

/// A point in the arena, in thousandths of a world unit.
#[derive(Clone, Copy, Debug, PartialEq, Eq, Structural)]
pub struct Position {
    pub x: i64,
    pub y: i64,
}

impl Position {
    pub open spec fn wf(self) -> bool {
        &&& -MAX_COORD <= self.x <= MAX_COORD
        &&& -MAX_COORD <= self.y <= MAX_COORD
    }
}

/// A velocity in thousandths of a world unit per second.
#[derive(Clone, Copy, Debug, PartialEq, Eq, Structural)]
pub struct Velocity {
    pub x: i64,
    pub y: i64,
}

/// The unnormalized direction an enemy wants to move in, pointing from
/// the enemy to the player.  The physics collaborator normalizes it and
/// scales it by the enemy speed; a zero steering means standing still.
#[derive(Clone, Copy, Debug, PartialEq, Eq, Structural)]
pub struct Steering {
    pub dx: i64,
    pub dy: i64,
}

/// The draw depth derived from a vertical position, in millionths of a
/// world unit: entities lower on screen draw above entities higher up.
pub open spec fn spec_draw_depth(y: int) -> int {
    -10 * y
}

/// One enemy: identity, placement, movement intent, life-cycle state,
/// animation state, role payload, and whether its solid collider is
/// still attached.
#[derive(Clone, Copy, Debug, PartialEq, Eq, Structural)]
pub struct Enemy {
    pub id: u64,
    pub pos: Position,
    pub z_depth: i64,
    pub steering: Steering,
    pub state: EnemyState,
    pub anim: AnimationConfig,
    pub frame_index: usize,
    pub collidable: bool,
    pub dmg: u32,
}

impl Enemy {
    pub open spec fn wf(self) -> bool {
        &&& self.pos.wf()
        &&& self.anim.wf()
    }
}

/// One bullet: identity, placement, velocity, and the one-shot
/// countdown to its automatic removal.
#[derive(Clone, Copy, Debug, PartialEq, Eq, Structural)]
pub struct Bullet {
    pub id: u64,
    pub pos: Position,
    pub vel: Velocity,
    pub elapsed: TickTimer,
}

impl Bullet {
    pub open spec fn wf(self) -> bool {
        &&& self.pos.wf()
        &&& self.elapsed.wf()
        &&& -1_000_000 <= self.vel.x <= 1_000_000
        &&& -1_000_000 <= self.vel.y <= 1_000_000
    }
}

/// One static arena border: an axis-aligned box that bullets are
/// consumed by, described by its center and half extents.
#[derive(Clone, Copy, Debug, PartialEq, Eq, Structural)]
pub struct Wall {
    pub id: u64,
    pub center: Position,
    pub half_x: i64,
    pub half_y: i64,
}

/// An enemy after receiving one hit.  An alive enemy starts dying: its
/// remaining time is the length of its dying animation, its current
/// clip switches to the dying clip, it stops moving and its collider
/// detaches so it cannot trigger further contacts.  An enemy already
/// dying is left exactly as it is.
pub open spec fn spec_hit_enemy(e: Enemy) -> Enemy {
    if e.state is Alive {
        Enemy {
            state: EnemyState::Dying {
                remaining_micros: spec_dying_duration(e.anim.fps, e.anim.dying) as u64,
            },
            anim: AnimationConfig { current_frame_range: e.anim.dying, ..e.anim },
            steering: Steering { dx: 0, dy: 0 },
            collidable: false,
            ..e
        }
    } else {
        e
    }
}

/// A hit moves an alive enemy to `Dying`; it never resurrects or
/// removes anything.
pub proof fn lemma_hit_transitions(e: Enemy)
    ensures
        e.state is Alive ==> spec_hit_enemy(e).state is Dying,
        spec_hit_enemy(e).id == e.id,
{
}

/// A hit on an enemy that is already dying is a no-op: in particular
/// its remaining dying time is unchanged.
pub proof fn lemma_hit_idempotent(e: Enemy)
    ensures
        e.state is Dying ==> spec_hit_enemy(e) == e,
        spec_hit_enemy(spec_hit_enemy(e)) == spec_hit_enemy(e),
{
}

/// Every enemy carrying the hit identifier, hit once.
pub open spec fn spec_hit_id(enemies: Seq<Enemy>, id: u64) -> Seq<Enemy> {
    enemies.map(|i: int, e: Enemy| if e.id == id { spec_hit_enemy(e) } else { e })
}

/// The enemy list after a sequence of hit events, applied in order.
pub open spec fn spec_apply_hits(enemies: Seq<Enemy>, hits: Seq<EnemyReceiveHitEvent>) -> Seq<Enemy>
    decreases hits.len(),
{
    if hits.len() == 0 {
        enemies
    } else {
        spec_hit_id(spec_apply_hits(enemies, hits.drop_last()), hits.last().0)
    }
}

/// An enemy after one hit, executably.
fn hit_enemy(e: Enemy) -> (r: Enemy)
    requires
        e.wf(),
    ensures
        r == spec_hit_enemy(e),
        r.wf(),
{
    match e.state {
        EnemyState::Alive => {
            let remaining = dying_duration_micros(e.anim.fps, e.anim.dying);
            Enemy {
                state: EnemyState::Dying { remaining_micros: remaining },
                anim: AnimationConfig { current_frame_range: e.anim.dying, ..e.anim },
                steering: Steering { dx: 0, dy: 0 },
                collidable: false,
                ..e
            }
        },
        _ => e,
    }
}

/// Applies one tick's hit events to the enemies.  Events naming unknown
/// identifiers (stale references to entities removed earlier) have no
/// effect; hits on already-dying enemies are no-ops.
pub fn start_enemy_dying(enemies: &mut Vec<Enemy>, events: &Vec<EnemyReceiveHitEvent>)
    requires
        forall|i: int| 0 <= i < old(enemies)@.len() ==> (#[trigger] old(enemies)@[i]).wf(),
    ensures
        final(enemies)@ == spec_apply_hits(old(enemies)@, events@),
        forall|i: int| 0 <= i < final(enemies)@.len() ==> (#[trigger] final(enemies)@[i]).wf(),
{
    let mut i: usize = 0;
    while i < events.len()
        invariant
            0 <= i <= events@.len(),
            enemies@ == spec_apply_hits(old(enemies)@, events@.take(i as int)),
            forall|k: int| 0 <= k < enemies@.len() ==> (#[trigger] enemies@[k]).wf(),
        decreases events@.len() - i,
    {
        proof {
            assert(events@.take(i as int + 1).drop_last() =~= events@.take(i as int));
            assert(events@.take(i as int + 1).last() == events@[i as int]);
        }
        let id = events[i].0;
        let ghost snapshot = enemies@;
        let mut j: usize = 0;
        while j < enemies.len()
            invariant
                0 <= j <= enemies@.len(),
                enemies@.len() == snapshot.len(),
                forall|k: int|
                    0 <= k < j ==> enemies@[k] == (if (#[trigger] snapshot[k]).id == id {
                        spec_hit_enemy(snapshot[k])
                    } else {
                        snapshot[k]
                    }),
                forall|k: int| j <= k < snapshot.len() ==> enemies@[k] == snapshot[k],
                forall|k: int| 0 <= k < snapshot.len() ==> (#[trigger] snapshot[k]).wf(),
                forall|k: int| 0 <= k < enemies@.len() ==> (#[trigger] enemies@[k]).wf(),
            decreases enemies@.len() - j,
        {
            if enemies[j].id == id {
                let updated = hit_enemy(enemies[j]);
                enemies.set(j, updated);
            }
            j = j + 1;
        }
        proof {
            assert(enemies@ =~= spec_hit_id(snapshot, id));
        }
        i = i + 1;
    }
    proof {
        assert(events@.take(events@.len() as int) =~= events@);
    }
}

/// One enemy's behavior for one tick.  An alive enemy steers toward the
/// player and refreshes its draw depth from its vertical position.  A
/// dying enemy counts its remaining time down and is removed (`None`)
/// the moment the countdown reaches zero.
pub open spec fn spec_enemy_step(e: Enemy, player_pos: Position, dt_micros: u64) -> Option<Enemy> {
    match e.state {
        EnemyState::Alive => Some(
            Enemy {
                steering: Steering {
                    dx: (player_pos.x - e.pos.x) as i64,
                    dy: (player_pos.y - e.pos.y) as i64,
                },
                z_depth: spec_draw_depth(e.pos.y as int) as i64,
                ..e
            },
        ),
        EnemyState::Dying { remaining_micros } => {
            if remaining_micros <= dt_micros {
                None
            } else {
                Some(
                    Enemy {
                        state: EnemyState::Dying {
                            remaining_micros: (remaining_micros - dt_micros) as u64,
                        },
                        ..e
                    },
                )
            }
        },
    }
}

/// A dying enemy is removed exactly when its countdown expires: never
/// while alive, never early, and — being removed — never twice.  While
/// the countdown runs it only decreases.
pub proof fn lemma_dying_removed_exactly_on_expiry(e: Enemy, player_pos: Position, dt_micros: u64)
    ensures
        (spec_enemy_step(e, player_pos, dt_micros) is None) <==> (e.state matches EnemyState::Dying {
            remaining_micros,
        } && remaining_micros <= dt_micros),
        e.state is Alive ==> spec_enemy_step(e, player_pos, dt_micros) is Some,
        e.state matches EnemyState::Dying { remaining_micros } ==> (remaining_micros > dt_micros
            ==> spec_enemy_step(e, player_pos, dt_micros) == Some(
            Enemy {
                state: EnemyState::Dying { remaining_micros: (remaining_micros - dt_micros) as u64 },
                ..e
            },
        )),
{
}

/// The enemy list after one behavior tick, in order, with expired dying
/// enemies removed.
pub open spec fn spec_step_enemies(enemies: Seq<Enemy>, player_pos: Position, dt_micros: u64) -> Seq<
    Enemy,
>
    decreases enemies.len(),
{
    if enemies.len() == 0 {
        seq![]
    } else {
        spec_step_enemies(enemies.drop_last(), player_pos, dt_micros) + (match spec_enemy_step(
            enemies.last(),
            player_pos,
            dt_micros,
        ) {
            Some(e) => seq![e],
            None => seq![],
        })
    }
}

/// Runs every enemy's per-tick behavior: alive enemies steer toward the
/// player, dying enemies count down and are despawned when their time
/// is up.
pub fn execute_enemy_behavior(enemies: &mut Vec<Enemy>, player_pos: Position, dt_micros: u64)
    requires
        forall|i: int| 0 <= i < old(enemies)@.len() ==> (#[trigger] old(enemies)@[i]).wf(),
        player_pos.wf(),
    ensures
        final(enemies)@ == spec_step_enemies(old(enemies)@, player_pos, dt_micros),
        forall|i: int| 0 <= i < final(enemies)@.len() ==> (#[trigger] final(enemies)@[i]).wf(),
{
    let mut out: Vec<Enemy> = Vec::new();
    let mut i: usize = 0;
    while i < enemies.len()
        invariant
            0 <= i <= enemies@.len(),
            forall|k: int| 0 <= k < enemies@.len() ==> (#[trigger] enemies@[k]).wf(),
            player_pos.wf(),
            out@ == spec_step_enemies(enemies@.take(i as int), player_pos, dt_micros),
            forall|k: int| 0 <= k < out@.len() ==> (#[trigger] out@[k]).wf(),
        decreases enemies@.len() - i,
    {
        proof {
            assert(enemies@.take(i as int + 1).drop_last() =~= enemies@.take(i as int));
            assert(enemies@.take(i as int + 1).last() == enemies@[i as int]);
        }
        let e = enemies[i];
        assert(e.wf());
        assert(-MAX_COORD <= e.pos.y <= MAX_COORD);
        proof {
            assert(-10 * MAX_COORD <= (-10) * e.pos.y <= 10 * MAX_COORD) by (nonlinear_arith)
                requires
                    -MAX_COORD <= e.pos.y <= MAX_COORD,
            ;
        }
        match e.state {
            EnemyState::Alive => {
                let stepped = Enemy {
                    steering: Steering { dx: player_pos.x - e.pos.x, dy: player_pos.y - e.pos.y },
                    z_depth: (-10i64) * e.pos.y,
                    ..e
                };
                out.push(stepped);
            },
            EnemyState::Dying { remaining_micros } => {
                if remaining_micros <= dt_micros {
                    // despawned: dropped from the list
                } else {
                    let stepped = Enemy {
                        state: EnemyState::Dying {
                            remaining_micros: remaining_micros - dt_micros,
                        },
                        ..e
                    };
                    out.push(stepped);
                }
            },
        }
        i = i + 1;
    }
    proof {
        assert(enemies@.take(enemies@.len() as int) =~= enemies@);
    }
    *enemies = out;
}

/// One bullet's lifetime countdown for one tick: the bullet is removed
/// when the countdown completes, and otherwise keeps accumulating.
pub open spec fn spec_bullet_lifetime_step(b: Bullet, dt_micros: u64) -> Option<Bullet> {
    if b.elapsed.spec_fires(dt_micros) {
        None
    } else {
        Some(
            Bullet {
                elapsed: TickTimer {
                    elapsed_micros: (b.elapsed.elapsed_micros + dt_micros) as u64,
                    period_micros: b.elapsed.period_micros,
                },
                ..b
            },
        )
    }
}

/// The bullet list after one lifetime tick, in order, with expired
/// bullets removed.
pub open spec fn spec_bullets_lifetime(bullets: Seq<Bullet>, dt_micros: u64) -> Seq<Bullet>
    decreases bullets.len(),
{
    if bullets.len() == 0 {
        seq![]
    } else {
        spec_bullets_lifetime(bullets.drop_last(), dt_micros) + (match spec_bullet_lifetime_step(
            bullets.last(),
            dt_micros,
        ) {
            Some(b) => seq![b],
            None => seq![],
        })
    }
}

/// Advances every bullet's lifetime countdown, despawning the ones
/// whose time completed this tick.
pub fn execute_bullets_lifetime(bullets: &mut Vec<Bullet>, dt_micros: u64)
    requires
        forall|i: int| 0 <= i < old(bullets)@.len() ==> (#[trigger] old(bullets)@[i]).wf(),
    ensures
        final(bullets)@ == spec_bullets_lifetime(old(bullets)@, dt_micros),
        forall|i: int| 0 <= i < final(bullets)@.len() ==> (#[trigger] final(bullets)@[i]).wf(),
{
    let mut out: Vec<Bullet> = Vec::new();
    let mut i: usize = 0;
    while i < bullets.len()
        invariant
            0 <= i <= bullets@.len(),
            forall|k: int| 0 <= k < bullets@.len() ==> (#[trigger] bullets@[k]).wf(),
            out@ == spec_bullets_lifetime(bullets@.take(i as int), dt_micros),
            forall|k: int| 0 <= k < out@.len() ==> (#[trigger] out@[k]).wf(),
        decreases bullets@.len() - i,
    {
        proof {
            assert(bullets@.take(i as int + 1).drop_last() =~= bullets@.take(i as int));
            assert(bullets@.take(i as int + 1).last() == bullets@[i as int]);
        }
        let mut b = bullets[i];
        let fired = b.elapsed.tick(dt_micros);
        if !fired {
            out.push(b);
        }
        i = i + 1;
    }
    proof {
        assert(bullets@.take(bullets@.len() as int) =~= bullets@);
    }
    *bullets = out;
}

/// The bullets that survive the removal of one consumed identifier.
/// Removal of an identifier no longer present is a no-op, so racing
/// removal paths (lifetime expiry against contact consumption) are
/// safe.
pub open spec fn spec_keep_bullets(bullets: Seq<Bullet>, id: u64) -> Seq<Bullet>
    decreases bullets.len(),
{
    if bullets.len() == 0 {
        seq![]
    } else {
        spec_keep_bullets(bullets.drop_last(), id) + (if bullets.last().id == id {
            seq![]
        } else {
            seq![bullets.last()]
        })
    }
}

/// The bullet list after a sequence of consumed-bullet events.
pub open spec fn spec_remove_bullets(bullets: Seq<Bullet>, events: Seq<BulletCollided>) -> Seq<
    Bullet,
>
    decreases events.len(),
{
    if events.len() == 0 {
        bullets
    } else {
        spec_keep_bullets(spec_remove_bullets(bullets, events.drop_last()), events.last().0)
    }
}

/// Despawns one bullet by identifier; absent identifiers are ignored.
fn remove_bullet(bullets: &mut Vec<Bullet>, id: u64)
    requires
        forall|i: int| 0 <= i < old(bullets)@.len() ==> (#[trigger] old(bullets)@[i]).wf(),
    ensures
        final(bullets)@ == spec_keep_bullets(old(bullets)@, id),
        forall|i: int| 0 <= i < final(bullets)@.len() ==> (#[trigger] final(bullets)@[i]).wf(),
{
    let mut out: Vec<Bullet> = Vec::new();
    let mut i: usize = 0;
    while i < bullets.len()
        invariant
            0 <= i <= bullets@.len(),
            forall|k: int| 0 <= k < bullets@.len() ==> (#[trigger] bullets@[k]).wf(),
            out@ == spec_keep_bullets(bullets@.take(i as int), id),
            forall|k: int| 0 <= k < out@.len() ==> (#[trigger] out@[k]).wf(),
        decreases bullets@.len() - i,
    {
        proof {
            assert(bullets@.take(i as int + 1).drop_last() =~= bullets@.take(i as int));
            assert(bullets@.take(i as int + 1).last() == bullets@[i as int]);
        }
        let b = bullets[i];
        if b.id != id {
            out.push(b);
        }
        i = i + 1;
    }
    proof {
        assert(bullets@.take(bullets@.len() as int) =~= bullets@);
    }
    *bullets = out;
}

/// Despawns every bullet named by one tick's consumed-bullet events.
/// Events naming already-removed bullets are safely ignored.
pub fn on_bullet_collided(bullets: &mut Vec<Bullet>, events: &Vec<BulletCollided>)
    requires
        forall|i: int| 0 <= i < old(bullets)@.len() ==> (#[trigger] old(bullets)@[i]).wf(),
    ensures
        final(bullets)@ == spec_remove_bullets(old(bullets)@, events@),
        forall|i: int| 0 <= i < final(bullets)@.len() ==> (#[trigger] final(bullets)@[i]).wf(),
{
    let mut i: usize = 0;
    while i < events.len()
        invariant
            0 <= i <= events@.len(),
            bullets@ == spec_remove_bullets(old(bullets)@, events@.take(i as int)),
            forall|k: int| 0 <= k < bullets@.len() ==> (#[trigger] bullets@[k]).wf(),
        decreases events@.len() - i,
    {
        proof {
            assert(events@.take(i as int + 1).drop_last() =~= events@.take(i as int));
            assert(events@.take(i as int + 1).last() == events@[i as int]);
        }
        remove_bullet(bullets, events[i].0);
        i = i + 1;
    }
    proof {
        assert(events@.take(events@.len() as int) =~= events@);
    }
}

/// An enemy after one animation tick: the frame timer accumulates, and
/// on completing a frame period the displayed index steps through the
/// current clip.
pub open spec fn spec_animate_enemy(e: Enemy, dt_micros: u64) -> Enemy {
    if e.anim.elapsed_frame_timer.spec_fires(dt_micros) {
        Enemy {
            anim: AnimationConfig {
                elapsed_frame_timer: TickTimer {
                    elapsed_micros: 0,
                    period_micros: e.anim.elapsed_frame_timer.period_micros,
                },
                ..e.anim
            },
            frame_index: spec_next_frame_index(
                e.anim.current_frame_range,
                e.frame_index as int,
            ) as usize,
            ..e
        }
    } else {
        Enemy {
            anim: AnimationConfig {
                elapsed_frame_timer: TickTimer {
                    elapsed_micros: (e.anim.elapsed_frame_timer.elapsed_micros + dt_micros) as u64,
                    period_micros: e.anim.elapsed_frame_timer.period_micros,
                },
                ..e.anim
            },
            ..e
        }
    }
}

/// Plays every enemy's sprite animation for one tick.
pub fn play_animations(enemies: &mut Vec<Enemy>, dt_micros: u64)
    requires
        forall|i: int| 0 <= i < old(enemies)@.len() ==> (#[trigger] old(enemies)@[i]).wf(),
    ensures
        final(enemies)@.len() == old(enemies)@.len(),
        forall|i: int|
            0 <= i < final(enemies)@.len() ==> final(enemies)@[i] == spec_animate_enemy(
                #[trigger] old(enemies)@[i],
                dt_micros,
            ),
        forall|i: int| 0 <= i < final(enemies)@.len() ==> (#[trigger] final(enemies)@[i]).wf(),
    {
    let ghost snapshot = enemies@;
    let mut i: usize = 0;
    while i < enemies.len()
        invariant
            0 <= i <= enemies@.len(),
            enemies@.len() == snapshot.len(),
            forall|k: int| 0 <= k < snapshot.len() ==> (#[trigger] snapshot[k]).wf(),
            forall|k: int|
                0 <= k < i ==> enemies@[k] == spec_animate_enemy(
                    #[trigger] snapshot[k],
                    dt_micros,
                ),
            forall|k: int| i <= k < snapshot.len() ==> enemies@[k] == snapshot[k],
            forall|k: int| 0 <= k < enemies@.len() ==> (#[trigger] enemies@[k]).wf(),
        decreases enemies@.len() - i,
    {
        let mut e = enemies[i];
        let mut index = e.frame_index;
        e.anim.tick(&mut index, dt_micros);
        e.frame_index = index;
        enemies.set(i, e);
        i = i + 1;
    }
}

/// Every enemy after one animation tick.
pub open spec fn spec_animate_all(enemies: Seq<Enemy>, dt_micros: u64) -> Seq<Enemy> {
    enemies.map(|i: int, e: Enemy| spec_animate_enemy(e, dt_micros))
}

/// Half the side of the hit box used by the coordinate-only bullet hit
/// check, in thousandths of a unit (12 units).
pub const HIT_BOX_HALF: i64 = 12_000;

/// Ticks may cover at most this many microseconds (about eleven days),
/// so velocity-times-time products fit 64-bit arithmetic.
pub const MAX_TICK_MICROS: u64 = 1_000_000_000_000;

/// Displacement covered at velocity `v` over `dt` microseconds, in
/// thousandths of a unit, rounding toward zero.
pub open spec fn spec_displacement(v: int, dt_micros: int) -> int {
    if v >= 0 {
        (v * dt_micros) / 1_000_000
    } else {
        -(((-v) * dt_micros) / 1_000_000)
    }
}

/// A coordinate clamped to the world bound.
pub open spec fn spec_clamp_coord(v: int) -> int {
    if v < -MAX_COORD {
        -MAX_COORD as int
    } else if v > MAX_COORD {
        MAX_COORD as int
    } else {
        v
    }
}

/// The displacement covered at velocity `v` over one tick.
fn scaled_displacement(v: i64, dt_micros: u64) -> (r: i64)
    requires
        -1_000_000 <= v <= 1_000_000,
        dt_micros <= MAX_TICK_MICROS,
    ensures
        r == spec_displacement(v as int, dt_micros as int),
        -MAX_TICK_MICROS <= r <= MAX_TICK_MICROS,
{
    if v >= 0 {
        proof {
            assert((v as int) * (dt_micros as int) <= 1_000_000_000_000_000_000) by (
            nonlinear_arith)
                requires
                    0 <= v as int <= 1_000_000,
                    0 <= dt_micros as int <= 1_000_000_000_000,
            ;
        }
        let product = (v as u64) * dt_micros;
        let scaled = product / 1_000_000;
        proof {
            vstd::arithmetic::div_mod::lemma_div_is_ordered(
                product as int,
                1_000_000_000_000_000_000,
                1_000_000,
            );
        }
        scaled as i64
    } else {
        proof {
            assert(((-v) as int) * (dt_micros as int) <= 1_000_000_000_000_000_000) by (
            nonlinear_arith)
                requires
                    0 <= (-v) as int <= 1_000_000,
                    0 <= dt_micros as int <= 1_000_000_000_000,
            ;
        }
        let product = ((-v) as u64) * dt_micros;
        let scaled = product / 1_000_000;
        proof {
            vstd::arithmetic::div_mod::lemma_div_is_ordered(
                product as int,
                1_000_000_000_000_000_000,
                1_000_000,
            );
        }
        -(scaled as i64)
    }
}

/// One coordinate moved by a displacement, clamped to the world bound.
fn move_coord(a: i64, d: i64) -> (r: i64)
    requires
        -MAX_COORD <= a <= MAX_COORD,
        -MAX_TICK_MICROS <= d <= MAX_TICK_MICROS,
    ensures
        r == spec_clamp_coord(a as int + d as int),
        -MAX_COORD <= r <= MAX_COORD,
{
    let s = a + d;
    if s < -MAX_COORD {
        -MAX_COORD
    } else if s > MAX_COORD {
        MAX_COORD
    } else {
        s
    }
}

/// Whether a bullet at `bpos` registers a hit on an enemy: the enemy is
/// alive and the bullet lies within the enemy's hit box.
pub open spec fn spec_bullet_hits_enemy(bpos: Position, e: Enemy) -> bool {
    &&& e.state is Alive
    &&& e.pos.x - HIT_BOX_HALF <= bpos.x <= e.pos.x + HIT_BOX_HALF
    &&& e.pos.y - HIT_BOX_HALF <= bpos.y <= e.pos.y + HIT_BOX_HALF
}

/// Index of the first enemy a bullet at `bpos` hits, in list order, or
/// a negative value when it hits none.
pub open spec fn spec_first_hit(enemies: Seq<Enemy>, bpos: Position) -> int
    decreases enemies.len(),
{
    if enemies.len() == 0 {
        -1
    } else if spec_bullet_hits_enemy(bpos, enemies[0]) {
        0
    } else {
        let r = spec_first_hit(enemies.skip(1), bpos);
        if r < 0 {
            -1
        } else {
            r + 1
        }
    }
}

/// A scan that finds no hit before `j`, and a hit at `j` if `j` is in
/// range, pins down the first hit index.
proof fn lemma_first_hit_at(enemies: Seq<Enemy>, bpos: Position, j: int)
    requires
        0 <= j <= enemies.len(),
        forall|k: int| 0 <= k < j ==> !spec_bullet_hits_enemy(bpos, #[trigger] enemies[k]),
        j < enemies.len() ==> spec_bullet_hits_enemy(bpos, enemies[j]),
    ensures
        spec_first_hit(enemies, bpos) == if j < enemies.len() {
            j
        } else {
            -1int
        },
    decreases enemies.len(),
{
    if enemies.len() > 0 {
        if j == 0 {
        } else {
            assert(!spec_bullet_hits_enemy(bpos, enemies[0]));
            assert(forall|k: int|
                0 <= k < j - 1 ==> !spec_bullet_hits_enemy(bpos, #[trigger] enemies.skip(1)[k]));
            assert(j - 1 < enemies.skip(1).len() ==> spec_bullet_hits_enemy(
                bpos,
                enemies.skip(1)[j - 1],
            ));
            lemma_first_hit_at(enemies.skip(1), bpos, j - 1);
        }
    }
}

/// One bullet's move-and-check step against the current enemies.  An
/// expired bullet is removed untouched.  A live bullet moves along its
/// velocity; if it then registers a hit on the first alive enemy within
/// its hit box, the bullet is consumed and that enemy is hit; otherwise
/// the bullet survives.
pub open spec fn spec_bullet_move_step(b: Bullet, enemies: Seq<Enemy>, dt_micros: u64) -> (
    Option<Bullet>,
    Seq<Enemy>,
) {
    if b.elapsed.spec_fires(dt_micros) {
        (None, enemies)
    } else {
        let moved = Bullet {
            pos: Position {
                x: spec_clamp_coord(
                    b.pos.x + spec_displacement(b.vel.x as int, dt_micros as int),
                ) as i64,
                y: spec_clamp_coord(
                    b.pos.y + spec_displacement(b.vel.y as int, dt_micros as int),
                ) as i64,
            },
            elapsed: TickTimer {
                elapsed_micros: (b.elapsed.elapsed_micros + dt_micros) as u64,
                period_micros: b.elapsed.period_micros,
            },
            ..b
        };
        let j = spec_first_hit(enemies, moved.pos);
        if j >= 0 {
            (None, enemies.update(j, spec_hit_enemy(enemies[j])))
        } else {
            (Some(moved), enemies)
        }
    }
}

/// The bullets and enemies after every bullet, in list order, made its
/// move-and-check step; each step sees the enemies as the previous one
/// left them.
pub open spec fn spec_bullets_move(bullets: Seq<Bullet>, enemies: Seq<Enemy>, dt_micros: u64) -> (
    Seq<Bullet>,
    Seq<Enemy>,
)
    decreases bullets.len(),
{
    if bullets.len() == 0 {
        (seq![], enemies)
    } else {
        let step = spec_bullet_move_step(bullets[0], enemies, dt_micros);
        let rest = spec_bullets_move(bullets.skip(1), step.1, dt_micros);
        (
            (match step.0 {
                Some(b) => seq![b],
                None => seq![],
            }) + rest.0,
            rest.1,
        )
    }
}

/// Moves every bullet and performs the coordinate-only hit check: each
/// bullet first counts its lifetime (expiring removes it), then moves
/// along its velocity, and is consumed by the first alive enemy whose
/// hit box it lands in — which starts that enemy dying.  Both removal
/// paths leave already-removed entities alone.
pub fn execute_bullets_move(bullets: &mut Vec<Bullet>, enemies: &mut Vec<Enemy>, dt_micros: u64)
    requires
        forall|i: int| 0 <= i < old(bullets)@.len() ==> (#[trigger] old(bullets)@[i]).wf(),
        forall|i: int| 0 <= i < old(enemies)@.len() ==> (#[trigger] old(enemies)@[i]).wf(),
        dt_micros <= MAX_TICK_MICROS,
    ensures
        final(bullets)@ == spec_bullets_move(old(bullets)@, old(enemies)@, dt_micros).0,
        final(enemies)@ == spec_bullets_move(old(bullets)@, old(enemies)@, dt_micros).1,
        forall|i: int| 0 <= i < final(bullets)@.len() ==> (#[trigger] final(bullets)@[i]).wf(),
        forall|i: int| 0 <= i < final(enemies)@.len() ==> (#[trigger] final(enemies)@[i]).wf(),
{
    let ghost orig_bullets = bullets@;
    let ghost orig_enemies = enemies@;
    let mut out: Vec<Bullet> = Vec::new();
    let mut i: usize = 0;
    proof {
        assert(orig_bullets.skip(0) =~= orig_bullets);
    }
    while i < bullets.len()
        invariant
            0 <= i <= bullets@.len(),
            bullets@ == orig_bullets,
            forall|k: int| 0 <= k < bullets@.len() ==> (#[trigger] bullets@[k]).wf(),
            forall|k: int| 0 <= k < enemies@.len() ==> (#[trigger] enemies@[k]).wf(),
            forall|k: int| 0 <= k < out@.len() ==> (#[trigger] out@[k]).wf(),
            dt_micros <= MAX_TICK_MICROS,
            spec_bullets_move(orig_bullets, orig_enemies, dt_micros).0 == out@
                + spec_bullets_move(orig_bullets.skip(i as int), enemies@, dt_micros).0,
            spec_bullets_move(orig_bullets, orig_enemies, dt_micros).1 == spec_bullets_move(
                orig_bullets.skip(i as int),
                enemies@,
                dt_micros,
            ).1,
        decreases bullets@.len() - i,
    {
        proof {
            assert(orig_bullets.skip(i as int)[0] == orig_bullets[i as int]);
            assert(orig_bullets.skip(i as int).skip(1) =~= orig_bullets.skip(i as int + 1));
        }
        let ghost enemies_at_entry = enemies@;
        let mut b = bullets[i];
        let fired = b.elapsed.tick(dt_micros);
        if !fired {
            let dx = scaled_displacement(b.vel.x, dt_micros);
            let dy = scaled_displacement(b.vel.y, dt_micros);
            b.pos = Position { x: move_coord(b.pos.x, dx), y: move_coord(b.pos.y, dy) };
            let mut j: usize = 0;
            let mut hit = false;
            while j < enemies.len() && !hit
                invariant
                    0 <= j <= enemies@.len(),
                    enemies@.len() == enemies_at_entry.len(),
                    forall|k: int| 0 <= k < enemies@.len() ==> (#[trigger] enemies@[k]).wf(),
                    !hit ==> enemies@ == enemies_at_entry,
                    !hit ==> forall|k: int|
                        0 <= k < j ==> !spec_bullet_hits_enemy(
                            b.pos,
                            #[trigger] enemies_at_entry[k],
                        ),
                    hit ==> {
                        &&& spec_first_hit(enemies_at_entry, b.pos) == j
                        &&& j < enemies_at_entry.len()
                        &&& enemies@ == enemies_at_entry.update(
                            j as int,
                            spec_hit_enemy(enemies_at_entry[j as int]),
                        )
                    },
                decreases
                        enemies@.len() - j,
                        (if hit {
                            0int
                        } else {
                            1int
                        }),
            {
                let e = enemies[j];
                let within = b.pos.x >= e.pos.x - HIT_BOX_HALF && b.pos.x <= e.pos.x
                    + HIT_BOX_HALF && b.pos.y >= e.pos.y - HIT_BOX_HALF && b.pos.y <= e.pos.y
                    + HIT_BOX_HALF;
                if within && e.state.is_alive() {
                    proof {
                        lemma_first_hit_at(enemies@, b.pos, j as int);
                    }
                    let updated = hit_enemy(e);
                    enemies.set(j, updated);
                    hit = true;
                } else {
                    j = j + 1;
                }
            }
            if !hit {
                proof {
                    lemma_first_hit_at(enemies@, b.pos, enemies@.len() as int);
                }
                out.push(b);
            }
        }
        i = i + 1;
    }
    proof {
        assert(orig_bullets.skip(orig_bullets.len() as int).len() == 0);
        assert(spec_bullets_move(orig_bullets, orig_enemies, dt_micros).0 =~= out@);
    }
    *bullets = out;
}

/// Identifier of the single player entity.
pub const PLAYER_ID: u64 = 0;

/// Identifiers below this are reserved for the player and the static
/// arena; spawned entities count up from here.
pub const FIRST_SPAWNED_ID: u64 = 16;

/// The four arena borders, in thousandths of a world unit.
pub open spec fn spec_walls() -> Seq<Wall> {
    seq![
        Wall { id: 1, center: Position { x: 0, y: 330_000 }, half_x: 370_000, half_y: 10_000 },
        Wall {
            id: 2,
            center: Position { x: 0, y: -390_000i64 },
            half_x: 370_000,
            half_y: 10_000,
        },
        Wall {
            id: 3,
            center: Position { x: -380_000i64, y: 0 },
            half_x: 10_000,
            half_y: 380_000,
        },
        Wall { id: 4, center: Position { x: 380_000, y: 0 }, half_x: 10_000, half_y: 380_000 },
    ]
}

/// Creates the static arena: the four border walls bullets are consumed
/// by, each tagged as environment.
pub fn setup_arena() -> (walls: Vec<Wall>)
    ensures
        walls@ == spec_walls(),
{
    let mut walls: Vec<Wall> = Vec::new();
    walls.push(
        Wall { id: 1, center: Position { x: 0, y: 330_000 }, half_x: 370_000, half_y: 10_000 },
    );
    walls.push(
        Wall { id: 2, center: Position { x: 0, y: -390_000 }, half_x: 370_000, half_y: 10_000 },
    );
    walls.push(
        Wall { id: 3, center: Position { x: -380_000, y: 0 }, half_x: 10_000, half_y: 380_000 },
    );
    walls.push(
        Wall { id: 4, center: Position { x: 380_000, y: 0 }, half_x: 10_000, half_y: 380_000 },
    );
    assert(walls@ =~= spec_walls());
    walls
}

/// Registry entries of the enemies, in order: each enemy whose collider
/// is still attached, tagged with its damage payload.  Dying enemies
/// have shed their collider and no longer classify contacts.
pub open spec fn spec_enemy_registry(enemies: Seq<Enemy>) -> Seq<(u64, CollidingObj)>
    decreases enemies.len(),
{
    if enemies.len() == 0 {
        seq![]
    } else {
        spec_enemy_registry(enemies.drop_last()) + (if enemies.last().collidable {
            seq![(enemies.last().id, CollidingObj::Enemy { dmg: enemies.last().dmg })]
        } else {
            seq![]
        })
    }
}

/// Registry entries of the bullets, in order.
pub open spec fn spec_bullet_registry(bullets: Seq<Bullet>) -> Seq<(u64, CollidingObj)>
    decreases bullets.len(),
{
    if bullets.len() == 0 {
        seq![]
    } else {
        spec_bullet_registry(bullets.drop_last()) + seq![
            (bullets.last().id, CollidingObj::Bullet),
        ]
    }
}

/// Registry entries of the arena borders, in order.
pub open spec fn spec_wall_registry(walls: Seq<Wall>) -> Seq<(u64, CollidingObj)>
    decreases walls.len(),
{
    if walls.len() == 0 {
        seq![]
    } else {
        spec_wall_registry(walls.drop_last()) + seq![(walls.last().id, CollidingObj::Environment)]
    }
}

/// The whole simulated arena, and the cross-entity shared state (player
/// health, score, game state) that only the single per-tick resolution
/// pass mutates.
#[derive(Debug)]
pub struct World {
    pub state: GameState,
    pub player: PlayerInfo,
    pub player_pos: Position,
    pub player_anim: AnimationConfig,
    pub player_frame: usize,
    pub score: GameScore,
    pub enemies: Vec<Enemy>,
    pub bullets: Vec<Bullet>,
    pub walls: Vec<Wall>,
    pub spawner: EnemySpawner,
    pub spawn_config: EnemySpriteSpawnConfig,
    pub next_id: u64,
}

impl World {
    pub open spec fn wf(self) -> bool {
        &&& self.player_pos.wf()
        &&& self.player_anim.wf()
        &&& forall|i: int| 0 <= i < self.enemies@.len() ==> (#[trigger] self.enemies@[i]).wf()
        &&& forall|i: int| 0 <= i < self.bullets@.len() ==> (#[trigger] self.bullets@[i]).wf()
        &&& self.spawner.wf()
        &&& self.spawn_config.wf()
    }

    /// The role registry the resolver consults: the player, every
    /// still-collidable enemy, every bullet, and the arena borders.
    pub open spec fn spec_registry(self) -> Seq<(u64, CollidingObj)> {
        seq![(PLAYER_ID, CollidingObj::Player)] + spec_enemy_registry(self.enemies@)
            + spec_bullet_registry(self.bullets@) + spec_wall_registry(self.walls@)
    }

    /// Builds the role registry for this tick's contact resolution.
    pub fn collision_registry(&self) -> (table: Vec<(u64, CollidingObj)>)
        ensures
            table@ == self.spec_registry(),
    {
        let mut table: Vec<(u64, CollidingObj)> = Vec::new();
        table.push((PLAYER_ID, CollidingObj::Player));
        let mut i: usize = 0;
        while i < self.enemies.len()
            invariant
                0 <= i <= self.enemies@.len(),
                table@ == seq![(PLAYER_ID, CollidingObj::Player)] + spec_enemy_registry(
                    self.enemies@.take(i as int),
                ),
            decreases self.enemies@.len() - i,
        {
            proof {
                assert(self.enemies@.take(i as int + 1).drop_last() =~= self.enemies@.take(
                    i as int,
                ));
                assert(self.enemies@.take(i as int + 1).last() == self.enemies@[i as int]);
            }
            let e = &self.enemies[i];
            if e.collidable {
                table.push((e.id, CollidingObj::Enemy { dmg: e.dmg }));
            }
            i = i + 1;
        }
        proof {
            assert(self.enemies@.take(self.enemies@.len() as int) =~= self.enemies@);
        }
        let ghost after_enemies = table@;
        let mut j: usize = 0;
        while j < self.bullets.len()
            invariant
                0 <= j <= self.bullets@.len(),
                table@ == after_enemies + spec_bullet_registry(self.bullets@.take(j as int)),
            decreases self.bullets@.len() - j,
        {
            proof {
                assert(self.bullets@.take(j as int + 1).drop_last() =~= self.bullets@.take(
                    j as int,
                ));
                assert(self.bullets@.take(j as int + 1).last() == self.bullets@[j as int]);
            }
            table.push((self.bullets[j].id, CollidingObj::Bullet));
            j = j + 1;
        }
        proof {
            assert(self.bullets@.take(self.bullets@.len() as int) =~= self.bullets@);
        }
        let ghost after_bullets = table@;
        let mut k: usize = 0;
        while k < self.walls.len()
            invariant
                0 <= k <= self.walls@.len(),
                table@ == after_bullets + spec_wall_registry(self.walls@.take(k as int)),
            decreases self.walls@.len() - k,
        {
            proof {
                assert(self.walls@.take(k as int + 1).drop_last() =~= self.walls@.take(k as int));
                assert(self.walls@.take(k as int + 1).last() == self.walls@[k as int]);
            }
            table.push((self.walls[k].id, CollidingObj::Environment));
            k = k + 1;
        }
        proof {
            assert(self.walls@.take(self.walls@.len() as int) =~= self.walls@);
            assert(table@ =~= self.spec_registry());
        }
        table
    }

    /// A fresh arena: the game running, the player at full health at
    /// the starting position, no enemies or bullets yet, the spawner
    /// armed.
    pub fn new() -> (w: World)
        ensures
            w.wf(),
            w.state == GameState::InGame,
            w.player.health == crate::player::PLAYER_START_HEALTH,
            w.player_pos == (Position { x: -100_000i64, y: 0 }),
            w.player_anim == spec_player_anim(),
            w.player_frame == 0,
            w.score.0 == 0,
            w.enemies@.len() == 0,
            w.bullets@.len() == 0,
            w.walls@ == spec_walls(),
            w.spawner.locations@ == spec_spawn_locations(),
            w.spawner.timer.elapsed_micros == 0,
            w.spawner.timer.period_micros == ENEMY_SPAWN_INTERVAL_MICROS,
            w.spawn_config == spec_slime_config(),
            w.next_id == FIRST_SPAWNED_ID,
    {
        let (player, player_anim) = setup_player();
        let (spawner, spawn_config) = setup_enemies();
        World {
            state: GameState::InGame,
            player,
            player_pos: Position { x: -100_000, y: 0 },
            player_anim,
            player_frame: 0,
            score: GameScore(0),
            enemies: Vec::new(),
            bullets: Vec::new(),
            walls: setup_arena(),
            spawner,
            spawn_config,
            next_id: FIRST_SPAWNED_ID,
        }
    }
}

/// The player's health after one tick's contact resolution.
pub open spec fn spec_tick_health(w: World, contacts: Seq<ContactStarted>) -> int {
    spec_apply_damage(w.player.health as int, spec_damage_events(w.spec_registry(), contacts))
}

/// The score after one tick's contact resolution.
pub open spec fn spec_tick_score(w: World, contacts: Seq<ContactStarted>) -> int {
    spec_sat_add_u32(w.score.0 as int, spec_shot_count(w.spec_registry(), contacts))
}

/// The enemies after one tick, spawning aside: hits applied, behavior
/// stepped (expired dying enemies removed), animations played.
pub open spec fn spec_tick_enemies(w: World, contacts: Seq<ContactStarted>, dt_micros: u64) -> Seq<
    Enemy,
> {
    spec_animate_all(
        spec_step_enemies(
            spec_apply_hits(w.enemies@, spec_hit_events(w.spec_registry(), contacts)),
            w.player_pos,
            dt_micros,
        ),
        dt_micros,
    )
}

/// The bullets after one tick, firing aside: consumed bullets removed,
/// lifetimes counted down.
pub open spec fn spec_tick_bullets(w: World, contacts: Seq<ContactStarted>, dt_micros: u64) -> Seq<
    Bullet,
> {
    spec_bullets_lifetime(
        spec_remove_bullets(w.bullets@, spec_bullet_events(w.spec_registry(), contacts)),
        dt_micros,
    )
}

/// The bullet the player's tick fires, if any: firing requires a known
/// aim direction.
pub open spec fn spec_fired_bullet(w: World, aim: Option<Orientation>, fire: bool) -> Option<
    Bullet,
> {
    if fire {
        match aim {
            Some(o) => Some(
                Bullet {
                    id: w.next_id,
                    pos: w.player_pos,
                    vel: Velocity {
                        x: (SPEED_BULLET * o.x as int) as i64,
                        y: (SPEED_BULLET * o.y as int) as i64,
                    },
                    elapsed: TickTimer {
                        elapsed_micros: 0,
                        period_micros: BULLET_LIFE_TIME_MICROS,
                    },
                },
            ),
            None => None,
        }
    } else {
        None
    }
}

impl World {
    /// Advances the whole simulation by one tick, in the required
    /// order: this tick's contact notifications are fully resolved and
    /// their events fully applied (hits, damage, bullet consumption,
    /// the game-over check) before movement, firing, lifetimes,
    /// spawning and animation run.  Entities created this tick join at
    /// the end of their lists and first act on the next tick.  Returns
    /// whether the terminal game-over signal was raised on this tick.
    pub fn tick(
        &mut self,
        contacts: &Vec<ContactStarted>,
        keys: MoveKeys,
        aim: Option<Orientation>,
        fire: bool,
        dt_micros: u64,
    ) -> (signaled: bool)
        requires
            old(self).wf(),
            old(self).next_id <= u64::MAX - 2,
            aim matches Some(o) ==> o.wf(),
        ensures
            final(self).wf(),
            final(self).score.0 == spec_tick_score(*old(self), contacts@),
            final(self).player.health == spec_tick_health(*old(self), contacts@),
            final(self).state == spec_game_over(
                old(self).state,
                spec_tick_health(*old(self), contacts@),
            ).0,
            signaled == spec_game_over(
                old(self).state,
                spec_tick_health(*old(self), contacts@),
            ).1,
            final(self).player_pos == old(self).player_pos,
            final(self).walls == old(self).walls,
            final(self).spawn_config == old(self).spawn_config,
            final(self).player_anim.idle == old(self).player_anim.idle,
            final(self).player_anim.walk == old(self).player_anim.walk,
            final(self).player_anim.dying == old(self).player_anim.dying,
            final(self).player_anim.fps == old(self).player_anim.fps,
            final(self).player_anim.current_frame_range == crate::player::spec_selected_range(
                old(self).player_anim,
                keys,
                aim,
            ),
            old(self).player_anim.elapsed_frame_timer.spec_fires(dt_micros) ==> {
                &&& final(self).player_frame == spec_next_frame_index(
                    crate::player::spec_selected_range(old(self).player_anim, keys, aim),
                    old(self).player_frame as int,
                )
                &&& final(self).player_anim.elapsed_frame_timer.elapsed_micros == 0
            },
            !old(self).player_anim.elapsed_frame_timer.spec_fires(dt_micros) ==> {
                &&& final(self).player_frame == old(self).player_frame
                &&& final(self).player_anim.elapsed_frame_timer.elapsed_micros == old(
                    self,
                ).player_anim.elapsed_frame_timer.elapsed_micros + dt_micros
            },
            final(self).bullets@ == (match spec_fired_bullet(*old(self), aim, fire) {
                Some(b) => spec_tick_bullets(*old(self), contacts@, dt_micros).push(b),
                None => spec_tick_bullets(*old(self), contacts@, dt_micros),
            }),
            !old(self).spawner.timer.spec_fires(dt_micros) ==> final(self).enemies@
                == spec_tick_enemies(*old(self), contacts@, dt_micros),
            old(self).spawner.timer.spec_fires(dt_micros) ==> {
                &&& final(self).enemies@.len() == spec_tick_enemies(
                    *old(self),
                    contacts@,
                    dt_micros,
                ).len() + 1
                &&& final(self).enemies@.take(final(self).enemies@.len() - 1)
                    == spec_tick_enemies(*old(self), contacts@, dt_micros)
                &&& final(self).enemies@.last().state is Alive
                &&& final(self).enemies@.last().collidable
                &&& final(self).enemies@.last().dmg == DAMAGE_SLIME
                &&& final(self).enemies@.last().anim == spec_spawned_anim(old(self).spawn_config)
                &&& final(self).enemies@.last().frame_index == old(
                    self,
                ).spawn_config.walk_frames.bottom.start
                &&& exists|i: int|
                    0 <= i < old(self).spawner.locations@.len() && final(self).enemies@.last().pos
                        == old(self).spawner.locations@[i]
            },
            final(self).spawner.locations == old(self).spawner.locations,
            final(self).spawner.timer.period_micros == old(self).spawner.timer.period_micros,
            old(self).spawner.timer.spec_fires(dt_micros)
                ==> final(self).spawner.timer.elapsed_micros == 0,
            !old(self).spawner.timer.spec_fires(dt_micros)
                ==> final(self).spawner.timer.elapsed_micros == old(
                self,
            ).spawner.timer.elapsed_micros + dt_micros,
            final(self).next_id == old(self).next_id + (
            if spec_fired_bullet(*old(self), aim, fire) is Some {
                1int
            } else {
                0int
            }) + (if old(self).spawner.timer.spec_fires(dt_micros) {
                1int
            } else {
                0int
            }),
    {
        let table = self.collision_registry();
        let ev = handle_collision(contacts, &table, &mut self.score);
        start_enemy_dying(&mut self.enemies, &ev.enemy_hits);
        on_player_damaged(&mut self.player, &ev.player_damage);
        on_bullet_collided(&mut self.bullets, &ev.bullet_hits);
        let signaled = handle_game_over(&mut self.state, &self.player);
        let act = execute_player_behavior(
            &mut self.player_anim,
            keys,
            aim,
            fire,
            self.player_pos,
            self.next_id,
        );
        execute_enemy_behavior(&mut self.enemies, self.player_pos, dt_micros);
        execute_bullets_lifetime(&mut self.bullets, dt_micros);
        let ghost enemies_before_anim = self.enemies@;
        play_animations(&mut self.enemies, dt_micros);
        proof {
            assert(self.enemies@ =~= spec_animate_all(enemies_before_anim, dt_micros));
        }
        let mut frame = self.player_frame;
        self.player_anim.tick(&mut frame, dt_micros);
        self.player_frame = frame;
        proof {
            assert(act.fired_bullet == spec_fired_bullet(*old(self), aim, fire));
        }
        match act.fired_bullet {
            Some(b) => {
                self.bullets.push(b);
                self.next_id = self.next_id + 1;
            },
            None => {},
        }
        let spawned = spawn_enemies(&mut self.spawner, &self.spawn_config, self.next_id, dt_micros);
        match spawned {
            Some(e) => {
                proof {
                    assert(self.enemies@.push(e).take(self.enemies@.len() as int) =~= self.enemies@);
                }
                self.enemies.push(e);
                self.next_id = self.next_id + 1;
            },
            None => {},
        }
        signaled
    }
}

} // verus!
