//! The player's per-tick decisions: movement from the pressed keys,
//! facing and animation selection from the aim direction, and bullet
//! creation on fire.
//!
//! The surrounding input layer reads the keyboard and mouse, projects
//! the cursor into world space and normalizes the aim vector; the core
//! takes those plain values and decides.

use vstd::prelude::*;

use crate::animation::AnimationByDirection;
use crate::animation::AnimationConfig;
use crate::animation::FrameRange;
use crate::direction::Orientation;
use crate::direction::direction_of_vector;
use crate::direction::spec_direction_of;
use crate::lifecycle::PlayerInfo;
use crate::timing::TickTimer;
use crate::world::Bullet;
use crate::world::Position;
use crate::world::Velocity;

verus! {

/// Base movement speed of the player, in world units per second; the
/// physics collaborator applies it to the returned movement sign.
pub const SPEED_PLAYER: i64 = 100;

/// Speed of a fired bullet, in world units per second.
pub const SPEED_BULLET: i64 = 200;

/// Microseconds a bullet lives before it is removed automatically.
pub const BULLET_LIFE_TIME_MICROS: u64 = 1_000_000;

/// Frame rate of the player's animations.
pub const PLAYER_FPS: u8 = 10;

/// Health the player starts with.
pub const PLAYER_START_HEALTH: u32 = 100;

/// Which movement keys are held this tick.
#[derive(Clone, Copy, Debug, PartialEq, Eq, Structural)]
pub struct MoveKeys {
    pub left: bool,
    pub up: bool,
    pub right: bool,
    pub down: bool,
}

/// The movement direction the held keys select, as a sign per axis.
/// Two-key diagonals are checked before single keys, in the order
/// below; the physics layer normalizes and scales the result.
pub open spec fn spec_move_sign(keys: MoveKeys) -> (int, int) {
    if keys.left && keys.down {
        (-1int, -1int)
    } else if keys.left && keys.up {
        (-1int, 1int)
    } else if keys.right && keys.down {
        (1int, -1int)
    } else if keys.right && keys.up {
        (1int, 1int)
    } else if keys.left {
        (-1int, 0int)
    } else if keys.up {
        (0int, 1int)
    } else if keys.right {
        (1int, 0int)
    } else if keys.down {
        (0int, -1int)
    } else {
        (0int, 0int)
    }
}

/// The movement sign pair for the held keys.
pub fn player_move_sign(keys: MoveKeys) -> (r: (i32, i32))
    ensures
        (r.0 as int, r.1 as int) == spec_move_sign(keys),
{
    if keys.left && keys.down {
        (-1, -1)
    } else if keys.left && keys.up {
        (-1, 1)
    } else if keys.right && keys.down {
        (1, -1)
    } else if keys.right && keys.up {
        (1, 1)
    } else if keys.left {
        (-1, 0)
    } else if keys.up {
        (0, 1)
    } else if keys.right {
        (1, 0)
    } else if keys.down {
        (0, -1)
    } else {
        (0, 0)
    }
}

/// The player's animation tables: single-frame idle stills and walking
/// clips per direction.  The player has no dying animation.
pub open spec fn spec_player_anim() -> AnimationConfig {
    AnimationConfig {
        idle: AnimationByDirection {
            bottom: FrameRange { start: 0, end: 0 },
            bottom_left: FrameRange { start: 1, end: 1 },
            left: FrameRange { start: 1, end: 1 },
            top_left: FrameRange { start: 2, end: 2 },
            top: FrameRange { start: 5, end: 5 },
            top_right: FrameRange { start: 4, end: 4 },
            right: FrameRange { start: 3, end: 3 },
            bottom_right: FrameRange { start: 3, end: 3 },
        },
        walk: AnimationByDirection {
            bottom: FrameRange { start: 8, end: 15 },
            bottom_left: FrameRange { start: 16, end: 23 },
            left: FrameRange { start: 16, end: 23 },
            top_left: FrameRange { start: 24, end: 31 },
            top: FrameRange { start: 48, end: 55 },
            top_right: FrameRange { start: 40, end: 47 },
            right: FrameRange { start: 32, end: 39 },
            bottom_right: FrameRange { start: 8, end: 15 },
        },
        dying: FrameRange { start: 0, end: 0 },
        current_frame_range: FrameRange { start: 0, end: 0 },
        fps: PLAYER_FPS,
        elapsed_frame_timer: TickTimer {
            elapsed_micros: 0,
            period_micros: (1_000_000 as int / PLAYER_FPS as int) as u64,
        },
    }
}

/// Creates the player: full health, idle animation facing down.
pub fn setup_player() -> (r: (PlayerInfo, AnimationConfig))
    ensures
        r.0.health == PLAYER_START_HEALTH,
        r.1 == spec_player_anim(),
        r.1.wf(),
{
    let idle = AnimationByDirection {
        bottom: FrameRange { start: 0, end: 0 },
        bottom_left: FrameRange { start: 1, end: 1 },
        left: FrameRange { start: 1, end: 1 },
        top_left: FrameRange { start: 2, end: 2 },
        top: FrameRange { start: 5, end: 5 },
        top_right: FrameRange { start: 4, end: 4 },
        right: FrameRange { start: 3, end: 3 },
        bottom_right: FrameRange { start: 3, end: 3 },
    };
    let walk = AnimationByDirection {
        bottom: FrameRange { start: 8, end: 15 },
        bottom_left: FrameRange { start: 16, end: 23 },
        left: FrameRange { start: 16, end: 23 },
        top_left: FrameRange { start: 24, end: 31 },
        top: FrameRange { start: 48, end: 55 },
        top_right: FrameRange { start: 40, end: 47 },
        right: FrameRange { start: 32, end: 39 },
        bottom_right: FrameRange { start: 8, end: 15 },
    };
    let start_animation = idle.bottom;
    let anim = AnimationConfig {
        idle,
        walk,
        dying: FrameRange { start: 0, end: 0 },
        current_frame_range: start_animation,
        fps: PLAYER_FPS,
        elapsed_frame_timer: AnimationConfig::timer_from_fps(PLAYER_FPS),
    };
    (PlayerInfo { health: PLAYER_START_HEALTH }, anim)
}

/// The animation clip the player's tick selects: with a known aim, the
/// walk or idle clip (depending on whether any movement key is held)
/// for the classified aim direction; without one, the clip already
/// playing.
pub open spec fn spec_selected_range(
    anim: AnimationConfig,
    keys: MoveKeys,
    aim: Option<Orientation>,
) -> FrameRange {
    match aim {
        Some(o) => (if spec_move_sign(keys) != (0int, 0int) {
            anim.walk
        } else {
            anim.idle
        }).spec_for_direction(spec_direction_of(o.x as int, o.y as int)),
        None => anim.current_frame_range,
    }
}

/// What the player decided this tick.
#[derive(Clone, Copy, Debug, PartialEq, Eq, Structural)]
pub struct PlayerAction {
    pub move_x: i32,
    pub move_y: i32,
    pub fired_bullet: Option<Bullet>,
}

/// Decides the player's tick: movement from the held keys; when an aim
/// direction is known, the facing is classified and the matching walk
/// or idle clip becomes the current one (leaving the frame timer alone,
/// so a clip switch never delays or hastens the next frame advance);
/// and when firing with a known aim, one bullet is created at the
/// player's position, moving along the aim, with a fresh one-second
/// lifetime.  Without an aim direction (cursor outside the window)
/// nothing is faced and nothing is fired.
pub fn execute_player_behavior(
    anim: &mut AnimationConfig,
    keys: MoveKeys,
    aim: Option<Orientation>,
    fire: bool,
    player_pos: Position,
    bullet_id: u64,
) -> (act: PlayerAction)
    requires
        old(anim).wf(),
        aim matches Some(o) ==> o.wf(),
        player_pos.wf(),
    ensures
        final(anim).wf(),
        final(anim).idle == old(anim).idle,
        final(anim).walk == old(anim).walk,
        final(anim).dying == old(anim).dying,
        final(anim).fps == old(anim).fps,
        final(anim).elapsed_frame_timer == old(anim).elapsed_frame_timer,
        (act.move_x as int, act.move_y as int) == spec_move_sign(keys),
        aim matches Some(o) ==> final(anim).current_frame_range == (if spec_move_sign(keys) != (
            0int,
            0int,
        ) {
            old(anim).walk
        } else {
            old(anim).idle
        }).spec_for_direction(spec_direction_of(o.x as int, o.y as int)),
        aim is None ==> final(anim).current_frame_range == old(anim).current_frame_range,
        (act.fired_bullet is Some) == (fire && aim is Some),
        aim matches Some(o) ==> (fire ==> act.fired_bullet == Some(
            Bullet {
                id: bullet_id,
                pos: player_pos,
                vel: Velocity {
                    x: (SPEED_BULLET * o.x as int) as i64,
                    y: (SPEED_BULLET * o.y as int) as i64,
                },
                elapsed: TickTimer { elapsed_micros: 0, period_micros: BULLET_LIFE_TIME_MICROS },
            },
        )),
        act.fired_bullet matches Some(b) ==> b.wf(),
{
    let (move_x, move_y) = player_move_sign(keys);
    let moving = move_x != 0 || move_y != 0;
    let mut fired_bullet: Option<Bullet> = None;
    match aim {
        Some(o) => {
            let look_direction = direction_of_vector(o);
            let frames_range = if moving {
                anim.walk.for_direction(look_direction)
            } else {
                anim.idle.for_direction(look_direction)
            };
            if !(anim.current_frame_range == frames_range) {
                anim.current_frame_range = frames_range;
            }
            if fire {
                proof {
                    assert(-200_000 <= SPEED_BULLET * o.x as int <= 200_000) by (nonlinear_arith)
                        requires
                            -1000 <= o.x as int <= 1000,
                    ;
                    assert(-200_000 <= SPEED_BULLET * o.y as int <= 200_000) by (nonlinear_arith)
                        requires
                            -1000 <= o.y as int <= 1000,
                    ;
                }
                fired_bullet = Some(
                    Bullet {
                        id: bullet_id,
                        pos: player_pos,
                        vel: Velocity {
                            x: SPEED_BULLET * (o.x as i64),
                            y: SPEED_BULLET * (o.y as i64),
                        },
                        elapsed: TickTimer::new(BULLET_LIFE_TIME_MICROS),
                    },
                );
            }
        },
        None => {},
    }
    PlayerAction { move_x, move_y, fired_bullet }
}

} // verus!
