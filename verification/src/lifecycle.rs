//! Entity life-cycles: the enemy alive/dying state machine, the
//! player's health counter, and the terminal game-over transition.

use vstd::prelude::*;

use crate::animation::FrameRange;
use crate::collision::PlayerDamage;
use crate::timing::spec_frame_period;
use crate::timing::frame_period_micros;

verus! {

/// Life-cycle state of an enemy.  An enemy starts `Alive`, moves to
/// `Dying` exactly once when hit, counts its remaining dying-animation
/// time down, and is removed the moment it reaches zero.
#[derive(Clone, Copy, Debug, PartialEq, Eq, Structural)]
pub enum EnemyState {
    Alive,
    Dying { remaining_micros: u64 },
}

impl EnemyState {
    pub fn is_alive(&self) -> (r: bool)
        ensures
            r == (self is Alive),
    {
        match self {
            EnemyState::Alive => true,
            _ => false,
        }
    }
}

/// The player's state: an unsigned health counter.  Damage saturates at
/// zero and health never rises inside the simulation core.
#[derive(Clone, Copy, Debug, PartialEq, Eq, Structural)]
pub struct PlayerInfo {
    pub health: u32,
}

/// 32-bit saturating subtraction.
pub open spec fn spec_sat_sub_u32(a: int, b: int) -> int {
    if a - b < 0 {
        0
    } else {
        a - b
    }
}

/// Health left after applying a sequence of damage events in order,
/// each a saturating subtraction.
pub open spec fn spec_apply_damage(health: int, events: Seq<PlayerDamage>) -> int
    decreases events.len(),
{
    if events.len() == 0 {
        health
    } else {
        spec_sat_sub_u32(spec_apply_damage(health, events.drop_last()), events.last().0 as int)
    }
}

/// Applies one tick's damage events to the player.  Health only falls,
/// and never below zero.
pub fn on_player_damaged(player: &mut PlayerInfo, events: &Vec<PlayerDamage>)
    ensures
        final(player).health == spec_apply_damage(old(player).health as int, events@),
        final(player).health <= old(player).health,
{
    let mut i: usize = 0;
    while i < events.len()
        invariant
            0 <= i <= events@.len(),
            player.health == spec_apply_damage(old(player).health as int, events@.take(i as int)),
            player.health <= old(player).health,
        decreases events@.len() - i,
    {
        proof {
            assert(events@.take(i as int + 1).drop_last() =~= events@.take(i as int));
            assert(events@.take(i as int + 1).last() == events@[i as int]);
        }
        player.health = player.health.saturating_sub(events[i].0);
        i = i + 1;
    }
    proof {
        assert(events@.take(events@.len() as int) =~= events@);
    }
}

/// How long an enemy's dying phase lasts: one frame period per frame of
/// the dying clip.
pub open spec fn spec_dying_duration(fps: u8, dying: FrameRange) -> int
    recommends
        fps > 0,
        dying.wf(),
{
    spec_frame_period(fps) * dying.spec_len()
}

/// Duration of the dying animation in microseconds.
pub fn dying_duration_micros(fps: u8, dying: FrameRange) -> (r: u64)
    requires
        fps > 0,
        dying.wf(),
    ensures
        r == spec_dying_duration(fps, dying),
{
    let period = frame_period_micros(fps);
    let frames = (dying.end - dying.start) as u64;
    proof {
        assert(period * frames <= 1_000_000 * 1_000_000_000) by (nonlinear_arith)
            requires
                0 <= period <= 1_000_000,
                0 <= frames <= 1_000_000_000,
        ;
    }
    period * frames
}

/// Screens of the surrounding game; the simulation core only ever moves
/// `InGame` to `End`.
#[derive(Clone, Copy, Debug, PartialEq, Eq, Structural, Default)]
pub enum GameState {
    #[default]
    MainMenu,
    InGame,
    End,
}

/// The game state after a game-over check, with whether the terminal
/// signal was raised on this very check.
pub open spec fn spec_game_over(state: GameState, health: int) -> (GameState, bool) {
    if state is InGame && health <= 0 {
        (GameState::End, true)
    } else {
        (state, false)
    }
}

/// Raises the terminal game-over signal when the player's health is
/// exhausted while the game runs.  The signal accompanies the one
/// transition to `End`, so it fires exactly once: later checks with
/// health still at zero find the game already ended and stay silent.
pub fn handle_game_over(state: &mut GameState, player: &PlayerInfo) -> (signaled: bool)
    ensures
        *final(state) == spec_game_over(*old(state), player.health as int).0,
        signaled == spec_game_over(*old(state), player.health as int).1,
{
    if player.health == 0 {
        match state {
            GameState::InGame => {
                *state = GameState::End;
                true
            },
            _ => false,
        }
    } else {
        false
    }
}

/// Starts the game: the confirm key pressed on the start screen moves
/// the game from the main menu into play; anything else leaves the
/// screen as it is.
pub fn handle_start_game(state: &mut GameState, confirm_pressed: bool)
    ensures
        *final(state) == if confirm_pressed && *old(state) is MainMenu {
            GameState::InGame
        } else {
            *old(state)
        },
{
    if confirm_pressed {
        match state {
            GameState::MainMenu => {
                *state = GameState::InGame;
            },
            _ => {},
        }
    }
}

/// Restarts the game: the confirm key pressed on the end screen moves
/// the game from the terminal screen back into play.
pub fn handle_restart_game(state: &mut GameState, confirm_pressed: bool)
    ensures
        *final(state) == if confirm_pressed && *old(state) is End {
            GameState::InGame
        } else {
            *old(state)
        },
{
    if confirm_pressed {
        match state {
            GameState::End => {
                *state = GameState::InGame;
            },
            _ => {},
        }
    }
}

/// The game-over signal is raised at most once: once a check has
/// signaled, every later check — whatever the health — leaves the state
/// at `End` and stays silent.
pub proof fn lemma_game_over_signaled_once(state: GameState, health: int, later_health: int)
    ensures
        spec_game_over(state, health).1 ==> !spec_game_over(
            spec_game_over(state, health).0,
            later_health,
        ).1,
        spec_game_over(state, health).1 ==> spec_game_over(
            spec_game_over(state, health).0,
            later_health,
        ).0 == GameState::End,
{
}

} // verus!
