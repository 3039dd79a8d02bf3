use arena_combat::collision::PlayerDamage;
use arena_combat::lifecycle::{
    dying_duration_micros, handle_game_over, handle_restart_game, handle_start_game,
    on_player_damaged, EnemyState, GameState, PlayerInfo,
};
use arena_combat::animation::FrameRange;

#[test]
fn is_alive_distinguishes_the_states() {
    assert!(EnemyState::Alive.is_alive());
    assert!(!EnemyState::Dying { remaining_micros: 1 }.is_alive());
}

#[test]
fn dying_duration_is_frame_period_times_clip_length() {
    // 10 fps and a four-frame dying clip: 0.4 s.
    let d = dying_duration_micros(10, FrameRange { start: 35, end: 39 });
    assert_eq!(d, 400_000);
}

#[test]
fn one_damage_event_reduces_health() {
    let mut player = PlayerInfo { health: 100 };
    on_player_damaged(&mut player, &vec![PlayerDamage(10)]);
    assert_eq!(player.health, 90);
}

#[test]
fn ten_damage_events_exhaust_health() {
    let mut player = PlayerInfo { health: 100 };
    let events: Vec<PlayerDamage> = (0..10).map(|_| PlayerDamage(10)).collect();
    on_player_damaged(&mut player, &events);
    assert_eq!(player.health, 0);
}

#[test]
fn damage_saturates_at_zero() {
    let mut player = PlayerInfo { health: 15 };
    on_player_damaged(&mut player, &vec![PlayerDamage(10), PlayerDamage(10), PlayerDamage(10)]);
    assert_eq!(player.health, 0);
}

#[test]
fn game_over_signals_exactly_once() {
    let mut state = GameState::InGame;
    let healthy = PlayerInfo { health: 90 };
    assert!(!handle_game_over(&mut state, &healthy));
    assert_eq!(state, GameState::InGame);

    let exhausted = PlayerInfo { health: 0 };
    // The tick crossing zero raises the signal and ends the game.
    assert!(handle_game_over(&mut state, &exhausted));
    assert_eq!(state, GameState::End);
    // Later checks with health still at zero stay silent.
    assert!(!handle_game_over(&mut state, &exhausted));
    assert!(!handle_game_over(&mut state, &exhausted));
    assert_eq!(state, GameState::End);
}

#[test]
fn game_over_needs_a_running_game() {
    let mut state = GameState::MainMenu;
    let exhausted = PlayerInfo { health: 0 };
    assert!(!handle_game_over(&mut state, &exhausted));
    assert_eq!(state, GameState::MainMenu);
}

#[test]
fn confirm_starts_and_restarts_the_game() {
    let mut state = GameState::MainMenu;
    handle_start_game(&mut state, false);
    assert_eq!(state, GameState::MainMenu);
    handle_start_game(&mut state, true);
    assert_eq!(state, GameState::InGame);
    // The start handler leaves a running game alone.
    handle_start_game(&mut state, true);
    assert_eq!(state, GameState::InGame);

    let mut ended = GameState::End;
    handle_restart_game(&mut ended, false);
    assert_eq!(ended, GameState::End);
    handle_restart_game(&mut ended, true);
    assert_eq!(ended, GameState::InGame);
}
