use arena_combat::animation::{AnimationByDirection, AnimationConfig, FrameRange};
use arena_combat::direction::Direction;
use arena_combat::timing::TickTimer;

fn clip(start: usize, end: usize) -> FrameRange {
    FrameRange { start, end }
}

fn table() -> AnimationByDirection {
    AnimationByDirection {
        bottom: clip(0, 7),
        bottom_left: clip(0, 7),
        left: clip(16, 23),
        top_left: clip(8, 15),
        top: clip(8, 15),
        top_right: clip(8, 15),
        right: clip(24, 31),
        bottom_right: clip(0, 7),
    }
}

fn config_at(range: FrameRange) -> AnimationConfig {
    AnimationConfig {
        idle: table(),
        walk: table(),
        dying: clip(35, 39),
        current_frame_range: range,
        fps: 10,
        elapsed_frame_timer: AnimationConfig::timer_from_fps(10),
    }
}

#[test]
fn for_direction_selects_the_matching_clip() {
    let t = table();
    assert_eq!(t.for_direction(Direction::Bottom), clip(0, 7));
    assert_eq!(t.for_direction(Direction::BottomLeft), clip(0, 7));
    assert_eq!(t.for_direction(Direction::Left), clip(16, 23));
    assert_eq!(t.for_direction(Direction::TopLeft), clip(8, 15));
    assert_eq!(t.for_direction(Direction::Top), clip(8, 15));
    assert_eq!(t.for_direction(Direction::TopRight), clip(8, 15));
    assert_eq!(t.for_direction(Direction::Right), clip(24, 31));
    assert_eq!(t.for_direction(Direction::BottomRight), clip(0, 7));
}

#[test]
fn timer_from_fps_gives_one_frame_period() {
    let t = AnimationConfig::timer_from_fps(10);
    assert_eq!(t.period_micros, 100_000);
    assert_eq!(t.elapsed_micros, 0);
    let t25 = AnimationConfig::timer_from_fps(25);
    assert_eq!(t25.period_micros, 40_000);
}

#[test]
fn frame_show_time_matches_fps() {
    let c = config_at(clip(0, 7));
    assert_eq!(c.frame_show_time(), 100_000);
}

#[test]
fn one_tick_of_a_full_period_advances_one_frame() {
    // fps = 10: dt summing to exactly 0.1 s advances exactly one frame.
    let mut c = config_at(clip(0, 7));
    let mut index = 0usize;
    c.tick(&mut index, 100_000);
    assert_eq!(index, 1);
    assert_eq!(c.elapsed_frame_timer.elapsed_micros, 0);
}

#[test]
fn two_half_period_ticks_advance_one_frame_at_the_second() {
    let mut c = config_at(clip(0, 7));
    let mut index = 0usize;
    c.tick(&mut index, 50_000);
    assert_eq!(index, 0);
    c.tick(&mut index, 50_000);
    assert_eq!(index, 1);
}

#[test]
fn a_long_tick_advances_only_one_frame_and_rearms() {
    // No catch-up: one advance per tick regardless of overshoot, and
    // the timer re-arms at zero rather than keeping the excess.
    let mut c = config_at(clip(0, 7));
    let mut index = 3usize;
    c.tick(&mut index, 1_000_000);
    assert_eq!(index, 4);
    assert_eq!(c.elapsed_frame_timer.elapsed_micros, 0);
    c.tick(&mut index, 99_999);
    assert_eq!(index, 4);
    assert_eq!(c.elapsed_frame_timer.elapsed_micros, 99_999);
}

#[test]
fn index_at_range_end_wraps_to_start() {
    let mut c = config_at(clip(8, 15));
    let mut index = 15usize;
    c.tick(&mut index, 100_000);
    assert_eq!(index, 8);
}

#[test]
fn index_outside_range_snaps_to_start() {
    // As after a clip switch: the stale index snaps to the new start.
    let mut c = config_at(clip(24, 31));
    let mut index = 3usize;
    c.tick(&mut index, 100_000);
    assert_eq!(index, 24);
}

#[test]
fn switching_clips_keeps_the_timer_running() {
    let mut c = config_at(clip(0, 7));
    let mut index = 2usize;
    c.tick(&mut index, 60_000);
    assert_eq!(index, 2);
    // A clip switch does not reset the accumulator.
    c.current_frame_range = clip(24, 31);
    c.tick(&mut index, 40_000);
    assert_eq!(index, 24);
}

#[test]
fn degenerate_still_frame_stays_put() {
    let mut c = config_at(clip(5, 5));
    let mut index = 5usize;
    c.tick(&mut index, 100_000);
    assert_eq!(index, 5);
}

#[test]
fn tick_timer_fires_exactly_on_the_period() {
    let mut t = TickTimer::new(1_000_000);
    assert!(!t.tick(999_999));
    assert!(t.tick(1));
    assert_eq!(t.elapsed_micros, 0);
}
