//! Directional sprite-animation tables and the per-entity frame cursor.
//!
//! Each animated entity owns an [`AnimationConfig`]: lookup tables from
//! facing direction to frame-index clips, the clip currently playing,
//! and a frame timer.  Every simulation tick advances the timer; when it
//! completes one frame period the displayed index moves one step through
//! the current clip and the timer re-arms.

use vstd::prelude::*;

use crate::direction::Direction;
use crate::timing::TickTimer;
use crate::timing::frame_period_micros;
use crate::timing::spec_frame_period;

verus! {

/// Frame indices stay below this bound, so a frame count multiplied by a
/// frame period always fits 64-bit microsecond arithmetic.
pub const MAX_FRAME_INDEX: usize = 1_000_000_000;

/// A half-open interval of sprite-atlas indices: one animation clip.
/// A degenerate interval (`start == end`) is a single still frame.
#[derive(Clone, Copy, Debug, PartialEq, Eq, Structural)]
pub struct FrameRange {
    pub start: usize,
    pub end: usize,
}

impl FrameRange {
    pub open spec fn wf(self) -> bool {
        self.start <= self.end <= MAX_FRAME_INDEX
    }

    /// Number of frames in the clip.
    pub open spec fn spec_len(self) -> int {
        self.end - self.start
    }
}

/// For one animation, the frame clip corresponding to each of the eight
/// facing directions.
#[derive(Clone, Copy, Debug, PartialEq, Eq, Structural)]
pub struct AnimationByDirection {
    pub bottom: FrameRange,
    pub bottom_left: FrameRange,
    pub left: FrameRange,
    pub top_left: FrameRange,
    pub top: FrameRange,
    pub top_right: FrameRange,
    pub right: FrameRange,
    pub bottom_right: FrameRange,
}

impl AnimationByDirection {
    pub open spec fn wf(self) -> bool {
        &&& self.bottom.wf()
        &&& self.bottom_left.wf()
        &&& self.left.wf()
        &&& self.top_left.wf()
        &&& self.top.wf()
        &&& self.top_right.wf()
        &&& self.right.wf()
        &&& self.bottom_right.wf()
    }

    pub open spec fn spec_for_direction(self, d: Direction) -> FrameRange {
        match d {
            Direction::Bottom => self.bottom,
            Direction::BottomLeft => self.bottom_left,
            Direction::Left => self.left,
            Direction::TopLeft => self.top_left,
            Direction::Top => self.top,
            Direction::TopRight => self.top_right,
            Direction::Right => self.right,
            Direction::BottomRight => self.bottom_right,
        }
    }

    /// The frame clip for the given facing direction.
    pub fn for_direction(&self, d: Direction) -> (r: FrameRange)
        ensures
            r == self.spec_for_direction(d),
    {
        match d {
            Direction::Bottom => self.bottom,
            Direction::BottomLeft => self.bottom_left,
            Direction::Left => self.left,
            Direction::TopLeft => self.top_left,
            Direction::Top => self.top,
            Direction::TopRight => self.top_right,
            Direction::Right => self.right,
            Direction::BottomRight => self.bottom_right,
        }
    }
}

/// The displayed index after one scheduled advance through `range`: an
/// index outside the clip snaps to its start; the exclusive-end sentinel
/// wraps to the start; otherwise the index moves forward one frame.  The
/// sentinel itself is displayed, so a clip plays `start ..= end` before
/// wrapping.
pub open spec fn spec_next_frame_index(range: FrameRange, index: int) -> int {
    if index < range.start || index > range.end {
        range.start as int
    } else if index == range.end {
        range.start as int
    } else {
        index + 1
    }
}

/// A scheduled advance wraps the exclusive-end sentinel back to the
/// clip's start, snaps any index outside the clip (as after a clip
/// switch) to the clip's start, and otherwise moves one frame forward.
pub proof fn lemma_frame_wrap_and_snap(range: FrameRange, index: int)
    ensures
        index == range.end ==> spec_next_frame_index(range, index) == range.start,
        index < range.start || index > range.end ==> spec_next_frame_index(range, index)
            == range.start,
        range.start <= index < range.end ==> spec_next_frame_index(range, index) == index + 1,
{
}

/// Animation state for any moving character or enemy: an idle, a walk
/// and a dying animation, the clip currently playing, and the frame
/// timer that paces advances.
#[derive(Clone, Copy, Debug, PartialEq, Eq, Structural)]
pub struct AnimationConfig {
    pub idle: AnimationByDirection,
    pub walk: AnimationByDirection,
    pub dying: FrameRange,
    pub current_frame_range: FrameRange,
    pub fps: u8,
    pub elapsed_frame_timer: TickTimer,
}

impl AnimationConfig {
    pub open spec fn wf(self) -> bool {
        &&& self.fps > 0
        &&& self.idle.wf()
        &&& self.walk.wf()
        &&& self.dying.wf()
        &&& self.current_frame_range.wf()
        &&& self.elapsed_frame_timer.wf()
        &&& self.elapsed_frame_timer.period_micros == spec_frame_period(self.fps)
    }

    /// A fresh frame timer whose period is one frame at `fps`.
    pub fn timer_from_fps(fps: u8) -> (t: TickTimer)
        requires
            fps > 0,
        ensures
            t.wf(),
            t.elapsed_micros == 0,
            t.period_micros == spec_frame_period(fps),
    {
        TickTimer::new(frame_period_micros(fps))
    }

    /// How long each frame of this animation is shown, in microseconds.
    pub fn frame_show_time(&self) -> (r: u64)
        requires
            self.fps > 0,
        ensures
            r == spec_frame_period(self.fps),
    {
        frame_period_micros(self.fps)
    }

    /// Advances the frame timer by `dt_micros`.  When it completes a
    /// frame period, the displayed `index` takes one step through the
    /// current clip and the timer re-arms at zero — regardless of how
    /// many periods `dt_micros` covered, so there is no frame catch-up.
    /// Switching `current_frame_range` elsewhere leaves the timer alone:
    /// the change takes effect at the next scheduled advance, which
    /// snaps an out-of-clip index to the new clip's start.
    pub fn tick(&mut self, index: &mut usize, dt_micros: u64)
        requires
            old(self).wf(),
        ensures
            final(self).wf(),
            final(self).idle == old(self).idle,
            final(self).walk == old(self).walk,
            final(self).dying == old(self).dying,
            final(self).current_frame_range == old(self).current_frame_range,
            final(self).fps == old(self).fps,
            old(self).elapsed_frame_timer.spec_fires(dt_micros) ==> {
                &&& *final(index) == spec_next_frame_index(
                    old(self).current_frame_range,
                    *old(index) as int,
                )
                &&& final(self).elapsed_frame_timer.elapsed_micros == 0
            },
            !old(self).elapsed_frame_timer.spec_fires(dt_micros) ==> {
                &&& *final(index) == *old(index)
                &&& final(self).elapsed_frame_timer.elapsed_micros == old(
                    self,
                ).elapsed_frame_timer.elapsed_micros + dt_micros
            },
    {
        let fired = self.elapsed_frame_timer.tick(dt_micros);
        if fired {
            if !(self.current_frame_range.start <= *index && *index < self.current_frame_range.end) {
                *index = self.current_frame_range.start;
            } else if *index == self.current_frame_range.end {
                *index = self.current_frame_range.start;
            } else {
                *index = *index + 1;
            }
        }
    }
}

} // verus!
