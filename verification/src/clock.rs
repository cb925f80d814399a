//! The frame clock: a per-second frame counter for an observable fps value,
//! and the sleep budget that paces each frame to a target interval.
//!
//! Timestamps are microseconds on a monotonic scale supplied by the caller.

use vstd::prelude::*;

verus! {

/// Microseconds in one second, the fps accounting boundary.
pub const SECOND_MICROS: u64 = 1000000;

/// Time elapsed from `start` to `now` on a monotonic clock: zero when `now`
/// does not lie after `start`.
pub open spec fn elapsed_micros(start: u64, now: u64) -> int {
    if now >= start {
        now - start
    } else {
        0
    }
}

/// Tracks frames completed since the last whole-second boundary and the fps
/// value observed over the most recently completed second.
pub struct FrameClock {
    /// Wall-clock budget of one frame, in microseconds.
    pub target_interval: u64,
    /// Timestamp of the last second boundary, in microseconds.
    pub second_start: u64,
    /// Frames completed since `second_start`.
    pub frames: u64,
    /// Frames counted during the last completed second.
    pub fps: u64,
}

impl FrameClock {
    /// The state after one completed frame is recorded at time `now`: the
    /// counter grows by one, and once more than a second has elapsed since
    /// the boundary, the count becomes the reported fps and a new second
    /// starts at `now`.
    pub open spec fn tick_spec(self, now: u64) -> FrameClock {
        let counted = (self.frames + 1) as u64;
        if elapsed_micros(self.second_start, now) > SECOND_MICROS {
            FrameClock {
                target_interval: self.target_interval,
                second_start: now,
                frames: 0,
                fps: counted,
            }
        } else {
            FrameClock {
                target_interval: self.target_interval,
                second_start: self.second_start,
                frames: counted,
                fps: self.fps,
            }
        }
    }

    /// A clock that starts a fresh second at `now` with nothing counted yet.
    pub fn new(target_interval: u64, now: u64) -> (clock: FrameClock)
        ensures
            clock.target_interval == target_interval,
            clock.second_start == now,
            clock.frames == 0,
            clock.fps == 0,
    {
        FrameClock { target_interval, second_start: now, frames: 0, fps: 0 }
    }

    /// Records one completed frame at time `now`. The fps value changes only
    /// when more than one second has elapsed since the last boundary.
    pub fn tick_complete(&mut self, now: u64)
        requires
            old(self).frames < u64::MAX,
        ensures
            *final(self) == old(self).tick_spec(now),
    {
        self.frames = self.frames + 1;
        if now > self.second_start && now - self.second_start > SECOND_MICROS {
            self.fps = self.frames;
            self.second_start = now;
            self.frames = 0;
        }
    }

    /// How long to sleep so that the frame that began at `frame_start`
    /// fills its whole target interval: the unspent remainder, or `None`
    /// when the frame has already overrun the budget. A frame that overran
    /// is never compensated for; pacing is best effort.
    pub fn sleep_remainder(&self, frame_start: u64, now: u64) -> (remainder: Option<u64>)
        ensures
            remainder == (if elapsed_micros(frame_start, now) <= self.target_interval {
                Some((self.target_interval - elapsed_micros(frame_start, now)) as u64)
            } else {
                None::<u64>
            }),
            elapsed_micros(frame_start, now) > self.target_interval ==> remainder is None,
    {
        let elapsed: u64 = if now >= frame_start {
            now - frame_start
        } else {
            0
        };
        if elapsed <= self.target_interval {
            Some(self.target_interval - elapsed)
        } else {
            None
        }
    }
}

} // verus!
