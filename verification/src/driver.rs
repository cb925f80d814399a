//! The loop driver's verified core. It owns the land, the pixel buffer and
//! the frame clock. Once per input pass it runs the logical update: clear
//! the buffer, advance every tile, composite the land. Once per presented
//! frame it does the fps accounting and computes the pacing sleep. The
//! caller presents the buffer, sleeps, and delivers timestamps and events.

use vstd::prelude::*;

use crate::clock::FrameClock;
use crate::clock::elapsed_micros;
use crate::grid::land_wf;
use crate::grid::update_land;
use crate::iso::clear_screen;
use crate::iso::draw_land;
use crate::iso::proj_ok;
use crate::iso::spec_cleared;
use crate::iso::spec_draw_upto;
use crate::iso::spec_x_start;
use crate::iso::spec_y_start;
use crate::tile::LandTile;
use crate::tile::rows;

verus! {

/// Everything the loop mutates: the land, the buffer it is drawn into,
/// the buffer's dimensions and the pacing clock.
pub struct World {
    /// The animated tile grid.
    pub land: Vec<Vec<LandTile>>,
    /// The pixel buffer the land is composited into.
    pub screen: Vec<Vec<[u8; 4]>>,
    /// Width of the pixel buffer.
    pub screen_w: usize,
    /// Height of the pixel buffer.
    pub screen_h: usize,
    /// Frame pacing and fps accounting.
    pub clock: FrameClock,
}

impl World {
    /// Well-formedness: the land is well formed, the buffer has exactly
    /// the stored dimensions, and every tile's projection is computable
    /// without underflow or overflow.
    pub open spec fn wf(self) -> bool {
        &&& land_wf(self.land)
        &&& self.screen_h > 0
        &&& self.screen@.len() == self.screen_h
        &&& forall|i: int|
            0 <= i < self.screen@.len() ==> (#[trigger] self.screen@[i]@).len() == self.screen_w
        &&& forall|r: int, c: int|
            0 <= r < self.land@.len() && 0 <= c < self.land@[r]@.len() ==> proj_ok(
                self.screen_w as int,
                self.screen_h as int,
                self.land@[0]@.len() as int,
                self.land@.len() as int,
                self.land@[0]@[0].width as int,
                self.land@[0]@[0].height as int,
                c,
                r,
            )
    }

    /// A world over a given land with a freshly cleared buffer and a clock
    /// whose second starts at `now`.
    pub fn new(
        land: Vec<Vec<LandTile>>,
        screen_w: usize,
        screen_h: usize,
        target_interval: u64,
        now: u64,
    ) -> (world: World)
        requires
            land_wf(land),
            screen_h > 0,
            forall|r: int, c: int|
                0 <= r < land@.len() && 0 <= c < land@[r]@.len() ==> proj_ok(
                    screen_w as int,
                    screen_h as int,
                    land@[0]@.len() as int,
                    land@.len() as int,
                    land@[0]@[0].width as int,
                    land@[0]@[0].height as int,
                    c,
                    r,
                ),
        ensures
            world.wf(),
            world.land == land,
            world.screen_w == screen_w,
            world.screen_h == screen_h,
            rows(world.screen) == spec_cleared(screen_w as int, screen_h as int),
            world.clock.target_interval == target_interval,
            world.clock.second_start == now,
            world.clock.frames == 0,
            world.clock.fps == 0,
    {
        let screen = clear_screen(screen_w, screen_h);
        World { land, screen, screen_w, screen_h, clock: FrameClock::new(target_interval, now) }
    }

    /// One logical update at time `now`: the buffer is cleared to the
    /// background, every tile is advanced exactly once, and the advanced
    /// land is composited into the cleared buffer, in that order. The
    /// clock and the dimensions are untouched.
    pub fn update(&mut self, now: u64)
        requires
            old(self).wf(),
        ensures
            final(self).wf(),
            final(self).screen_w == old(self).screen_w,
            final(self).screen_h == old(self).screen_h,
            final(self).clock == old(self).clock,
            final(self).land@.len() == old(self).land@.len(),
            forall|r: int|
                0 <= r < old(self).land@.len() ==> (#[trigger] final(self).land@[r]@).len()
                    == old(self).land@[r]@.len(),
            forall|r: int, c: int|
                0 <= r < old(self).land@.len() && 0 <= c < old(self).land@[r]@.len()
                    ==> (#[trigger] final(self).land@[r]@[c]) == old(
                    self,
                ).land@[r]@[c].advance_spec(now),
            rows(final(self).screen) == spec_draw_upto(
                spec_cleared(old(self).screen_w as int, old(self).screen_h as int),
                final(self).land@,
                final(self).land@.len() as int,
                spec_x_start(
                    old(self).screen_w as int,
                    old(self).land@[0]@.len() as int,
                    old(self).land@[0]@[0].width as int,
                ),
                spec_y_start(
                    old(self).screen_h as int,
                    old(self).land@.len() as int,
                    old(self).land@[0]@[0].height as int,
                ),
                old(self).land@[0]@[0].width as int,
                old(self).land@[0]@[0].height as int,
            ),
    {
        self.screen = clear_screen(self.screen_w, self.screen_h);
        update_land(&mut self.land, now);
        proof {
            assert(land_wf(self.land));
            assert forall|r: int, c: int|
                0 <= r < self.land@.len() && 0 <= c < self.land@[r]@.len() implies proj_ok(
                self.screen_w as int,
                self.screen_h as int,
                self.land@[0]@.len() as int,
                self.land@.len() as int,
                self.land@[0]@[0].width as int,
                self.land@[0]@[0].height as int,
                c,
                r,
            ) by {
                assert(old(self).land@[r]@[c].wf());
            }
        }
        draw_land(&mut self.screen, &self.land);
    }

    /// Accounting for one presented frame: records the completed frame at
    /// `now` and computes the pacing sleep for the frame that began at
    /// `frame_start` — the unspent part of the target interval, or `None`
    /// when the frame overran it. Nothing else changes.
    pub fn present_pacing(&mut self, frame_start: u64, now: u64) -> (remainder: Option<u64>)
        requires
            old(self).clock.frames < u64::MAX,
        ensures
            final(self).clock == old(self).clock.tick_spec(now),
            final(self).land == old(self).land,
            final(self).screen == old(self).screen,
            final(self).screen_w == old(self).screen_w,
            final(self).screen_h == old(self).screen_h,
            remainder == (if elapsed_micros(frame_start, now) <= old(
                self,
            ).clock.target_interval {
                Some((old(self).clock.target_interval - elapsed_micros(frame_start, now)) as u64)
            } else {
                None::<u64>
            }),
            elapsed_micros(frame_start, now) > old(self).clock.target_interval ==> remainder
                is None,
    {
        self.clock.tick_complete(now);
        self.clock.sleep_remainder(frame_start, now)
    }
}

} // verus!
