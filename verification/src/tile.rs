//! One animated tile of the land: a sprite sheet, the cyclic animation state
//! that picks the visible frame, and the tile's grid address.
//!
//! A sprite sheet is a sequence of frames; a frame is rows of RGBA pixels.
//! Timestamps are microseconds on a monotonic scale supplied by the caller.

use vstd::prelude::*;

verus! {

/// The rows of a pixel frame (or of a whole pixel buffer) as mathematical
/// sequences of pixels.
pub open spec fn rows(frame: Vec<Vec<[u8; 4]>>) -> Seq<Seq<[u8; 4]>> {
    frame@.map_values(|row: Vec<[u8; 4]>| row@)
}

/// A sprite sheet as a sequence of frames, each frame a sequence of pixel
/// rows.
pub open spec fn sheet_view(sheet: Vec<Vec<Vec<[u8; 4]>>>) -> Seq<Seq<Seq<[u8; 4]>>> {
    sheet@.map_values(|frame: Vec<Vec<[u8; 4]>>| rows(frame))
}

/// Grid address of a tile: column, then row.
pub struct LandLocation(pub usize, pub usize);

/// One tile of the land grid.
pub struct LandTile {
    /// Animation frames; each frame is rows of RGBA pixels.
    pub spritesheet: Vec<Vec<Vec<[u8; 4]>>>,
    /// How long one frame stays visible, in microseconds.
    pub frame_time: u64,
    /// When the visible frame began to show, in microseconds.
    pub frame_start: u64,
    /// Index of the visible frame in the sprite sheet.
    pub frame: usize,
    /// Pixel width of the sprite, cached from the first frame.
    pub width: usize,
    /// Pixel height of the sprite, cached from the first frame.
    pub height: usize,
    /// Grid address of this tile.
    pub coords: LandLocation,
}

impl LandTile {
    /// Well-formedness: the sheet has a frame, the first frame has a row,
    /// the cached width and height come from the first frame, and the
    /// visible frame index is in range.
    pub open spec fn wf(self) -> bool {
        &&& self.spritesheet@.len() > 0
        &&& self.spritesheet@[0]@.len() > 0
        &&& self.height == self.spritesheet@[0]@.len()
        &&& self.width == self.spritesheet@[0]@[0]@.len()
        &&& self.frame < self.spritesheet@.len()
    }

    /// The tile after one animation check at time `now`: once the visible
    /// frame has been shown for longer than `frame_time`, the index moves
    /// one step (wrapping past the last frame to 0) and the frame's start
    /// time resets to `now`; otherwise the tile is unchanged. A single check
    /// never moves more than one step, however late it comes.
    pub open spec fn advance_spec(self, now: u64) -> LandTile {
        if now > self.frame_start + self.frame_time {
            LandTile {
                frame: if self.frame + 1 < self.spritesheet@.len() {
                    (self.frame + 1) as usize
                } else {
                    0
                },
                frame_start: now,
                ..self
            }
        } else {
            self
        }
    }

    /// Constructs a tile showing frame 0 of `spritesheet` since `now`, at
    /// grid address `coords`, with the given frame duration.
    pub fn new(
        spritesheet: Vec<Vec<Vec<[u8; 4]>>>,
        coords: LandLocation,
        now: u64,
        frame_time: u64,
    ) -> (tile: LandTile)
        requires
            spritesheet@.len() > 0,
            spritesheet@[0]@.len() > 0,
        ensures
            tile.wf(),
            tile.spritesheet == spritesheet,
            tile.frame_time == frame_time,
            tile.frame_start == now,
            tile.frame == 0,
            tile.width == spritesheet@[0]@[0]@.len(),
            tile.height == spritesheet@[0]@.len(),
            tile.coords == coords,
    {
        let width = spritesheet[0][0].len();
        let height = spritesheet[0].len();
        LandTile { spritesheet, frame_time, frame_start: now, frame: 0, width, height, coords }
    }

    /// One animation check at time `now`. The resulting frame index is
    /// always in range; a check before the frame's time is up changes
    /// nothing; a late check at the last frame wraps exactly to 0.
    pub fn advance(&mut self, now: u64)
        requires
            old(self).wf(),
        ensures
            *final(self) == old(self).advance_spec(now),
            final(self).wf(),
            final(self).frame < final(self).spritesheet@.len(),
            now <= old(self).frame_start + old(self).frame_time ==> final(self).frame
                == old(self).frame,
            (old(self).frame == old(self).spritesheet@.len() - 1 && now > old(self).frame_start
                + old(self).frame_time) ==> final(self).frame == 0,
    {
        if now > self.frame_start && now - self.frame_start > self.frame_time {
            if self.frame < self.spritesheet.len() - 1 {
                self.frame = self.frame + 1;
            } else {
                self.frame = 0;
            }
            self.frame_start = now;
        }
    }
}

} // verus!
