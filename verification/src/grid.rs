//! The land grid: a rectangular, row-major collection of tiles, built once
//! at startup (with optionally randomized extents) and advanced as a whole
//! on every logical update.

use vstd::prelude::*;

use crate::tile::LandLocation;
use crate::tile::LandTile;
use crate::tile::rows;
use crate::tile::sheet_view;

verus! {

/// Smallest number of columns or rows a randomized land may get.
pub const LAND_EXTENT_MIN: usize = 1;

/// One past the largest number of columns or rows a randomized land may get.
pub const LAND_EXTENT_MAX: usize = 6;

/// Well-formedness of a land: non-empty, rectangular, every tile well
/// formed and addressed by its own column and row.
pub open spec fn land_wf(land: Vec<Vec<LandTile>>) -> bool {
    &&& land@.len() > 0
    &&& land@[0]@.len() > 0
    &&& forall|r: int| 0 <= r < land@.len() ==> (#[trigger] land@[r]@).len() == land@[0]@.len()
    &&& forall|r: int, c: int|
        0 <= r < land@.len() && 0 <= c < land@[r]@.len() ==> {
            let tile = #[trigger] land@[r]@[c];
            &&& tile.wf()
            &&& tile.coords.0 == c
            &&& tile.coords.1 == r
        }
}

/// A land as `init_land(x, y, ..)` leaves it: `y` rows of `x` freshly
/// constructed tiles, each showing frame 0 of the shared sheet since `now`
/// and addressed by its column and row.
pub open spec fn land_fresh(
    land: Vec<Vec<LandTile>>,
    x: int,
    y: int,
    sheet: Seq<Seq<Seq<[u8; 4]>>>,
    now: u64,
    frame_time: u64,
) -> bool {
    &&& land@.len() == y
    &&& forall|r: int| 0 <= r < y ==> (#[trigger] land@[r]@).len() == x
    &&& forall|r: int, c: int|
        0 <= r < y && 0 <= c < x ==> {
            let tile = #[trigger] land@[r]@[c];
            &&& tile.wf()
            &&& sheet_view(tile.spritesheet) == sheet
            &&& tile.frame == 0
            &&& tile.frame_start == now
            &&& tile.frame_time == frame_time
            &&& tile.coords.0 == c
            &&& tile.coords.1 == r
        }
}

/// An exact copy of one pixel row.
fn copy_row(row: &Vec<[u8; 4]>) -> (out: Vec<[u8; 4]>)
    ensures
        out@ == row@,
{
    let mut out: Vec<[u8; 4]> = Vec::new();
    let mut j: usize = 0;
    while j < row.len()
        invariant
            j <= row@.len(),
            out@.len() == j,
            forall|k: int| 0 <= k < j ==> out@[k] == row@[k],
        decreases row@.len() - j,
    {
        out.push(row[j]);
        j = j + 1;
    }
    proof {
        assert(out@ =~= row@);
    }
    out
}

/// An exact copy of one frame, row by row.
fn copy_frame(frame: &Vec<Vec<[u8; 4]>>) -> (out: Vec<Vec<[u8; 4]>>)
    ensures
        rows(out) == rows(*frame),
{
    let mut out: Vec<Vec<[u8; 4]>> = Vec::new();
    let mut i: usize = 0;
    while i < frame.len()
        invariant
            i <= frame@.len(),
            out@.len() == i,
            forall|k: int| 0 <= k < i ==> (#[trigger] out@[k])@ == frame@[k]@,
        decreases frame@.len() - i,
    {
        out.push(copy_row(&frame[i]));
        i = i + 1;
    }
    proof {
        assert(rows(out) =~~= rows(*frame));
    }
    out
}

/// An exact copy of a sprite sheet, frame by frame.
fn copy_sheet(sheet: &Vec<Vec<Vec<[u8; 4]>>>) -> (out: Vec<Vec<Vec<[u8; 4]>>>)
    ensures
        sheet_view(out) == sheet_view(*sheet),
{
    let mut out: Vec<Vec<Vec<[u8; 4]>>> = Vec::new();
    let mut i: usize = 0;
    while i < sheet.len()
        invariant
            i <= sheet@.len(),
            out@.len() == i,
            forall|k: int| 0 <= k < i ==> rows(#[trigger] out@[k]) == rows(sheet@[k]),
        decreases sheet@.len() - i,
    {
        out.push(copy_frame(&sheet[i]));
        i = i + 1;
    }
    proof {
        assert(sheet_view(out) =~~= sheet_view(*sheet));
    }
    out
}

/// Builds a land of `y` rows with `x` tiles each. Every tile gets its own
/// copy of `spritesheet`, starts at frame 0 at time `now`, and is addressed
/// by its column and row.
pub fn init_land(x: usize, y: usize, spritesheet: &Vec<Vec<Vec<[u8; 4]>>>, now: u64) -> (land:
    Vec<Vec<LandTile>>)
    requires
        x >= 1,
        y >= 1,
        spritesheet@.len() > 0,
        spritesheet@[0]@.len() > 0,
    ensures
        land_wf(land),
        land_fresh(
            land,
            x as int,
            y as int,
            sheet_view(*spritesheet),
            now,
            crate::FRAME_TIME_MICROS,
        ),
{
    let mut land: Vec<Vec<LandTile>> = Vec::new();
    let mut yi: usize = 0;
    while yi < y
        invariant
            yi <= y,
            x >= 1,
            spritesheet@.len() > 0,
            spritesheet@[0]@.len() > 0,
            land@.len() == yi,
            forall|r: int| 0 <= r < yi ==> (#[trigger] land@[r]@).len() == x,
            forall|r: int, c: int|
                0 <= r < yi && 0 <= c < x ==> {
                    let tile = #[trigger] land@[r]@[c];
                    &&& tile.wf()
                    &&& sheet_view(tile.spritesheet) == sheet_view(*spritesheet)
                    &&& tile.frame == 0
                    &&& tile.frame_start == now
                    &&& tile.frame_time == crate::FRAME_TIME_MICROS
                    &&& tile.coords.0 == c
                    &&& tile.coords.1 == r
                },
        decreases y - yi,
    {
        let mut row: Vec<LandTile> = Vec::new();
        let mut xi: usize = 0;
        while xi < x
            invariant
                xi <= x,
                spritesheet@.len() > 0,
                spritesheet@[0]@.len() > 0,
                row@.len() == xi,
                forall|c: int|
                    0 <= c < xi ==> {
                        let tile = #[trigger] row@[c];
                        &&& tile.wf()
                        &&& sheet_view(tile.spritesheet) == sheet_view(*spritesheet)
                        &&& tile.frame == 0
                        &&& tile.frame_start == now
                        &&& tile.frame_time == crate::FRAME_TIME_MICROS
                        &&& tile.coords.0 == c
                        &&& tile.coords.1 == yi
                    },
            decreases x - xi,
        {
            let sheet = copy_sheet(spritesheet);
            proof {
                assert(sheet_view(sheet).len() == sheet@.len());
                assert(sheet_view(sheet)[0] == rows(sheet@[0]));
                assert(rows(sheet@[0]).len() == sheet@[0]@.len());
                assert(sheet_view(*spritesheet)[0] == rows(spritesheet@[0]));
            }
            let tile = LandTile::new(
                sheet,
                LandLocation(xi, yi),
                now,
                crate::FRAME_TIME_MICROS,
            );
            row.push(tile);
            xi = xi + 1;
        }
        land.push(row);
        yi = yi + 1;
    }
    land
}

/// Runs one animation check on every tile at time `now`: each tile of the
/// result is exactly its old value advanced once, and the grid's shape is
/// unchanged. Every resulting frame index is in range.
pub fn update_land(land: &mut Vec<Vec<LandTile>>, now: u64)
    requires
        forall|r: int, c: int|
            0 <= r < old(land)@.len() && 0 <= c < old(land)@[r]@.len()
                ==> (#[trigger] old(land)@[r]@[c]).wf(),
    ensures
        final(land)@.len() == old(land)@.len(),
        forall|r: int|
            0 <= r < old(land)@.len() ==> (#[trigger] final(land)@[r]@).len()
                == old(land)@[r]@.len(),
        forall|r: int, c: int|
            0 <= r < old(land)@.len() && 0 <= c < old(land)@[r]@.len()
                ==> (#[trigger] final(land)@[r]@[c]) == old(land)@[r]@[c].advance_spec(now),
        forall|r: int, c: int|
            0 <= r < final(land)@.len() && 0 <= c < final(land)@[r]@.len()
                ==> (#[trigger] final(land)@[r]@[c]).wf(),
{
    let ghost land0 = *land;
    let mut r: usize = 0;
    while r < land.len()
        invariant
            r <= land0@.len(),
            land@.len() == land0@.len(),
            forall|k: int, c: int|
                0 <= k < land0@.len() && 0 <= c < land0@[k]@.len() ==> (#[trigger] land0@[k]@[c]).wf(),
            forall|k: int| r <= k < land0@.len() ==> #[trigger] land@[k] == land0@[k],
            forall|k: int|
                0 <= k < r ==> (#[trigger] land@[k]@).len() == land0@[k]@.len(),
            forall|k: int, c: int|
                0 <= k < r && 0 <= c < land0@[k]@.len() ==> (#[trigger] land@[k]@[c])
                    == land0@[k]@[c].advance_spec(now),
        decreases land0@.len() - r,
    {
        let ghost land_pre = *land;
        let mut src_row: Vec<LandTile> = land.remove(r);
        let ghost row0 = land_pre@[r as int];
        let mut row: Vec<LandTile> = Vec::new();
        while src_row.len() > 0
            invariant
                row@.len() + src_row@.len() == row0@.len(),
                forall|k: int, c: int|
                    0 <= k < land0@.len() && 0 <= c < land0@[k]@.len() ==> (#[trigger] land0@[k]@[c]).wf(),
                row0 == land0@[r as int],
                r < land0@.len(),
                forall|k: int| 0 <= k < row@.len() ==> (#[trigger] row@[k]) == row0@[k].advance_spec(
                    now,
                ),
                forall|k: int|
                    0 <= k < src_row@.len() ==> (#[trigger] src_row@[k]) == row0@[row@.len() + k],
            decreases src_row@.len(),
        {
            let ghost src_pre = src_row@;
            let mut tile: LandTile = src_row.remove(0);
            proof {
                src_pre.remove_ensures(0);
            }
            tile.advance(now);
            row.push(tile);
        }
        land.insert(r, row);
        proof {
            land_pre@.remove(r as int).insert_ensures(r as int, row);
            land_pre@.remove_ensures(r as int);
            assert(land@ =~= land_pre@.update(r as int, row));
        }
        r = r + 1;
    }
}

/// Relies on rand 0.8's `Rng::gen_range` on a half-open integer range: a
/// uniformly distributed value in `[low, high)`. It panics on an empty
/// range, which the precondition rules out.
#[verifier::external_body]
fn gen_extent(low: usize, high: usize) -> (value: usize)
    requires
        low < high,
    ensures
        low <= value < high,
{
    rand::Rng::gen_range(&mut rand::thread_rng(), low..high)
}

/// Draws the two grid extents for a fresh land: columns and rows, each
/// uniform in `[LAND_EXTENT_MIN, LAND_EXTENT_MAX)`.
pub fn random_land_extents() -> (extents: (usize, usize))
    ensures
        LAND_EXTENT_MIN <= extents.0 < LAND_EXTENT_MAX,
        LAND_EXTENT_MIN <= extents.1 < LAND_EXTENT_MAX,
{
    (gen_extent(LAND_EXTENT_MIN, LAND_EXTENT_MAX), gen_extent(LAND_EXTENT_MIN, LAND_EXTENT_MAX))
}

/// Builds a land whose extents are drawn at random, each uniform in
/// `[LAND_EXTENT_MIN, LAND_EXTENT_MAX)`; whatever the draw, the result is a
/// well-formed fresh land of those extents.
pub fn init_random_land(spritesheet: &Vec<Vec<Vec<[u8; 4]>>>, now: u64) -> (land: Vec<
    Vec<LandTile>,
>)
    requires
        spritesheet@.len() > 0,
        spritesheet@[0]@.len() > 0,
    ensures
        land_wf(land),
        LAND_EXTENT_MIN <= land@.len() < LAND_EXTENT_MAX,
        LAND_EXTENT_MIN <= land@[0]@.len() < LAND_EXTENT_MAX,
        land_fresh(
            land,
            land@[0]@.len() as int,
            land@.len() as int,
            sheet_view(*spritesheet),
            now,
            crate::FRAME_TIME_MICROS,
        ),
{
    let (x, y) = random_land_extents();
    init_land(x, y, spritesheet, now)
}

} // verus!
