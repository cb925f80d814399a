//! The isometric projector and compositor: maps grid addresses to screen
//! pixel coordinates with the diamond projection, and blits each tile's
//! current animation frame into the pixel buffer in row-major draw order,
//! clipping per pixel at the buffer's edge.

use vstd::prelude::*;

use crate::grid::land_wf;
use crate::tile::LandTile;
use crate::tile::rows;

verus! {

/// The background color the buffer is cleared to: RGBA.
pub open spec fn spec_background() -> [u8; 4] {
    [48u8, 47u8, 55u8, 0u8]
}

/// The background color as a value.
pub fn background() -> (pixel: [u8; 4])
    ensures
        pixel == spec_background(),
{
    [48, 47, 55, 0]
}

/// A buffer of `height` rows of `width` background pixels.
pub open spec fn spec_cleared(width: int, height: int) -> Seq<Seq<[u8; 4]>> {
    Seq::new(height as nat, |i: int| Seq::new(width as nat, |j: int| spec_background()))
}

/// Builds a fresh buffer of `height` rows of `width` background pixels.
pub fn clear_screen(width: usize, height: usize) -> (screen: Vec<Vec<[u8; 4]>>)
    ensures
        rows(screen) == spec_cleared(width as int, height as int),
        screen@.len() == height,
        forall|i: int| 0 <= i < height ==> (#[trigger] screen@[i]@).len() == width,
{
    let mut screen: Vec<Vec<[u8; 4]>> = Vec::new();
    let mut i: usize = 0;
    while i < height
        invariant
            i <= height,
            screen@.len() == i,
            forall|k: int|
                0 <= k < i ==> (#[trigger] screen@[k])@ == Seq::new(
                    width as nat,
                    |j: int| spec_background(),
                ),
        decreases height - i,
    {
        let mut row: Vec<[u8; 4]> = Vec::new();
        let mut j: usize = 0;
        while j < width
            invariant
                j <= width,
                row@.len() == j,
                forall|k: int| 0 <= k < j ==> row@[k] == spec_background(),
            decreases width - j,
        {
            row.push(background());
            j = j + 1;
        }
        proof {
            assert(row@ =~= Seq::new(width as nat, |j: int| spec_background()));
        }
        screen.push(row);
        i = i + 1;
    }
    proof {
        assert(rows(screen) =~~= spec_cleared(width as int, height as int));
        assert(forall|k: int|
            0 <= k < height ==> (#[trigger] screen@[k]@).len() == width);
    }
    screen
}

/// True when blitting `sprite` at `(x, y)` writes the buffer cell in row
/// `i`, column `j`.
pub open spec fn covers(sprite: Seq<Seq<[u8; 4]>>, x: int, y: int, i: int, j: int) -> bool {
    &&& y <= i < y + sprite.len()
    &&& x <= j
    &&& j - x < sprite[i - y].len()
}

/// The buffer after `sprite` is blitted at `(x, y)`: every cell the sprite
/// covers takes the sprite's pixel, every other cell keeps its value, and
/// sprite pixels that fall outside the buffer are dropped.
pub open spec fn spec_blit(
    screen: Seq<Seq<[u8; 4]>>,
    sprite: Seq<Seq<[u8; 4]>>,
    x: int,
    y: int,
) -> Seq<Seq<[u8; 4]>> {
    Seq::new(
        screen.len(),
        |i: int|
            Seq::new(
                screen[i].len(),
                |j: int|
                    if covers(sprite, x, y, i, j) {
                        sprite[i - y][j - x]
                    } else {
                        screen[i][j]
                    },
            ),
    )
}

/// Like `covers`, restricted to the first `n` sprite rows.
spec fn covers_upto(sprite: Seq<Seq<[u8; 4]>>, x: int, y: int, i: int, j: int, n: int) -> bool {
    &&& y <= i < y + n
    &&& i - y < sprite.len()
    &&& x <= j
    &&& j - x < sprite[i - y].len()
}

/// `dst` with `src` laid over it starting at column `x`: cells `x` up to
/// `x + src.len()` (clipped to `dst`'s length) take `src`'s pixels, the
/// rest keep `dst`'s.
fn overlay_row(dst: &Vec<[u8; 4]>, src: &Vec<[u8; 4]>, x: usize) -> (out: Vec<[u8; 4]>)
    ensures
        out@.len() == dst@.len(),
        forall|j: int|
            0 <= j < dst@.len() ==> out@[j] == (if x <= j && j - x < src@.len() {
                src@[j - x]
            } else {
                dst@[j]
            }),
{
    let mut out: Vec<[u8; 4]> = Vec::new();
    let mut j: usize = 0;
    while j < dst.len()
        invariant
            j <= dst@.len(),
            out@.len() == j,
            forall|k: int|
                0 <= k < j ==> out@[k] == (if x <= k && k - x < src@.len() {
                    src@[k - x]
                } else {
                    dst@[k]
                }),
        decreases dst@.len() - j,
    {
        if j >= x && j - x < src.len() {
            out.push(src[j - x]);
        } else {
            out.push(dst[j]);
        }
        j = j + 1;
    }
    out
}

/// Blits `sprite` into `screen` with its top-left corner at `pos`
/// (column, row): every covered cell inside the buffer takes the sprite's
/// pixel, every other cell is untouched, and sprite pixels that fall
/// outside the buffer are silently dropped.
#[verifier::loop_isolation(false)]
pub fn draw_sprite(screen: &mut Vec<Vec<[u8; 4]>>, sprite: &Vec<Vec<[u8; 4]>>, pos: (usize, usize))
    ensures
        rows(*final(screen)) == spec_blit(
            rows(*old(screen)),
            rows(*sprite),
            pos.0 as int,
            pos.1 as int,
        ),
        final(screen)@.len() == old(screen)@.len(),
        forall|i: int|
            0 <= i < old(screen)@.len() ==> (#[trigger] final(screen)@[i]@).len()
                == old(screen)@[i]@.len(),
{
    let x = pos.0;
    let y = pos.1;
    let mut r: usize = 0;
    while r < sprite.len()
        invariant
            r <= sprite@.len(),
            screen@.len() == old(screen)@.len(),
            forall|i: int|
                0 <= i < screen@.len() ==> (#[trigger] screen@[i]@).len()
                    == old(screen)@[i]@.len(),
            forall|i: int, j: int|
                0 <= i < screen@.len() && 0 <= j < screen@[i]@.len() ==> #[trigger] screen@[i]@[j]
                    == (if covers_upto(rows(*sprite), x as int, y as int, i, j, r as int) {
                    sprite@[i - y]@[j - x]
                } else {
                    old(screen)@[i]@[j]
                }),
        decreases sprite@.len() - r,
    {
        if y < screen.len() && r < screen.len() - y {
            let sy = y + r;
            let new_row = overlay_row(&screen[sy], &sprite[r], x);
            screen[sy] = new_row;
        }
        r = r + 1;
    }
    proof {
        assert(rows(*screen) =~~= spec_blit(
            rows(*old(screen)),
            rows(*sprite),
            pos.0 as int,
            pos.1 as int,
        ));
    }
}

/// Law: a blit keeps the buffer's shape and modifies only the cells the
/// sprite covers — each covered cell takes the sprite's pixel, every
/// other cell keeps its value.
pub proof fn lemma_blit_modifies_only_covered(
    screen: Seq<Seq<[u8; 4]>>,
    sprite: Seq<Seq<[u8; 4]>>,
    x: int,
    y: int,
)
    ensures
        spec_blit(screen, sprite, x, y).len() == screen.len(),
        forall|i: int|
            0 <= i < screen.len() ==> #[trigger] spec_blit(screen, sprite, x, y)[i].len()
                == screen[i].len(),
        forall|i: int, j: int|
            0 <= i < screen.len() && 0 <= j < screen[i].len() && !covers(sprite, x, y, i, j)
                ==> spec_blit(screen, sprite, x, y)[i][j] == screen[i][j],
        forall|i: int, j: int|
            0 <= i < screen.len() && 0 <= j < screen[i].len() && covers(sprite, x, y, i, j)
                ==> spec_blit(screen, sprite, x, y)[i][j] == sprite[i - y][j - x],
{
}

/// Law: a blit whose destination rectangle covers no cell of the buffer
/// leaves the buffer exactly as it was.
pub proof fn lemma_blit_outside_unchanged(
    screen: Seq<Seq<[u8; 4]>>,
    sprite: Seq<Seq<[u8; 4]>>,
    x: int,
    y: int,
)
    requires
        forall|i: int, j: int|
            0 <= i < screen.len() && 0 <= j < screen[i].len() ==> !#[trigger] covers(
                sprite,
                x,
                y,
                i,
                j,
            ),
    ensures
        spec_blit(screen, sprite, x, y) == screen,
{
    assert(spec_blit(screen, sprite, x, y) =~~= screen);
}

/// Horizontal origin of the land on screen.
pub open spec fn spec_x_start(screen_w: int, cols: int, w: int) -> int {
    screen_w / 2 - cols * (w / 8)
}

/// Vertical origin of the land on screen.
pub open spec fn spec_y_start(screen_h: int, grid_rows: int, h: int) -> int {
    screen_h / 2 - grid_rows * (h / 8)
}

/// Horizontal screen coordinate of the tile at grid address `(gx, gy)`:
/// the diamond projection, with the truncating divisions of the scaling
/// factors kept exactly.
pub open spec fn spec_tile_x(x_start: int, w: int, h: int, gx: int, gy: int) -> int {
    x_start + gx * 2 * (w / 8) - gy * 2 * (h / 8)
}

/// Vertical screen coordinate of the tile at grid address `(gx, gy)`.
pub open spec fn spec_tile_y(y_start: int, w: int, h: int, gx: int, gy: int) -> int {
    y_start + gy * 2 * (h / 16) + gx * 2 * (w / 16)
}

/// The machine-arithmetic side conditions under which the projection of
/// grid address `(gx, gy)` is computed without underflow or overflow.
pub open spec fn proj_ok(
    screen_w: int,
    screen_h: int,
    cols: int,
    grid_rows: int,
    w: int,
    h: int,
    gx: int,
    gy: int,
) -> bool {
    &&& cols * (w / 8) <= screen_w / 2
    &&& grid_rows * (h / 8) <= screen_h / 2
    &&& 2 * gx <= usize::MAX
    &&& 2 * gy <= usize::MAX
    &&& spec_x_start(screen_w, cols, w) + gx * 2 * (w / 8) <= usize::MAX
    &&& spec_tile_x(spec_x_start(screen_w, cols, w), w, h, gx, gy) >= 0
    &&& spec_tile_y(spec_y_start(screen_h, grid_rows, h), w, h, gx, gy) <= usize::MAX
}

/// Projects a tile from a precomputed land origin.
fn project_from_start(x_start: usize, y_start: usize, w: usize, h: usize, gx: usize, gy: usize) -> (pos: (
    usize,
    usize,
))
    requires
        2 * (gx as int) <= usize::MAX,
        2 * (gy as int) <= usize::MAX,
        x_start + (gx as int) * 2 * ((w as int) / 8) <= usize::MAX,
        spec_tile_x(x_start as int, w as int, h as int, gx as int, gy as int) >= 0,
        spec_tile_y(y_start as int, w as int, h as int, gx as int, gy as int) <= usize::MAX,
    ensures
        pos.0 == spec_tile_x(x_start as int, w as int, h as int, gx as int, gy as int),
        pos.1 == spec_tile_y(y_start as int, w as int, h as int, gx as int, gy as int),
{
    let x = x_start + gx * 2 * (w / 8) - gy * 2 * (h / 8);
    let y = y_start + gy * 2 * (h / 16) + gx * 2 * (w / 16);
    (x, y)
}

/// Projects the tile at grid address `(gx, gy)` to its screen pixel
/// coordinate, for a land of `cols` by `grid_rows` tiles of sprite size
/// `w` by `h` on a `screen_w` by `screen_h` buffer.
pub fn project(
    screen_w: usize,
    screen_h: usize,
    cols: usize,
    grid_rows: usize,
    w: usize,
    h: usize,
    gx: usize,
    gy: usize,
) -> (pos: (usize, usize))
    requires
        proj_ok(
            screen_w as int,
            screen_h as int,
            cols as int,
            grid_rows as int,
            w as int,
            h as int,
            gx as int,
            gy as int,
        ),
    ensures
        pos.0 == spec_tile_x(
            spec_x_start(screen_w as int, cols as int, w as int),
            w as int,
            h as int,
            gx as int,
            gy as int,
        ),
        pos.1 == spec_tile_y(
            spec_y_start(screen_h as int, grid_rows as int, h as int),
            w as int,
            h as int,
            gx as int,
            gy as int,
        ),
{
    let x_start = screen_w / 2 - cols * (w / 8);
    let y_start = screen_h / 2 - grid_rows * (h / 8);
    project_from_start(x_start, y_start, w, h, gx, gy)
}

/// The current animation frame of a tile, as pixel rows.
pub open spec fn frame_rows(tile: LandTile) -> Seq<Seq<[u8; 4]>> {
    rows(tile.spritesheet@[tile.frame as int])
}

/// The buffer after the first `n` tiles of one land row are blitted, in
/// order.
pub open spec fn spec_draw_row_upto(
    screen: Seq<Seq<[u8; 4]>>,
    row: Seq<LandTile>,
    n: int,
    x_start: int,
    y_start: int,
    w: int,
    h: int,
) -> Seq<Seq<[u8; 4]>>
    decreases n,
{
    if n <= 0 {
        screen
    } else {
        let tile = row[n - 1];
        spec_blit(
            spec_draw_row_upto(screen, row, n - 1, x_start, y_start, w, h),
            frame_rows(tile),
            spec_tile_x(x_start, w, h, tile.coords.0 as int, tile.coords.1 as int),
            spec_tile_y(y_start, w, h, tile.coords.0 as int, tile.coords.1 as int),
        )
    }
}

/// The buffer after the first `n` land rows are blitted, row-major.
pub open spec fn spec_draw_upto(
    screen: Seq<Seq<[u8; 4]>>,
    land: Seq<Vec<LandTile>>,
    n: int,
    x_start: int,
    y_start: int,
    w: int,
    h: int,
) -> Seq<Seq<[u8; 4]>>
    decreases n,
{
    if n <= 0 {
        screen
    } else {
        spec_draw_row_upto(
            spec_draw_upto(screen, land, n - 1, x_start, y_start, w, h),
            land[n - 1]@,
            land[n - 1]@.len() as int,
            x_start,
            y_start,
            w,
            h,
        )
    }
}

/// Composites the whole land into the buffer: every tile's current frame
/// is blitted at its projected coordinate, in row-major order, so that
/// later tiles overdraw earlier ones where sprites overlap. The land's
/// origin is computed from the first tile's sprite size, as are all tile
/// offsets.
#[verifier::loop_isolation(false)]
pub fn draw_land(screen: &mut Vec<Vec<[u8; 4]>>, land: &Vec<Vec<LandTile>>)
    requires
        land_wf(*land),
        old(screen)@.len() > 0,
        forall|r: int, c: int|
            0 <= r < land@.len() && 0 <= c < land@[r]@.len() ==> proj_ok(
                old(screen)@[0]@.len() as int,
                old(screen)@.len() as int,
                land@[0]@.len() as int,
                land@.len() as int,
                land@[0]@[0].width as int,
                land@[0]@[0].height as int,
                c,
                r,
            ),
    ensures
        rows(*final(screen)) == spec_draw_upto(
            rows(*old(screen)),
            land@,
            land@.len() as int,
            spec_x_start(
                old(screen)@[0]@.len() as int,
                land@[0]@.len() as int,
                land@[0]@[0].width as int,
            ),
            spec_y_start(
                old(screen)@.len() as int,
                land@.len() as int,
                land@[0]@[0].height as int,
            ),
            land@[0]@[0].width as int,
            land@[0]@[0].height as int,
        ),
        final(screen)@.len() == old(screen)@.len(),
        forall|i: int|
            0 <= i < old(screen)@.len() ==> (#[trigger] final(screen)@[i]@).len()
                == old(screen)@[i]@.len(),
{
    let height = land[0][0].height;
    let width = land[0][0].width;
    proof {
        assert(proj_ok(
            old(screen)@[0]@.len() as int,
            old(screen)@.len() as int,
            land@[0]@.len() as int,
            land@.len() as int,
            width as int,
            height as int,
            0,
            0,
        ));
    }
    let x_start = screen[0].len() / 2 - land[0].len() * (width / 8);
    let y_start = screen.len() / 2 - land.len() * (height / 8);
    let ghost screen0 = rows(*old(screen));
    let ghost xs = x_start as int;
    let ghost ys = y_start as int;
    let ghost wi = width as int;
    let ghost hi = height as int;
    let mut r: usize = 0;
    while r < land.len()
        invariant
            r <= land@.len(),
            screen@.len() == old(screen)@.len(),
            forall|i: int|
                0 <= i < screen@.len() ==> (#[trigger] screen@[i]@).len()
                    == old(screen)@[i]@.len(),
            rows(*screen) == spec_draw_upto(screen0, land@, r as int, xs, ys, wi, hi),
        decreases land@.len() - r,
    {
        let row = &land[r];
        let mut c: usize = 0;
        while c < row.len()
            invariant
                c <= row@.len(),
                screen@.len() == old(screen)@.len(),
                forall|i: int|
                    0 <= i < screen@.len() ==> (#[trigger] screen@[i]@).len()
                        == old(screen)@[i]@.len(),
                rows(*screen) == spec_draw_row_upto(
                    spec_draw_upto(screen0, land@, r as int, xs, ys, wi, hi),
                    land@[r as int]@,
                    c as int,
                    xs,
                    ys,
                    wi,
                    hi,
                ),
            decreases row@.len() - c,
        {
            let tile = &row[c];
            proof {
                assert(land@[r as int]@[c as int].coords.0 == c);
                assert(proj_ok(
                    old(screen)@[0]@.len() as int,
                    old(screen)@.len() as int,
                    land@[0]@.len() as int,
                    land@.len() as int,
                    wi,
                    hi,
                    c as int,
                    r as int,
                ));
            }
            let pos = project_from_start(
                x_start,
                y_start,
                width,
                height,
                tile.coords.0,
                tile.coords.1,
            );
            draw_sprite(screen, &tile.spritesheet[tile.frame], pos);
            c = c + 1;
        }
        r = r + 1;
    }
}

} // verus!
