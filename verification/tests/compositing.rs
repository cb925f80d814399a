use isoland::grid::init_land;
use isoland::grid::update_land;
use isoland::iso::background;
use isoland::iso::clear_screen;
use isoland::iso::draw_land;
use isoland::iso::draw_sprite;

const RED: [u8; 4] = [255, 0, 0, 255];

fn solid_frame(w: usize, h: usize, pixel: [u8; 4]) -> Vec<Vec<[u8; 4]>> {
    let mut frame = Vec::new();
    for _ in 0..h {
        let mut row = Vec::new();
        for _ in 0..w {
            row.push(pixel);
        }
        frame.push(row);
    }
    frame
}

#[test]
fn clear_screen_is_all_background() {
    let screen = clear_screen(8, 5);
    assert_eq!(screen.len(), 5);
    for row in &screen {
        assert_eq!(row.len(), 8);
        for pixel in row {
            assert_eq!(*pixel, background());
        }
    }
}

#[test]
fn blit_fully_outside_leaves_buffer_unmodified() {
    let mut screen = clear_screen(4, 4);
    let sprite = solid_frame(2, 2, RED);
    draw_sprite(&mut screen, &sprite, (10, 10));
    assert_eq!(screen, clear_screen(4, 4));
}

#[test]
fn blit_partially_overlapping_modifies_only_in_bounds_pixels() {
    let mut screen = clear_screen(4, 4);
    let sprite = solid_frame(2, 2, RED);
    draw_sprite(&mut screen, &sprite, (3, 3));
    for i in 0..4 {
        for j in 0..4 {
            if i == 3 && j == 3 {
                assert_eq!(screen[i][j], RED);
            } else {
                assert_eq!(screen[i][j], background());
            }
        }
    }
}

#[test]
fn blit_inside_copies_every_sprite_pixel() {
    let mut screen = clear_screen(6, 6);
    let mut sprite = solid_frame(2, 2, RED);
    sprite[1][0] = [0, 255, 0, 255];
    draw_sprite(&mut screen, &sprite, (2, 3));
    for i in 0..6 {
        for j in 0..6 {
            let expected = if (3..5).contains(&i) && (2..4).contains(&j) {
                sprite[i - 3][j - 2]
            } else {
                background()
            };
            assert_eq!(screen[i][j], expected);
        }
    }
}

#[test]
fn two_by_two_land_composites_four_blocks() {
    // A 2x2 land of 16x16 one-frame sprites on a 200x200 buffer. With
    // w/8 = h/8 = 2 and w/16 = h/16 = 1: x_start = y_start = 96, and the
    // tiles land at (96,96), (100,98), (92,98) and (96,100).
    let sheet = vec![solid_frame(16, 16, RED)];
    let mut land = init_land(2, 2, &sheet, 0);
    // Past one full frame duration: every tile advances once (and wraps
    // back to its single frame).
    update_land(&mut land, 600_000);
    for row in &land {
        for tile in row {
            assert_eq!(tile.frame, 0);
            assert_eq!(tile.frame_start, 600_000);
        }
    }
    let mut screen = clear_screen(200, 200);
    draw_land(&mut screen, &land);
    let blocks = [(96usize, 96usize), (100, 98), (92, 98), (96, 100)];
    for i in 0..200 {
        for j in 0..200 {
            let covered = blocks
                .iter()
                .any(|&(x, y)| (y..y + 16).contains(&i) && (x..x + 16).contains(&j));
            let expected = if covered { RED } else { background() };
            assert_eq!(screen[i][j], expected, "pixel at row {i}, column {j}");
        }
    }
}
