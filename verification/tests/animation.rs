use isoland::tile::LandLocation;
use isoland::tile::LandTile;

fn solid_frame(w: usize, h: usize, pixel: [u8; 4]) -> Vec<Vec<[u8; 4]>> {
    let mut frame = Vec::new();
    for _ in 0..h {
        let mut row = Vec::new();
        for _ in 0..w {
            row.push(pixel);
        }
        frame.push(row);
    }
    frame
}

fn three_frame_sheet() -> Vec<Vec<Vec<[u8; 4]>>> {
    vec![
        solid_frame(2, 2, [10, 0, 0, 255]),
        solid_frame(2, 2, [0, 10, 0, 255]),
        solid_frame(2, 2, [0, 0, 10, 255]),
    ]
}

#[test]
fn advance_before_duration_changes_nothing() {
    let mut tile = LandTile::new(three_frame_sheet(), LandLocation(0, 0), 1000, 500_000);
    assert_eq!(tile.frame, 0);
    tile.advance(1000);
    assert_eq!(tile.frame, 0);
    assert_eq!(tile.frame_start, 1000);
    // Exactly the frame duration elapsed: still a no-op, the check is strict.
    tile.advance(1000 + 500_000);
    assert_eq!(tile.frame, 0);
    assert_eq!(tile.frame_start, 1000);
}

#[test]
fn advance_past_duration_moves_one_step() {
    let mut tile = LandTile::new(three_frame_sheet(), LandLocation(0, 0), 1000, 500_000);
    tile.advance(1000 + 500_001);
    assert_eq!(tile.frame, 1);
    assert_eq!(tile.frame_start, 1000 + 500_001);
    // A very late check still moves a single step.
    tile.advance(1000 + 9_000_000);
    assert_eq!(tile.frame, 2);
}

#[test]
fn advance_index_stays_in_range() {
    let mut tile = LandTile::new(three_frame_sheet(), LandLocation(0, 0), 0, 500_000);
    let mut now: u64 = 0;
    for _ in 0..10 {
        now += 600_000;
        tile.advance(now);
        assert!(tile.frame < 3);
    }
}

#[test]
fn advance_wraps_to_zero_from_last_frame() {
    let mut tile = LandTile::new(three_frame_sheet(), LandLocation(0, 0), 0, 500_000);
    tile.advance(600_000);
    tile.advance(1_200_000);
    assert_eq!(tile.frame, 2);
    tile.advance(1_800_000);
    assert_eq!(tile.frame, 0);
}

#[test]
fn one_frame_sheet_wraps_to_itself() {
    let sheet = vec![solid_frame(2, 2, [9, 9, 9, 255])];
    let mut tile = LandTile::new(sheet, LandLocation(0, 0), 0, 500_000);
    tile.advance(600_000);
    assert_eq!(tile.frame, 0);
    assert_eq!(tile.frame_start, 600_000);
}
