use isoland::FRAME_TIME_MICROS;
use isoland::grid::init_land;
use isoland::grid::init_random_land;
use isoland::grid::random_land_extents;

fn one_frame_sheet() -> Vec<Vec<Vec<[u8; 4]>>> {
    let mut frame = Vec::new();
    for _ in 0..4 {
        let mut row = Vec::new();
        for _ in 0..4 {
            row.push([1, 2, 3, 255]);
        }
        frame.push(row);
    }
    vec![frame]
}

#[test]
fn build_1x1_yields_one_tile_at_origin() {
    let sheet = one_frame_sheet();
    let land = init_land(1, 1, &sheet, 42);
    assert_eq!(land.len(), 1);
    assert_eq!(land[0].len(), 1);
    let tile = &land[0][0];
    assert_eq!(tile.coords.0, 0);
    assert_eq!(tile.coords.1, 0);
    assert_eq!(tile.frame, 0);
    assert_eq!(tile.frame_start, 42);
    assert_eq!(tile.frame_time, FRAME_TIME_MICROS);
    assert_eq!(tile.width, 4);
    assert_eq!(tile.height, 4);
}

#[test]
fn build_5x3_yields_15_unique_locations_spanning_grid() {
    let sheet = one_frame_sheet();
    let land = init_land(5, 3, &sheet, 0);
    assert_eq!(land.len(), 3);
    let mut seen: Vec<(usize, usize)> = Vec::new();
    for (r, row) in land.iter().enumerate() {
        assert_eq!(row.len(), 5);
        for (c, tile) in row.iter().enumerate() {
            assert_eq!(tile.coords.0, c);
            assert_eq!(tile.coords.1, r);
            let loc = (tile.coords.0, tile.coords.1);
            assert!(!seen.contains(&loc));
            seen.push(loc);
        }
    }
    assert_eq!(seen.len(), 15);
    for c in 0..5 {
        for r in 0..3 {
            assert!(seen.contains(&(c, r)));
        }
    }
}

#[test]
fn tiles_own_equal_sprite_copies() {
    let sheet = one_frame_sheet();
    let land = init_land(2, 2, &sheet, 0);
    for row in &land {
        for tile in row {
            assert_eq!(tile.spritesheet, sheet);
        }
    }
}

#[test]
fn random_extents_stay_in_range() {
    for _ in 0..100 {
        let (x, y) = random_land_extents();
        assert!((1..6).contains(&x));
        assert!((1..6).contains(&y));
    }
}

#[test]
fn random_land_is_well_formed() {
    let sheet = one_frame_sheet();
    for _ in 0..20 {
        let land = init_random_land(&sheet, 7);
        assert!((1..6).contains(&land.len()));
        for (r, row) in land.iter().enumerate() {
            assert!((1..6).contains(&row.len()));
            assert_eq!(row.len(), land[0].len());
            for (c, tile) in row.iter().enumerate() {
                assert_eq!(tile.coords.0, c);
                assert_eq!(tile.coords.1, r);
                assert_eq!(tile.frame, 0);
                assert_eq!(tile.frame_start, 7);
            }
        }
    }
}
