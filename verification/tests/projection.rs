use isoland::iso::project;

#[test]
fn iso_transform_matches_formula() {
    // W=320, H=240, 3x2 grid, 1920x1080 screen, tile (1, 1):
    // x_start = 960 - 3*40 = 840, y_start = 540 - 2*30 = 480,
    // x = 840 + 1*2*40 - 1*2*30 = 860, y = 480 + 1*2*15 + 1*2*20 = 550.
    let pos = project(1920, 1080, 3, 2, 320, 240, 1, 1);
    assert_eq!(pos, (860, 550));
}

#[test]
fn iso_transform_is_deterministic() {
    let a = project(1920, 1080, 3, 2, 320, 240, 1, 1);
    let b = project(1920, 1080, 3, 2, 320, 240, 1, 1);
    assert_eq!(a, b);
}

#[test]
fn iso_transform_origin_tile() {
    // Tile (0, 0) sits at the computed land origin.
    let pos = project(1920, 1080, 3, 2, 320, 240, 0, 0);
    assert_eq!(pos, (840, 480));
}

#[test]
fn iso_transform_truncating_divisions() {
    // Odd sprite sizes: 37/8 = 4, 21/8 = 2, 21/16 = 1, 37/16 = 2 — the
    // truncation is part of the formula.
    // x_start = 100 - 2*4 = 92, y_start = 100 - 2*2 = 96,
    // x = 92 + 1*2*4 - 1*2*2 = 96, y = 96 + 1*2*1 + 1*2*2 = 102.
    let pos = project(200, 200, 2, 2, 37, 21, 1, 1);
    assert_eq!(pos, (96, 102));
}
