use microbit_car::matrix::{blank_all, light_row, MatrixScan};
use microbit_car::protocol::display::{
    arrow_for, motion_to_frame, pattern, ARROWS, ARROW_E, ARROW_N, ARROW_NE, ARROW_NW, ARROW_S,
    ARROW_SE, ARROW_SW, ARROW_W, BLANK, CENTRE_DOT, MOVE_THRESHOLD, SPIN_CCW, SPIN_CW,
};
use microbit_car::protocol::MotionPayload;

fn motion(vx: i8, vy: i8, omega: i8) -> MotionPayload {
    MotionPayload { vx, vy, omega }
}

#[test]
fn idle_renders_centre_dot() {
    assert_eq!(motion_to_frame(&motion(0, 0, 0)), CENTRE_DOT);
    assert_eq!(motion_to_frame(&motion(5, -5, 3)), CENTRE_DOT);
}

#[test]
fn rotation_dominates_when_much_larger() {
    assert_eq!(motion_to_frame(&motion(20, 0, 100)), SPIN_CW);
    assert_eq!(motion_to_frame(&motion(0, 20, -100)), SPIN_CCW);
}

#[test]
fn cardinal_arrows() {
    assert_eq!(motion_to_frame(&motion(80, 0, 0)), ARROW_N);
    assert_eq!(motion_to_frame(&motion(-80, 0, 0)), ARROW_S);
    assert_eq!(motion_to_frame(&motion(0, 80, 0)), ARROW_E);
    assert_eq!(motion_to_frame(&motion(0, -80, 0)), ARROW_W);
}

#[test]
fn diagonal_arrows() {
    assert_eq!(motion_to_frame(&motion(60, 60, 0)), ARROW_NE);
    assert_eq!(motion_to_frame(&motion(-60, 60, 0)), ARROW_SE);
    assert_eq!(motion_to_frame(&motion(-60, -60, 0)), ARROW_SW);
    assert_eq!(motion_to_frame(&motion(60, -60, 0)), ARROW_NW);
}

#[test]
fn display_idle_renders_centre_dot() {
    let mut scan = MatrixScan::new();
    assert_eq!(scan.current, CENTRE_DOT);
    scan.show(&motion(0, 0, 0));
    assert_eq!(scan.current, CENTRE_DOT);
    scan.show(&motion(5, -5, 3));
    assert_eq!(scan.current, CENTRE_DOT);
}

#[test]
fn display_rotation_dominates_when_much_larger() {
    let mut scan = MatrixScan::new();
    scan.show(&motion(20, 0, 100));
    assert_eq!(scan.current, SPIN_CW);
    scan.show(&motion(0, 20, -100));
    assert_eq!(scan.current, SPIN_CCW);
}

#[test]
fn display_cardinal_arrows() {
    let mut scan = MatrixScan::new();
    scan.show(&motion(80, 0, 0));
    assert_eq!(scan.current, ARROW_N);
    scan.show(&motion(-80, 0, 0));
    assert_eq!(scan.current, ARROW_S);
    scan.show(&motion(0, 80, 0));
    assert_eq!(scan.current, ARROW_E);
    scan.show(&motion(0, -80, 0));
    assert_eq!(scan.current, ARROW_W);
}

#[test]
fn display_diagonal_arrows() {
    let mut scan = MatrixScan::new();
    scan.show(&motion(60, 60, 0));
    assert_eq!(scan.current, ARROW_NE);
    scan.show(&motion(-60, 60, 0));
    assert_eq!(scan.current, ARROW_SE);
    scan.show(&motion(-60, -60, 0));
    assert_eq!(scan.current, ARROW_SW);
    scan.show(&motion(60, -60, 0));
    assert_eq!(scan.current, ARROW_NW);
}

#[test]
fn glyphs_match_their_drawings() {
    assert_eq!(BLANK, pattern(["     ", "     ", "     ", "     ", "     "]));
    assert_eq!(CENTRE_DOT, pattern(["     ", "     ", "  X  ", "     ", "     "]));
    assert_eq!(ARROW_N, pattern(["  X  ", " XXX ", "X X X", "  X  ", "  X  "]));
    assert_eq!(ARROW_NE, pattern(["  XXX", "   XX", "  X X", " X   ", "X    "]));
    assert_eq!(ARROW_E, pattern(["  X  ", "   X ", "XXXXX", "   X ", "  X  "]));
    assert_eq!(ARROW_SE, pattern(["X    ", " X   ", "  X X", "   XX", "  XXX"]));
    assert_eq!(ARROW_S, pattern(["  X  ", "  X  ", "X X X", " XXX ", "  X  "]));
    assert_eq!(ARROW_SW, pattern(["    X", "   X ", "X X  ", "XX   ", "XXX  "]));
    assert_eq!(ARROW_W, pattern(["  X  ", " X   ", "XXXXX", " X   ", "  X  "]));
    assert_eq!(ARROW_NW, pattern(["XXX  ", "XX   ", "X X  ", "   X ", "    X"]));
    assert_eq!(SPIN_CW, pattern([" XXX ", "X   X", "X   X", "X    ", " XX  "]));
    assert_eq!(SPIN_CCW, pattern([" XXX ", "X   X", "X   X", "    X", "  XX "]));
    assert_eq!(
        ARROWS,
        [ARROW_N, ARROW_NE, ARROW_E, ARROW_SE, ARROW_S, ARROW_SW, ARROW_W, ARROW_NW]
    );
}

#[test]
fn short_and_long_rows_of_art() {
    let frame = pattern(["X", "", "     X", "  #", "     "]);
    assert_eq!(frame[0], [true, false, false, false, false]);
    assert_eq!(frame[1], [false; 5]);
    assert_eq!(frame[2], [false; 5]);
    assert_eq!(frame[3], [false, false, true, false, false]);
    assert_eq!(frame[4], [false; 5]);
}

#[test]
fn threshold_is_inclusive() {
    assert_eq!(MOVE_THRESHOLD, 15);
    assert_eq!(motion_to_frame(&motion(14, 14, 14)), CENTRE_DOT);
    assert_eq!(motion_to_frame(&motion(15, 0, 0)), ARROW_N);
    assert_eq!(motion_to_frame(&motion(0, 0, 15)), SPIN_CW);
    assert_eq!(motion_to_frame(&motion(0, 0, -15)), SPIN_CCW);
}

#[test]
fn rotation_needs_half_as_much_again() {
    assert_eq!(motion_to_frame(&motion(40, 0, 60)), ARROW_N);
    assert_eq!(motion_to_frame(&motion(40, 0, 61)), SPIN_CW);
}

#[test]
fn dominant_axis_wins_over_a_small_one() {
    assert_eq!(arrow_for(80, 39), ARROW_N);
    assert_eq!(arrow_for(80, 40), ARROW_NE);
    assert_eq!(arrow_for(-80, 20), ARROW_S);
    assert_eq!(arrow_for(-20, 80), ARROW_E);
    assert_eq!(arrow_for(-20, -80), ARROW_W);
    assert_eq!(arrow_for(20, -80), ARROW_W);
    assert_eq!(arrow_for(0, 0), CENTRE_DOT);
}

#[test]
fn extreme_components_are_shown() {
    assert_eq!(arrow_for(i8::MIN, 0), ARROW_S);
    assert_eq!(arrow_for(0, i8::MIN), ARROW_W);
    assert_eq!(arrow_for(i8::MIN, i8::MIN), ARROW_SW);
    assert_eq!(motion_to_frame(&motion(0, 0, i8::MIN)), SPIN_CCW);
    let mut scan = MatrixScan::new();
    scan.show(&motion(i8::MIN, i8::MAX, 0));
    assert_eq!(scan.current, ARROW_SE);
}

#[test]
fn opposite_motions_are_mirror_images() {
    for vx in -100..=100i8 {
        for vy in -100..=100i8 {
            let here = arrow_for(vx, vy);
            let back = arrow_for(-vx, vy);
            let left = arrow_for(vx, -vy);
            for r in 0..5 {
                for c in 0..5 {
                    assert_eq!(back[r][c], here[4 - r][c]);
                    assert_eq!(left[r][c], here[r][4 - c]);
                }
            }
        }
    }
}

#[test]
fn one_row_is_lit_at_a_time() {
    let levels = light_row(2, &[true, false, true, false, true]);
    assert_eq!(levels.rows, [false, false, true, false, false]);
    assert_eq!(levels.cols, [false, true, false, true, false]);
    let blank = blank_all();
    assert_eq!(blank.rows, [false; 5]);
    assert_eq!(blank.cols, [true; 5]);
}

#[test]
fn scan_covers_the_frame() {
    let mut scan = MatrixScan::new();
    let blank = scan.show(&motion(100, 0, 0));
    assert_eq!(blank.rows, [false; 5]);
    let mut seen = BLANK;
    for _ in 0..5 {
        let levels = scan.levels();
        for r in 0..5 {
            for c in 0..5 {
                seen[r][c] |= levels.rows[r] && !levels.cols[c];
            }
        }
        scan.tick();
    }
    assert_eq!(seen, ARROW_N);
    assert_eq!(scan.row_idx, 0);
    scan.tick();
    assert_eq!(scan.row_idx, 1);
    scan.show(&motion(0, 100, 0));
    assert_eq!(scan.row_idx, 0);
    assert_eq!(scan.current, ARROW_E);
}
