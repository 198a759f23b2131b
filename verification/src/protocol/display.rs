//! Glyphs of the 5x5 LED matrix.
//!
//! A motion is shown as one glyph. A component below [`MOVE_THRESHOLD`] counts
//! as zero. With nothing left the centre dot is shown; a rotation that clearly
//! outweighs the translation is shown as an open ring; anything else as one of
//! eight arrows, `+vx` pointing up and `+vy` pointing right.
use crate::num;
use crate::protocol::payload::MotionPayload;
use vstd::prelude::*;
use vstd::string::StringSliceAdditionalSpecFns;

verus! {

/// Speed components below this magnitude count as zero.
pub const MOVE_THRESHOLD: i8 = 15;

/// Tenths by which the rotation must outweigh the larger translation component
/// to be shown.
pub const ROTATION_BIAS: i16 = 15;

/// Frame buffer: `frame[row][col]` tells whether the pixel is lit.
pub type Frame = [[bool; 5]; 5];

/// A lit pixel.
pub const X: bool = true;

/// A dark pixel.
pub const O: bool = false;

/// All pixels off.
pub const BLANK: Frame = [
    [O, O, O, O, O],
    [O, O, O, O, O],
    [O, O, O, O, O],
    [O, O, O, O, O],
    [O, O, O, O, O],
];

/// Single dot in the centre: idle.
pub const CENTRE_DOT: Frame = [
    [O, O, O, O, O],
    [O, O, O, O, O],
    [O, O, X, O, O],
    [O, O, O, O, O],
    [O, O, O, O, O],
];

/// Arrow up: forward.
pub const ARROW_N: Frame = [
    [O, O, X, O, O],
    [O, X, X, X, O],
    [X, O, X, O, X],
    [O, O, X, O, O],
    [O, O, X, O, O],
];

/// Arrow up and right.
pub const ARROW_NE: Frame = [
    [O, O, X, X, X],
    [O, O, O, X, X],
    [O, O, X, O, X],
    [O, X, O, O, O],
    [X, O, O, O, O],
];

/// Arrow right.
pub const ARROW_E: Frame = [
    [O, O, X, O, O],
    [O, O, O, X, O],
    [X, X, X, X, X],
    [O, O, O, X, O],
    [O, O, X, O, O],
];

/// Arrow down and right.
pub const ARROW_SE: Frame = [
    [X, O, O, O, O],
    [O, X, O, O, O],
    [O, O, X, O, X],
    [O, O, O, X, X],
    [O, O, X, X, X],
];

/// Arrow down: backward.
pub const ARROW_S: Frame = [
    [O, O, X, O, O],
    [O, O, X, O, O],
    [X, O, X, O, X],
    [O, X, X, X, O],
    [O, O, X, O, O],
];

/// Arrow down and left.
pub const ARROW_SW: Frame = [
    [O, O, O, O, X],
    [O, O, O, X, O],
    [X, O, X, O, O],
    [X, X, O, O, O],
    [X, X, X, O, O],
];

/// Arrow left.
pub const ARROW_W: Frame = [
    [O, O, X, O, O],
    [O, X, O, O, O],
    [X, X, X, X, X],
    [O, X, O, O, O],
    [O, O, X, O, O],
];

/// Arrow up and left.
pub const ARROW_NW: Frame = [
    [X, X, X, O, O],
    [X, X, O, O, O],
    [X, O, X, O, O],
    [O, O, O, X, O],
    [O, O, O, O, X],
];

/// Open ring: clockwise rotation.
pub const SPIN_CW: Frame = [
    [O, X, X, X, O],
    [X, O, O, O, X],
    [X, O, O, O, X],
    [X, O, O, O, O],
    [O, X, X, O, O],
];

/// Open ring: counter-clockwise rotation.
pub const SPIN_CCW: Frame = [
    [O, X, X, X, O],
    [X, O, O, O, X],
    [X, O, O, O, X],
    [O, O, O, O, X],
    [O, O, X, X, O],
];

/// The eight arrows, clockwise from up.
pub const ARROWS: [Frame; 8] = [
    ARROW_N,
    ARROW_NE,
    ARROW_E,
    ARROW_SE,
    ARROW_S,
    ARROW_SW,
    ARROW_W,
    ARROW_NW,
];

/// The pixel that a row of ASCII art asks for in column `col`.
pub open spec fn art_pixel(row: Seq<u8>, col: int) -> bool {
    col < row.len() && row[col] != 0x20
}

/// Converts five rows of ASCII art into a frame. Anything but a space lights
/// its pixel; what a short row leaves open stays dark, what a long row has
/// beyond the fifth column is dropped.
pub fn pattern(rows: [&str; 5]) -> (frame: Frame)
    ensures
        forall|r: int, c: int|
            0 <= r < 5 && 0 <= c < 5 ==> #[trigger] frame@[r]@[c] == art_pixel(
                rows@[r].spec_bytes(),
                c,
            ),
{
    let mut out: Frame = BLANK;
    for r in 0..5usize
        invariant
            forall|i: int, c: int|
                0 <= i < r && 0 <= c < 5 ==> #[trigger] out@[i]@[c] == art_pixel(
                    rows@[i].spec_bytes(),
                    c,
                ),
    {
        let bytes = rows[r].as_bytes();
        let mut line: [bool; 5] = [false; 5];
        for c in 0..5usize
            invariant
                bytes@ == rows@[r as int].spec_bytes(),
                forall|j: int| 0 <= j < c ==> #[trigger] line@[j] == art_pixel(bytes@, j),
        {
            line[c] = c < bytes.len() && bytes[c] != 0x20;
        }
        out[r] = line;
    }
    out
}

/// In a row of ASCII characters a pixel is lit just where a character other
/// than a space stands.
pub proof fn law_ascii_art(row: &str, col: int)
    requires
        vstd::string::is_ascii(row),
        0 <= col,
    ensures
        art_pixel(row.spec_bytes(), col) == (col < row@.len() && row@[col] != ' '),
{
    vstd::string::is_ascii_spec_bytes(row);
    vstd::utf8::is_ascii_chars_nat_bound(row@);
}

/// `value`, or zero if it is below the threshold.
pub open spec fn significant(value: i8) -> int {
    if num::abs(value as int) < MOVE_THRESHOLD {
        0
    } else {
        value as int
    }
}

/// Neither axis is zero nor more than twice the other.
pub open spec fn is_diagonal(x: int, y: int) -> bool {
    &&& x != 0
    &&& y != 0
    &&& num::abs(x) * 2 >= num::abs(y)
    &&& num::abs(y) * 2 >= num::abs(x)
}

/// The arrow that matches the direction `x` ahead and `y` to the right best:
/// a diagonal one if the axes are comparable, else that of the larger axis.
pub open spec fn arrow(x: int, y: int) -> Frame {
    if x == 0 && y == 0 {
        CENTRE_DOT
    } else if is_diagonal(x, y) {
        if x > 0 {
            if y > 0 {
                ARROW_NE
            } else {
                ARROW_NW
            }
        } else {
            if y > 0 {
                ARROW_SE
            } else {
                ARROW_SW
            }
        }
    } else if num::abs(x) > num::abs(y) {
        if x > 0 {
            ARROW_N
        } else {
            ARROW_S
        }
    } else {
        if y > 0 {
            ARROW_E
        } else {
            ARROW_W
        }
    }
}

/// The glyph of a motion.
pub open spec fn glyph(motion: MotionPayload) -> Frame {
    let x = significant(motion.vx);
    let y = significant(motion.vy);
    let w = significant(motion.omega);
    if num::abs(w) * 10 > num::max(num::abs(x), num::abs(y)) * ROTATION_BIAS {
        if w > 0 {
            SPIN_CW
        } else {
            SPIN_CCW
        }
    } else {
        arrow(x, y)
    }
}

/// Selects the compass arrow that matches the direction `(vx, vy)` best, the
/// centre dot if both components are below the threshold.
pub fn arrow_for(vx: i8, vy: i8) -> (frame: Frame)
    ensures
        frame == arrow(significant(vx), significant(vy)),
{
    let x: i8 = if num::magnitude(vx) < MOVE_THRESHOLD as i16 {
        0
    } else {
        vx
    };
    let y: i8 = if num::magnitude(vy) < MOVE_THRESHOLD as i16 {
        0
    } else {
        vy
    };
    let ax: i16 = num::magnitude(x);
    let ay: i16 = num::magnitude(y);
    let diagonal: bool = ax > 0 && ay > 0 && ax * 2 >= ay && ay * 2 >= ax;
    let idx: usize = if ax == 0 && ay == 0 {
        return CENTRE_DOT;
    } else if diagonal {
        if x > 0 {
            if y > 0 {
                1
            } else {
                7
            }
        } else {
            if y > 0 {
                3
            } else {
                5
            }
        }
    } else if ax > ay {
        if x > 0 {
            0
        } else {
            4
        }
    } else {
        if y > 0 {
            2
        } else {
            6
        }
    };
    ARROWS[idx]
}

/// Converts a motion into the frame that shows it best.
pub fn motion_to_frame(payload: &MotionPayload) -> (frame: Frame)
    ensures
        frame == glyph(*payload),
{
    let ax: i16 = num::magnitude(payload.vx);
    let ay: i16 = num::magnitude(payload.vy);
    let max_lin: i16 = if ax >= ay {
        ax
    } else {
        ay
    };
    let abs_omega: i16 = num::magnitude(payload.omega);
    let translating: bool = max_lin >= MOVE_THRESHOLD as i16;
    let rotating: bool = abs_omega >= MOVE_THRESHOLD as i16;
    if !translating && !rotating {
        return CENTRE_DOT;
    }
    if rotating && (!translating || abs_omega * 10 > max_lin * ROTATION_BIAS) {
        return if payload.omega > 0 {
            SPIN_CW
        } else {
            SPIN_CCW
        };
    }
    arrow_for(payload.vx, payload.vy)
}

/// The rows of `a` are those of `b` in reverse order.
pub open spec fn upside_down(a: Frame, b: Frame) -> bool {
    forall|r: int, c: int|
        0 <= r < 5 && 0 <= c < 5 ==> #[trigger] a@[r]@[c] == b@[4 - r]@[c]
}

/// The columns of `a` are those of `b` in reverse order.
pub open spec fn mirrored(a: Frame, b: Frame) -> bool {
    forall|r: int, c: int|
        0 <= r < 5 && 0 <= c < 5 ==> #[trigger] a@[r]@[c] == b@[r]@[4 - c]
}

/// Swapping forward and backward turns an arrow upside down; swapping left and
/// right mirrors it.
pub proof fn law_opposite_arrows(vx: i8, vy: i8)
    requires
        vx != i8::MIN,
        vy != i8::MIN,
    ensures
        upside_down(
            arrow(significant((-vx) as i8), significant(vy)),
            arrow(significant(vx), significant(vy)),
        ),
        mirrored(
            arrow(significant(vx), significant((-vy) as i8)),
            arrow(significant(vx), significant(vy)),
        ),
{
}

/// A motion below the threshold on every axis shows the centre dot, and a pure
/// rotation at or above it shows the ring of its sense; neither depends on how
/// far a component is from the threshold.
pub proof fn law_idle_and_spin(motion: MotionPayload)
    ensures
        num::abs(motion.vx as int) < MOVE_THRESHOLD && num::abs(motion.vy as int) < MOVE_THRESHOLD
            && num::abs(motion.omega as int) < MOVE_THRESHOLD ==> glyph(motion) == CENTRE_DOT,
        num::abs(motion.vx as int) < MOVE_THRESHOLD && num::abs(motion.vy as int) < MOVE_THRESHOLD
            && motion.omega >= MOVE_THRESHOLD ==> glyph(motion) == SPIN_CW,
        num::abs(motion.vx as int) < MOVE_THRESHOLD && num::abs(motion.vy as int) < MOVE_THRESHOLD
            && motion.omega <= -MOVE_THRESHOLD ==> glyph(motion) == SPIN_CCW,
{
}

/// A component counts from 15 on, either way.
pub proof fn law_threshold(value: i8)
    ensures
        -15 < value < 15 ==> significant(value) == 0,
        value >= 15 || value <= -15 ==> significant(value) == value,
{
}

/// The arrow points the way: straight along the larger axis where it is more than
/// twice the other, and between the axes else. A motion without a direction shows the
/// centre dot.
pub proof fn law_arrow_points_the_way(x: int, y: int)
    ensures
        x == 0 && y == 0 ==> arrow(x, y) == CENTRE_DOT,
        x > 0 && -x < 2 * y < x ==> arrow(x, y) == ARROW_N,
        x < 0 && x < 2 * y < -x ==> arrow(x, y) == ARROW_S,
        y > 0 && -y < 2 * x < y ==> arrow(x, y) == ARROW_E,
        y < 0 && y < 2 * x < -y ==> arrow(x, y) == ARROW_W,
        x > 0 && y > 0 && 2 * x >= y && 2 * y >= x ==> arrow(x, y) == ARROW_NE,
        x > 0 && y < 0 && 2 * x >= -y && -2 * y >= x ==> arrow(x, y) == ARROW_NW,
        x < 0 && y > 0 && -2 * x >= y && 2 * y >= -x ==> arrow(x, y) == ARROW_SE,
        x < 0 && y < 0 && -2 * x >= -y && -2 * y >= -x ==> arrow(x, y) == ARROW_SW,
{
}

/// A turn of 15 or more shows the ring of its sense where it exceeds both counting
/// axes by more than half; else the arrow of the counting components is shown.
pub proof fn law_ring_or_arrow(motion: MotionPayload)
    ensures
        ({
            let x = if -15 < motion.vx < 15 {
                0
            } else {
                motion.vx as int
            };
            let y = if -15 < motion.vy < 15 {
                0
            } else {
                motion.vy as int
            };
            let w = motion.omega as int;
            let over = 10 * num::abs(w) > 15 * num::abs(x) && 10 * num::abs(w) > 15 * num::abs(y);
            &&& w >= 15 && over ==> glyph(motion) == SPIN_CW
            &&& w <= -15 && over ==> glyph(motion) == SPIN_CCW
            &&& !over || -15 < w < 15 ==> glyph(motion) == arrow(x, y)
        }),
{
}

/// A pixel of ASCII art is lit just where a byte other than a space stands.
pub proof fn law_art_bytes(row: Seq<u8>, col: int)
    requires
        0 <= col,
    ensures
        col >= row.len() ==> !art_pixel(row, col),
        col < row.len() ==> (art_pixel(row, col) <==> row[col] != 32),
{
}

} // verus!
