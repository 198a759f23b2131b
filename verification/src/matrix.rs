//! Row multiplexing of the 5x5 LED matrix.
//!
//! Rows are anodes (a high level sources current), columns are cathodes (a low
//! level sinks it). One row is lit at a time; five rows of
//! [`SCAN_INTERVAL_US`] make a frame.
use crate::protocol::display;
use crate::protocol::display::{Frame, CENTRE_DOT};
use crate::protocol::payload::MotionPayload;
use vstd::prelude::*;

verus! {

/// Dwell time of a row (us).
pub const SCAN_INTERVAL_US: u64 = 400;

/// The levels of the ten pins; `true` is high.
#[derive(Clone, Copy)]
pub struct PinLevels {
    pub rows: [bool; 5],
    pub cols: [bool; 5],
}

impl PinLevels {
    /// The pixel at `(r, c)` is lit: its row sources and its column sinks.
    pub open spec fn lit(self, r: int, c: int) -> bool {
        self.rows@[r] && !self.cols@[c]
    }
}

/// The levels that light row `row_idx` with the pixels of `row`.
pub fn light_row(row_idx: usize, row: &[bool; 5]) -> (levels: PinLevels)
    requires
        row_idx < 5,
    ensures
        forall|r: int| 0 <= r < 5 ==> #[trigger] levels.rows@[r] == (r == row_idx),
        forall|c: int| 0 <= c < 5 ==> #[trigger] levels.cols@[c] == !row@[c],
{
    let mut rows: [bool; 5] = [false; 5];
    rows[row_idx] = true;
    PinLevels { rows, cols: [!row[0], !row[1], !row[2], !row[3], !row[4]] }
}

/// The levels that light nothing: rows low, columns high.
pub fn blank_all() -> (levels: PinLevels)
    ensures
        forall|r: int| 0 <= r < 5 ==> #[trigger] levels.rows@[r] == false,
        forall|c: int| 0 <= c < 5 ==> #[trigger] levels.cols@[c] == true,
{
    PinLevels { rows: [false; 5], cols: [true; 5] }
}

/// The frame on show and the row that is lit.
pub struct MatrixScan {
    pub current: Frame,
    pub row_idx: usize,
}

impl MatrixScan {
    /// The lit row exists.
    pub open spec fn wf(self) -> bool {
        self.row_idx < 5
    }

    /// Shows the centre dot from the top.
    pub fn new() -> (scan: Self)
        ensures
            scan.wf(),
            scan.current == CENTRE_DOT,
            scan.row_idx == 0,
    {
        MatrixScan { current: CENTRE_DOT, row_idx: 0 }
    }

    /// The levels for the row that is lit.
    pub fn levels(&self) -> (levels: PinLevels)
        requires
            self.wf(),
        ensures
            forall|r: int, c: int|
                0 <= r < 5 && 0 <= c < 5 ==> #[trigger] levels.lit(r, c) == (r == self.row_idx
                    && self.current@[r]@[c]),
            forall|r: int| 0 <= r < 5 ==> #[trigger] levels.rows@[r] == (r == self.row_idx),
            forall|c: int|
                0 <= c < 5 ==> #[trigger] levels.cols@[c]
                    == !self.current@[self.row_idx as int]@[c],
    {
        light_row(self.row_idx, &self.current[self.row_idx])
    }

    /// Moves on to the next row, from the last back to the first.
    pub fn tick(&mut self)
        requires
            old(self).wf(),
        ensures
            final(self).wf(),
            final(self).current == old(self).current,
            final(self).row_idx == (old(self).row_idx + 1) % 5,
            final(self).row_idx == row_after(old(self).row_idx as int, 1),
    {
        proof {
            reveal_with_fuel(row_after, 2);
        }
        self.row_idx = (self.row_idx + 1) % 5;
    }

    /// Shows the glyph of a motion, from the top. The levels that come back
    /// blank the matrix first, so that nothing of the old glyph lingers.
    pub fn show(&mut self, payload: &MotionPayload) -> (levels: PinLevels)
        ensures
            final(self).wf(),
            final(self).current == display::glyph(*payload),
            final(self).row_idx == 0,
            forall|r: int| 0 <= r < 5 ==> #[trigger] levels.rows@[r] == false,
            forall|c: int| 0 <= c < 5 ==> #[trigger] levels.cols@[c] == true,
    {
        self.current = display::motion_to_frame(payload);
        self.row_idx = 0;
        blank_all()
    }
}

/// The row that is lit after `n` ticks.
pub open spec fn row_after(row_idx: int, n: nat) -> int
    decreases n,
{
    if n == 0 {
        row_idx
    } else {
        (row_after(row_idx, (n - 1) as nat) + 1) % 5
    }
}

/// Every row gets its turn within five ticks, and each fifth tick comes back to
/// the same row.
pub proof fn law_every_row_is_scanned(row_idx: int, r: int)
    requires
        0 <= row_idx < 5,
        0 <= r < 5,
    ensures
        row_after(row_idx, ((r - row_idx) % 5) as nat) == r,
        row_after(row_idx, 5) == row_idx,
{
    reveal_with_fuel(row_after, 6);
}

} // verus!
