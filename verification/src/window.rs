//! The slice engine: computes which rectangular window of the grid a
//! viewport can see, with buffering, clamping and hard safety caps.

use vstd::prelude::*;
use vstd::arithmetic::div_mod::{
    lemma_basic_div, lemma_div_nonincreasing, lemma_div_plus_one, lemma_div_pos_is_pos,
};
use crate::labels::{cell_label, col_letters, col_index_to_letters, make_cell_label};

verus! {

/// Total number of rows the conceptual grid exposes.
pub const SERVER_MAX_ROWS: u64 = 10_000_000;

/// Total number of columns the conceptual grid exposes.
pub const SERVER_MAX_COLS: u32 = 1_000;

/// Hard cap on how many rows a single slice may carry.
pub const ROW_COUNT_CAP: u32 = 1000;

/// Hard cap on how many columns a single slice may carry.
pub const COL_COUNT_CAP: u32 = 200;

/// Ceiling division, with the convention that a non-positive divisor
/// yields zero (a request with a zero cell size never reaches the
/// arithmetic, but the helper itself is total).
pub open spec fn div_ceil_spec(a: int, b: int) -> int {
    if b <= 0 {
        0
    } else {
        (a + b - 1) / b
    }
}

/// Number of rows (or columns) of size `b` needed to cover `a` pixels.
pub fn div_ceil(a: u32, b: u32) -> (r: u32)
    ensures
        r == div_ceil_spec(a as int, b as int),
{
    if b == 0 {
        0
    } else if a == 0 {
        proof {
            lemma_basic_div(b - 1, b as int);
        }
        0
    } else {
        let q: u32 = (a - 1) / b;
        proof {
            lemma_div_nonincreasing((a - 1) as int, b as int);
            lemma_div_plus_one((a - 1) as int, b as int);
        }
        q + 1
    }
}

/// The viewport a client reports: screen size, buffering, cell sizing
/// and scroll offsets, all in the same pixel-like units.
#[derive(Clone, Copy, Debug)]
pub struct SliceRequest {
    pub screen_width: u32,
    pub screen_height: u32,
    pub horizontal_buffer: u32,
    pub vertical_buffer: u32,
    pub default_column_width: u32,
    pub default_row_height: u32,
    pub scroll_left: u64,
    pub scroll_top: u64,
}

impl SliceRequest {
    /// A request the engine accepts: cell sizes must be positive, or the
    /// scroll-to-index divisions would be undefined.
    pub open spec fn valid(self) -> bool {
        self.default_row_height > 0 && self.default_column_width > 0
    }
}

/// The window of the grid a slice covers, together with the synthesized
/// labels of every cell inside it.
#[derive(Debug)]
pub struct SliceResponse {
    pub start_row: u64,
    pub row_count: u32,
    pub start_col: u64,
    pub col_count: u32,
    pub col_letters: Vec<String>,
    pub cells_by_row: Vec<Vec<String>>,
}

/// The smaller of two integers.
pub open spec fn spec_min(a: int, b: int) -> int {
    if a < b {
        a
    } else {
        b
    }
}

/// First row the viewport can see: the scroll offset divided by the row height.
pub open spec fn start_row_of(req: SliceRequest) -> int
    recommends
        req.valid(),
{
    req.scroll_top as int / req.default_row_height as int
}

/// Rows needed to cover the screen, plus a symmetric buffer margin.
pub open spec fn raw_row_count_of(req: SliceRequest) -> int {
    div_ceil_spec(req.screen_height as int, req.default_row_height as int)
        + 2 * req.vertical_buffer as int
}

/// Rows left between the start row and the grid's bound.
pub open spec fn remaining_rows_of(req: SliceRequest) -> int {
    if start_row_of(req) >= SERVER_MAX_ROWS as int {
        0
    } else {
        SERVER_MAX_ROWS as int - start_row_of(req)
    }
}

/// Rows the slice carries: the buffered count, clamped to the grid bound
/// and to the hard safety cap.
pub open spec fn row_count_of(req: SliceRequest) -> int {
    spec_min(spec_min(raw_row_count_of(req), remaining_rows_of(req)), ROW_COUNT_CAP as int)
}

/// First column the viewport can see.
pub open spec fn start_col_of(req: SliceRequest) -> int
    recommends
        req.valid(),
{
    req.scroll_left as int / req.default_column_width as int
}

/// Columns needed to cover the screen, plus a symmetric buffer margin.
pub open spec fn raw_col_count_of(req: SliceRequest) -> int {
    div_ceil_spec(req.screen_width as int, req.default_column_width as int)
        + 2 * req.horizontal_buffer as int
}

/// Columns left between the start column and the grid's bound.
pub open spec fn remaining_cols_of(req: SliceRequest) -> int {
    if start_col_of(req) >= SERVER_MAX_COLS as int {
        0
    } else {
        SERVER_MAX_COLS as int - start_col_of(req)
    }
}

/// Columns the slice carries: the buffered count, clamped to the grid
/// bound and to the hard safety cap.
pub open spec fn col_count_of(req: SliceRequest) -> int {
    spec_min(spec_min(raw_col_count_of(req), remaining_cols_of(req)), COL_COUNT_CAP as int)
}

/// The safety caps hold for every valid request: a slice never carries
/// more than the capped number of rows and columns, whatever viewport
/// the client reports.
pub proof fn lemma_safety_caps(req: SliceRequest)
    requires
        req.valid(),
    ensures
        0 <= row_count_of(req) <= ROW_COUNT_CAP as int,
        0 <= col_count_of(req) <= COL_COUNT_CAP as int,
{
    lemma_raw_counts_nonneg(req);
}

/// The buffered counts are never negative.
proof fn lemma_raw_counts_nonneg(req: SliceRequest)
    requires
        req.valid(),
    ensures
        raw_row_count_of(req) >= 0,
        raw_col_count_of(req) >= 0,
{
    if req.screen_height > 0 {
        lemma_div_pos_is_pos(
            req.screen_height + req.default_row_height - 1,
            req.default_row_height as int,
        );
    } else {
        lemma_basic_div(req.default_row_height - 1, req.default_row_height as int);
    }
    if req.screen_width > 0 {
        lemma_div_pos_is_pos(
            req.screen_width + req.default_column_width - 1,
            req.default_column_width as int,
        );
    } else {
        lemma_basic_div(req.default_column_width - 1, req.default_column_width as int);
    }
}

/// The window never reaches past the grid bounds, as long as the scroll
/// offsets themselves lie inside them.
pub proof fn lemma_window_in_bounds(req: SliceRequest)
    requires
        req.valid(),
        start_row_of(req) <= SERVER_MAX_ROWS as int,
        start_col_of(req) <= SERVER_MAX_COLS as int,
    ensures
        start_row_of(req) + row_count_of(req) <= SERVER_MAX_ROWS as int,
        start_col_of(req) + col_count_of(req) <= SERVER_MAX_COLS as int,
{
    lemma_raw_counts_nonneg(req);
}

/// Computes the slice for a viewport: the visible window with buffering,
/// clamping and safety caps, and a synthesized label for every cell.
pub fn make_slice_response(req: &SliceRequest) -> (resp: SliceResponse)
    requires
        req.valid(),
    ensures
        resp.start_row == start_row_of(*req),
        resp.row_count == row_count_of(*req),
        resp.start_col == start_col_of(*req),
        resp.col_count == col_count_of(*req),
        resp.row_count <= ROW_COUNT_CAP,
        resp.col_count <= COL_COUNT_CAP,
        resp.col_letters@.len() == resp.col_count,
        forall|c: int|
            0 <= c < resp.col_count ==> resp.col_letters@[c]@ == col_letters(
                (start_col_of(*req) + c) as nat,
            ),
        resp.cells_by_row@.len() == resp.row_count,
        forall|r: int| 0 <= r < resp.row_count ==> resp.cells_by_row@[r]@.len() == resp.col_count,
        forall|r: int, c: int|
            0 <= r < resp.row_count && 0 <= c < resp.col_count ==> resp.cells_by_row@[r]@[c]@
                == cell_label(
                (start_row_of(*req) + r + 1) as nat,
                (start_col_of(*req) + c) as nat,
            ),
{
    let start_row: u64 = req.scroll_top / (req.default_row_height as u64);
    let visible_rows: u32 = div_ceil(req.screen_height, req.default_row_height);
    let mut row_count64: u64 = visible_rows as u64 + (req.vertical_buffer as u64) * 2;
    let remaining_rows: u64 = if start_row >= SERVER_MAX_ROWS {
        0
    } else {
        SERVER_MAX_ROWS - start_row
    };
    if row_count64 > remaining_rows {
        row_count64 = remaining_rows;
    }
    if row_count64 > ROW_COUNT_CAP as u64 {
        row_count64 = ROW_COUNT_CAP as u64;
    }
    let row_count: u32 = row_count64 as u32;

    let start_col: u64 = req.scroll_left / (req.default_column_width as u64);
    let visible_cols: u32 = div_ceil(req.screen_width, req.default_column_width);
    let mut col_count64: u64 = visible_cols as u64 + (req.horizontal_buffer as u64) * 2;
    let remaining_cols: u64 = if start_col >= SERVER_MAX_COLS as u64 {
        0
    } else {
        SERVER_MAX_COLS as u64 - start_col
    };
    if col_count64 > remaining_cols {
        col_count64 = remaining_cols;
    }
    if col_count64 > COL_COUNT_CAP as u64 {
        col_count64 = COL_COUNT_CAP as u64;
    }
    let col_count: u32 = col_count64 as u32;

    let mut letters_vec: Vec<String> = Vec::new();
    let mut c: u32 = 0;
    while c < col_count
        invariant
            c <= col_count,
            req.valid(),
            start_col == start_col_of(*req),
            col_count == col_count_of(*req),
            col_count > 0 ==> start_col < SERVER_MAX_COLS as u64,
            letters_vec@.len() == c as int,
            forall|k: int|
                0 <= k < c ==> letters_vec@[k]@ == col_letters((start_col_of(*req) + k) as nat),
        decreases col_count - c,
    {
        let letters = col_index_to_letters((start_col as u32) + c);
        letters_vec.push(letters);
        c += 1;
    }

    let mut cells_by_row: Vec<Vec<String>> = Vec::new();
    let mut r: u32 = 0;
    while r < row_count
        invariant
            r <= row_count,
            req.valid(),
            start_row == start_row_of(*req),
            row_count == row_count_of(*req),
            col_count == col_count_of(*req),
            row_count > 0 ==> start_row < SERVER_MAX_ROWS,
            letters_vec@.len() == col_count as int,
            forall|k: int|
                0 <= k < col_count ==> letters_vec@[k]@ == col_letters(
                    (start_col_of(*req) + k) as nat,
                ),
            cells_by_row@.len() == r as int,
            forall|k: int| 0 <= k < r ==> cells_by_row@[k]@.len() == col_count as int,
            forall|k: int, l: int|
                0 <= k < r && 0 <= l < col_count ==> cells_by_row@[k]@[l]@ == cell_label(
                    (start_row_of(*req) + k + 1) as nat,
                    (start_col_of(*req) + l) as nat,
                ),
        decreases row_count - r,
    {
        let mut row_vec: Vec<String> = Vec::new();
        let mut c2: u32 = 0;
        while c2 < col_count
            invariant
                c2 <= col_count,
                req.valid(),
                start_row == start_row_of(*req),
                col_count == col_count_of(*req),
                r < row_count,
                row_count == row_count_of(*req),
                row_count > 0 ==> start_row < SERVER_MAX_ROWS,
                letters_vec@.len() == col_count as int,
                forall|k: int|
                    0 <= k < col_count ==> letters_vec@[k]@ == col_letters(
                        (start_col_of(*req) + k) as nat,
                    ),
                row_vec@.len() == c2 as int,
                forall|l: int|
                    0 <= l < c2 ==> row_vec@[l]@ == cell_label(
                        (start_row_of(*req) + r + 1) as nat,
                        (start_col_of(*req) + l) as nat,
                    ),
            decreases col_count - c2,
        {
            let label = make_cell_label(start_row + (r as u64) + 1, &letters_vec[c2 as usize]);
            row_vec.push(label);
            c2 += 1;
        }
        cells_by_row.push(row_vec);
        r += 1;
    }

    SliceResponse { start_row, row_count, start_col, col_count, col_letters: letters_vec, cells_by_row }
}

} // verus!
