use gridslice::labels::{col_index_to_letters, make_cell_label, u64_to_dec_string};
use gridslice::window::{div_ceil, make_slice_response, SliceRequest};

fn req(
    screen_width: u32,
    screen_height: u32,
    horizontal_buffer: u32,
    vertical_buffer: u32,
    default_column_width: u32,
    default_row_height: u32,
    scroll_left: u64,
    scroll_top: u64,
) -> SliceRequest {
    SliceRequest {
        screen_width,
        screen_height,
        horizontal_buffer,
        vertical_buffer,
        default_column_width,
        default_row_height,
        scroll_left,
        scroll_top,
    }
}

#[test]
fn column_letters_known_values() {
    assert_eq!(col_index_to_letters(0), "A");
    assert_eq!(col_index_to_letters(25), "Z");
    assert_eq!(col_index_to_letters(26), "AA");
    assert_eq!(col_index_to_letters(27), "AB");
    assert_eq!(col_index_to_letters(51), "AZ");
    assert_eq!(col_index_to_letters(52), "BA");
    assert_eq!(col_index_to_letters(701), "ZZ");
    assert_eq!(col_index_to_letters(702), "AAA");
}

#[test]
fn column_letters_distinct_over_grid_width() {
    let mut seen: std::collections::HashSet<String> = std::collections::HashSet::new();
    for i in 0..1000u32 {
        assert!(seen.insert(col_index_to_letters(i)), "label repeated at {}", i);
    }
}

#[test]
fn div_ceil_values() {
    assert_eq!(div_ceil(500, 20), 25);
    assert_eq!(div_ceil(501, 20), 26);
    assert_eq!(div_ceil(0, 5), 0);
    assert_eq!(div_ceil(5, 0), 0);
    assert_eq!(div_ceil(1, 1), 1);
    assert_eq!(div_ceil(u32::MAX, 1), u32::MAX);
}

#[test]
fn decimal_rendering() {
    assert_eq!(u64_to_dec_string(0), "0");
    assert_eq!(u64_to_dec_string(10), "10");
    assert_eq!(u64_to_dec_string(10000000), "10000000");
    assert_eq!(u64_to_dec_string(u64::MAX), "18446744073709551615");
}

#[test]
fn cell_label_text() {
    let letters = col_index_to_letters(27);
    assert_eq!(make_cell_label(123, &letters), "R123C AB");
}

#[test]
fn visible_rows_with_buffer() {
    // scrollTop=0, defaultRowHeight=20, screenHeight=500, verticalBuffer=5:
    // 25 visible rows plus 10 buffer rows, nothing clamped.
    let r = make_slice_response(&req(800, 500, 3, 5, 100, 20, 0, 0));
    assert_eq!(r.start_row, 0);
    assert_eq!(r.row_count, 35);
    // The column mirror: 8 visible columns plus 6 buffer columns.
    assert_eq!(r.start_col, 0);
    assert_eq!(r.col_count, 14);
}

#[test]
fn row_count_shrinks_at_grid_end() {
    // scrollTop five rows short of the end of the grid.
    let r = make_slice_response(&req(800, 500, 0, 5, 100, 20, 0, 20 * 9_999_995));
    assert_eq!(r.start_row, 9_999_995);
    assert_eq!(r.row_count, 5);
    assert!(r.start_row + r.row_count as u64 <= 10_000_000);
}

#[test]
fn counts_empty_beyond_grid_end() {
    let r = make_slice_response(&req(800, 500, 3, 5, 100, 20, 1_000 * 100, 10_000_000 * 20));
    assert_eq!(r.row_count, 0);
    assert_eq!(r.col_count, 0);
    assert!(r.cells_by_row.is_empty());
    assert!(r.col_letters.is_empty());
}

#[test]
fn safety_caps_hold() {
    // Absurd buffers and screen sizes never push a slice past the caps.
    let r = make_slice_response(&req(u32::MAX, u32::MAX, u32::MAX, u32::MAX, 1, 1, 0, 0));
    assert_eq!(r.row_count, 1000);
    assert_eq!(r.col_count, 200);
}

#[test]
fn window_stays_inside_grid_bounds() {
    let r = make_slice_response(&req(2000, 1000, 50, 50, 1, 1, 990, 9_999_990));
    assert!(r.start_row + r.row_count as u64 <= 10_000_000);
    assert!(r.start_col + r.col_count as u64 <= 1_000);
}

#[test]
fn slice_shape_matches_counts() {
    let r = make_slice_response(&req(350, 130, 2, 1, 100, 20, 250, 130));
    assert_eq!(r.col_letters.len(), r.col_count as usize);
    assert_eq!(r.cells_by_row.len(), r.row_count as usize);
    for row in &r.cells_by_row {
        assert_eq!(row.len(), r.col_count as usize);
    }
}

#[test]
fn slice_contents_small_window() {
    // 40px screen over 20px rows: rows 1 and 2; 200px over 100px columns
    // starting at column C (scrollLeft 250 / 100 = 2).
    let r = make_slice_response(&req(200, 40, 0, 0, 100, 20, 250, 0));
    assert_eq!(r.start_row, 0);
    assert_eq!(r.start_col, 2);
    assert_eq!(r.row_count, 2);
    assert_eq!(r.col_count, 2);
    assert_eq!(r.col_letters, vec!["C".to_string(), "D".to_string()]);
    assert_eq!(r.cells_by_row[0], vec!["R1C C".to_string(), "R1C D".to_string()]);
    assert_eq!(r.cells_by_row[1], vec!["R2C C".to_string(), "R2C D".to_string()]);
}

#[test]
fn scroll_offsets_divide_into_indices() {
    let r = make_slice_response(&req(800, 500, 0, 0, 100, 20, 1234, 56789));
    assert_eq!(r.start_col, 1234 / 100);
    assert_eq!(r.start_row, 56789 / 20);
}
