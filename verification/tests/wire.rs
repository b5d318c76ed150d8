use gridslice::conn::{next_action, ConnAction, ConnEvent};
use gridslice::jsonout::{error_response_json, metadata_response_json, slice_response_to_json};
use gridslice::protocol::handle_text_frame;
use gridslice::window::{make_slice_response, SliceRequest};

#[test]
fn invalid_json_reply() {
    assert_eq!(
        handle_text_frame("not json"),
        "{\"type\":\"error\",\"message\":\"invalid json\"}"
    );
}

#[test]
fn unknown_type_reply() {
    let expected = "{\"type\":\"error\",\"message\":\"unknown message type\"}";
    assert_eq!(handle_text_frame("{\"type\":\"bogus\"}"), expected);
    assert_eq!(handle_text_frame("{\"kind\":\"slice_request\"}"), expected);
    assert_eq!(handle_text_frame("{\"type\":7}"), expected);
    assert_eq!(handle_text_frame("[1,2,3]"), expected);
}

#[test]
fn metadata_reply_is_constant() {
    let expected = "{\"type\":\"metadata_response\",\"maxRows\":10000000,\"maxCols\":1000}";
    assert_eq!(handle_text_frame("{\"type\":\"metadata_request\"}"), expected);
    assert_eq!(
        handle_text_frame("{\"type\":\"metadata_request\",\"extra\":true}"),
        expected
    );
    assert_eq!(metadata_response_json(), expected);
}

fn slice_request_json(
    screen_width: &str,
    screen_height: &str,
    horizontal_buffer: &str,
    vertical_buffer: &str,
    default_column_width: &str,
    default_row_height: &str,
    scroll_left: &str,
    scroll_top: &str,
) -> String {
    format!(
        "{{\"type\":\"slice_request\",\"screenWidth\":{},\"screenHeight\":{},\
         \"horizontalBuffer\":{},\"verticalBuffer\":{},\"defaultColumnWidth\":{},\
         \"defaultRowHeight\":{},\"scrollLeft\":{},\"scrollTop\":{}}}",
        screen_width,
        screen_height,
        horizontal_buffer,
        vertical_buffer,
        default_column_width,
        default_row_height,
        scroll_left,
        scroll_top
    )
}

#[test]
fn slice_reply_exact_bytes() {
    let frame = slice_request_json("200", "40", "0", "0", "100", "20", "0", "0");
    assert_eq!(
        handle_text_frame(&frame),
        "{\"type\":\"slice_response\",\"startRow\":0,\"rowCount\":2,\"startCol\":0,\
         \"colCount\":2,\"colLetters\":[\"A\",\"B\"],\
         \"cellsByRow\":[[\"R1C A\",\"R1C B\"],[\"R2C A\",\"R2C B\"]]}"
    );
}

#[test]
fn slice_reply_empty_window() {
    // Scrolled past the right and bottom edge of the grid: empty arrays.
    let frame = slice_request_json("200", "40", "0", "0", "100", "20", "100000", "200000000");
    assert_eq!(
        handle_text_frame(&frame),
        "{\"type\":\"slice_response\",\"startRow\":10000000,\"rowCount\":0,\"startCol\":1000,\
         \"colCount\":0,\"colLetters\":[],\"cellsByRow\":[]}"
    );
}

#[test]
fn repeated_request_identical_bytes() {
    let frame = slice_request_json("800", "500", "3", "5", "100", "20", "250", "130");
    let first = handle_text_frame(&frame);
    let second = handle_text_frame(&frame);
    assert_eq!(first.as_bytes(), second.as_bytes());
}

#[test]
fn zero_column_width_rejected() {
    let frame = slice_request_json("800", "500", "3", "5", "0", "20", "0", "0");
    assert_eq!(
        handle_text_frame(&frame),
        "{\"type\":\"error\",\"message\":\"bad request: invalid field: defaultColumnWidth\"}"
    );
}

#[test]
fn zero_row_height_rejected() {
    let frame = slice_request_json("800", "500", "3", "5", "100", "0", "0", "0");
    assert_eq!(
        handle_text_frame(&frame),
        "{\"type\":\"error\",\"message\":\"bad request: invalid field: defaultRowHeight\"}"
    );
}

#[test]
fn missing_field_rejected() {
    let frame = "{\"type\":\"slice_request\",\"screenWidth\":800}";
    assert_eq!(
        handle_text_frame(frame),
        "{\"type\":\"error\",\"message\":\"bad request: invalid field: screenHeight\"}"
    );
}

#[test]
fn negative_field_rejected() {
    let frame = slice_request_json("-5", "500", "3", "5", "100", "20", "0", "0");
    assert_eq!(
        handle_text_frame(&frame),
        "{\"type\":\"error\",\"message\":\"bad request: invalid field: screenWidth\"}"
    );
}

#[test]
fn fractional_field_rejected() {
    let frame = slice_request_json("800", "500.5", "3", "5", "100", "20", "0", "0");
    assert_eq!(
        handle_text_frame(&frame),
        "{\"type\":\"error\",\"message\":\"bad request: invalid field: screenHeight\"}"
    );
}

#[test]
fn oversized_field_rejected() {
    let frame = slice_request_json("5000000000", "500", "3", "5", "100", "20", "0", "0");
    assert_eq!(
        handle_text_frame(&frame),
        "{\"type\":\"error\",\"message\":\"bad request: invalid field: screenWidth\"}"
    );
}

#[test]
fn wide_scroll_offsets_accepted() {
    // The scroll offsets are 64-bit; a value past u32 range is fine.
    let frame = slice_request_json("800", "500", "0", "0", "100", "20", "0", "8589934592");
    let reply = handle_text_frame(&frame);
    assert!(reply.starts_with("{\"type\":\"slice_response\",\"startRow\":429496729,"));
}

#[test]
fn error_rendering() {
    assert_eq!(
        error_response_json("invalid json"),
        "{\"type\":\"error\",\"message\":\"invalid json\"}"
    );
}

#[test]
fn response_rendering_matches_engine() {
    let resp = make_slice_response(&SliceRequest {
        screen_width: 100,
        screen_height: 20,
        horizontal_buffer: 0,
        vertical_buffer: 0,
        default_column_width: 100,
        default_row_height: 20,
        scroll_left: 2600,
        scroll_top: 20,
    });
    assert_eq!(
        slice_response_to_json(&resp),
        "{\"type\":\"slice_response\",\"startRow\":1,\"rowCount\":1,\"startCol\":26,\
         \"colCount\":1,\"colLetters\":[\"AA\"],\"cellsByRow\":[[\"R2C AA\"]]}"
    );
}

#[test]
fn text_frame_gets_reply() {
    let action = next_action(ConnEvent::Text("{\"type\":\"metadata_request\"}".to_string()));
    match action {
        ConnAction::Reply(r) => assert_eq!(
            r,
            "{\"type\":\"metadata_response\",\"maxRows\":10000000,\"maxCols\":1000}"
        ),
        _ => panic!("a text frame must be answered"),
    }
}

#[test]
fn close_and_error_stop_the_connection() {
    assert!(matches!(next_action(ConnEvent::CloseFrame), ConnAction::Stop));
    assert!(matches!(next_action(ConnEvent::ReceiveError), ConnAction::Stop));
    assert!(matches!(next_action(ConnEvent::OtherFrame), ConnAction::Continue));
}
