//! The message protocol: decoding inbound JSON text frames into typed
//! messages and rendering the reply each message is owed.
//!
//! JSON parsing is delegated to serde_json behind trusted wrappers that
//! go from the frame text to plain values. What each wrapper returns is
//! a function of the text alone, so it is pinned to an uninterpreted
//! name over the text; `decode_spec` then fixes, over those names, which
//! message any frame decodes to, and every reply is proved to be exactly
//! the one that decoding prescribes for its frame.

use vstd::prelude::*;
use crate::jsonout::{
    error_json, error_response_json, metadata_json, metadata_response_json, slice_reply,
    slice_reply_chars,
};
use crate::window::SliceRequest;

verus! {

/// Whether the text is one valid JSON document.
pub uninterp spec fn frame_is_json(s: Seq<char>) -> bool;

/// The text of the document's top-level `type` member, if the text is a
/// JSON object holding a string under that key.
pub uninterp spec fn frame_type_name(s: Seq<char>) -> Option<Seq<char>>;

/// The document's top-level member under the given key, if the text is
/// a JSON object holding a number representable as `u64` there (so
/// never a negative or fractional one).
pub uninterp spec fn frame_u64_field(s: Seq<char>, key: Seq<char>) -> Option<u64>;

/// Relies on `serde_json::from_str`: whether the text parses as a JSON
/// document is a function of the text alone.
#[verifier::external_body]
fn json_frame_is_valid(s: &str) -> (r: bool)
    ensures
        r == frame_is_json(s@),
{
    serde_json::from_str::<serde_json::Value>(s).is_ok()
}

/// Relies on `serde_json::from_str`, `Value::get` and `Value::as_str`:
/// the `type` member's text is a function of the frame text alone.
#[verifier::external_body]
fn json_frame_type(s: &str) -> (r: Option<String>)
    ensures
        (match r {
            Some(t) => frame_type_name(s@) == Some(t@),
            None => frame_type_name(s@) is None,
        }),
{
    match serde_json::from_str::<serde_json::Value>(s) {
        Ok(v) => match v.get("type") {
            Some(t) => match t.as_str() {
                Some(name) => Some(name.to_owned()),
                None => None,
            },
            None => None,
        },
        Err(_) => None,
    }
}

/// Relies on `serde_json::from_str`, `Value::get` and `Value::as_u64`:
/// a named top-level `u64` member is a function of the frame text alone.
#[verifier::external_body]
fn json_frame_u64(s: &str, key: &str) -> (r: Option<u64>)
    ensures
        r == frame_u64_field(s@, key@),
{
    match serde_json::from_str::<serde_json::Value>(s) {
        Ok(v) => match v.get(key) {
            Some(f) => f.as_u64(),
            None => None,
        },
        Err(_) => None,
    }
}

/// The slice-request field a bad request was rejected over.
#[derive(Clone, Copy, Debug, PartialEq, Eq, Structural)]
pub enum BadField {
    ScreenWidth,
    ScreenHeight,
    HorizontalBuffer,
    VerticalBuffer,
    DefaultColumnWidth,
    DefaultRowHeight,
    ScrollLeft,
    ScrollTop,
}

/// The protocol name of a slice-request field.
pub open spec fn field_name(f: BadField) -> Seq<char> {
    match f {
        BadField::ScreenWidth => "screenWidth"@,
        BadField::ScreenHeight => "screenHeight"@,
        BadField::HorizontalBuffer => "horizontalBuffer"@,
        BadField::VerticalBuffer => "verticalBuffer"@,
        BadField::DefaultColumnWidth => "defaultColumnWidth"@,
        BadField::DefaultRowHeight => "defaultRowHeight"@,
        BadField::ScrollLeft => "scrollLeft"@,
        BadField::ScrollTop => "scrollTop"@,
    }
}

impl BadField {
    /// The protocol name of the field, for the error message.
    pub fn name(&self) -> (s: &'static str)
        ensures
            s@ == field_name(*self),
    {
        match self {
            BadField::ScreenWidth => "screenWidth",
            BadField::ScreenHeight => "screenHeight",
            BadField::HorizontalBuffer => "horizontalBuffer",
            BadField::VerticalBuffer => "verticalBuffer",
            BadField::DefaultColumnWidth => "defaultColumnWidth",
            BadField::DefaultRowHeight => "defaultRowHeight",
            BadField::ScrollLeft => "scrollLeft",
            BadField::ScrollTop => "scrollTop",
        }
    }
}

/// An inbound text frame, decoded as far as the protocol understands it.
pub enum InboundMsg {
    /// The frame was not valid JSON.
    InvalidJson,
    /// Valid JSON, but no recognized `type` member.
    UnknownType,
    /// A metadata query.
    MetadataRequest,
    /// A slice request with a missing, malformed, or zero-where-disallowed
    /// field.
    BadSliceRequest(BadField),
    /// A well-formed slice request.
    SliceRequestMsg(SliceRequest),
}

impl InboundMsg {
    /// Decoding only ever yields slice requests the engine accepts.
    pub open spec fn wf(self) -> bool {
        match self {
            InboundMsg::SliceRequestMsg(req) => req.valid(),
            _ => true,
        }
    }
}

/// A named top-level member narrowed to the field's 32-bit width.
pub open spec fn spec_u32_field(s: Seq<char>, key: Seq<char>) -> Option<u32> {
    match frame_u64_field(s, key) {
        Some(x) => if x <= u32::MAX {
            Some(x as u32)
        } else {
            None
        },
        None => None,
    }
}

/// The message a slice-request frame decodes to: the request of its
/// fields, or the first field (in protocol order) that is missing, out
/// of range, or zero where the engine disallows zero.
pub open spec fn decode_slice_spec(s: Seq<char>) -> InboundMsg {
    match (
        spec_u32_field(s, "screenWidth"@),
        spec_u32_field(s, "screenHeight"@),
        spec_u32_field(s, "horizontalBuffer"@),
        spec_u32_field(s, "verticalBuffer"@),
        spec_u32_field(s, "defaultColumnWidth"@),
        spec_u32_field(s, "defaultRowHeight"@),
        frame_u64_field(s, "scrollLeft"@),
        frame_u64_field(s, "scrollTop"@),
    ) {
        (None, _, _, _, _, _, _, _) => InboundMsg::BadSliceRequest(BadField::ScreenWidth),
        (_, None, _, _, _, _, _, _) => InboundMsg::BadSliceRequest(BadField::ScreenHeight),
        (_, _, None, _, _, _, _, _) => InboundMsg::BadSliceRequest(BadField::HorizontalBuffer),
        (_, _, _, None, _, _, _, _) => InboundMsg::BadSliceRequest(BadField::VerticalBuffer),
        (_, _, _, _, None, _, _, _) => InboundMsg::BadSliceRequest(BadField::DefaultColumnWidth),
        (_, _, _, _, _, None, _, _) => InboundMsg::BadSliceRequest(BadField::DefaultRowHeight),
        (_, _, _, _, _, _, None, _) => InboundMsg::BadSliceRequest(BadField::ScrollLeft),
        (_, _, _, _, _, _, _, None) => InboundMsg::BadSliceRequest(BadField::ScrollTop),
        (
            Some(screen_width),
            Some(screen_height),
            Some(horizontal_buffer),
            Some(vertical_buffer),
            Some(default_column_width),
            Some(default_row_height),
            Some(scroll_left),
            Some(scroll_top),
        ) => if default_column_width == 0 {
            InboundMsg::BadSliceRequest(BadField::DefaultColumnWidth)
        } else if default_row_height == 0 {
            InboundMsg::BadSliceRequest(BadField::DefaultRowHeight)
        } else {
            InboundMsg::SliceRequestMsg(
                SliceRequest {
                    screen_width,
                    screen_height,
                    horizontal_buffer,
                    vertical_buffer,
                    default_column_width,
                    default_row_height,
                    scroll_left,
                    scroll_top,
                },
            )
        },
    }
}

/// The message any frame decodes to: invalid JSON and unrecognized
/// `type` members are kept as recoverable errors; a `slice_request` is
/// decoded field by field.
pub open spec fn decode_spec(s: Seq<char>) -> InboundMsg {
    if !frame_is_json(s) {
        InboundMsg::InvalidJson
    } else {
        match frame_type_name(s) {
            None => InboundMsg::UnknownType,
            Some(t) => if t == "metadata_request"@ {
                InboundMsg::MetadataRequest
            } else if t == "slice_request"@ {
                decode_slice_spec(s)
            } else {
                InboundMsg::UnknownType
            },
        }
    }
}

/// The message text of a rejected slice request.
pub open spec fn bad_request_msg(f: BadField) -> Seq<char> {
    "bad request: invalid field: "@ + field_name(f)
}

/// The reply text each decoded message is owed.
pub open spec fn reply_chars(m: InboundMsg) -> Seq<char>
    recommends
        m.wf(),
{
    match m {
        InboundMsg::InvalidJson => error_json("invalid json"@),
        InboundMsg::UnknownType => error_json("unknown message type"@),
        InboundMsg::MetadataRequest => metadata_json(),
        InboundMsg::BadSliceRequest(f) => error_json(bad_request_msg(f)),
        InboundMsg::SliceRequestMsg(req) => slice_reply_chars(req),
    }
}

/// Reads one `u32` member of the frame, rejecting values over the
/// field's width.
fn get_u32_field(txt: &str, key: &str) -> (r: Option<u32>)
    ensures
        r == spec_u32_field(txt@, key@),
{
    match json_frame_u64(txt, key) {
        Some(x) => {
            if x <= u32::MAX as u64 {
                Some(x as u32)
            } else {
                None
            }
        },
        None => None,
    }
}

/// Decodes the fields of a slice-request frame, validating each: every
/// numeric field must be present and in range, and the cell sizes must
/// be positive. The result is exactly what `decode_slice_spec` says of
/// the frame, and a decoded request is always one the engine accepts.
fn decode_slice_request(txt: &str) -> (r: Result<SliceRequest, BadField>)
    ensures
        (r matches Ok(req) ==> decode_slice_spec(txt@) == InboundMsg::SliceRequestMsg(req)
            && req.valid()),
        (r matches Err(f) ==> decode_slice_spec(txt@) == InboundMsg::BadSliceRequest(f)),
{
    let screen_width: u32 = match get_u32_field(txt, "screenWidth") {
        Some(x) => x,
        None => return Err(BadField::ScreenWidth),
    };
    let screen_height: u32 = match get_u32_field(txt, "screenHeight") {
        Some(x) => x,
        None => return Err(BadField::ScreenHeight),
    };
    let horizontal_buffer: u32 = match get_u32_field(txt, "horizontalBuffer") {
        Some(x) => x,
        None => return Err(BadField::HorizontalBuffer),
    };
    let vertical_buffer: u32 = match get_u32_field(txt, "verticalBuffer") {
        Some(x) => x,
        None => return Err(BadField::VerticalBuffer),
    };
    let default_column_width: u32 = match get_u32_field(txt, "defaultColumnWidth") {
        Some(x) => x,
        None => return Err(BadField::DefaultColumnWidth),
    };
    let default_row_height: u32 = match get_u32_field(txt, "defaultRowHeight") {
        Some(x) => x,
        None => return Err(BadField::DefaultRowHeight),
    };
    let scroll_left: u64 = match json_frame_u64(txt, "scrollLeft") {
        Some(x) => x,
        None => return Err(BadField::ScrollLeft),
    };
    let scroll_top: u64 = match json_frame_u64(txt, "scrollTop") {
        Some(x) => x,
        None => return Err(BadField::ScrollTop),
    };
    if default_column_width == 0 {
        return Err(BadField::DefaultColumnWidth);
    }
    if default_row_height == 0 {
        return Err(BadField::DefaultRowHeight);
    }
    Ok(
        SliceRequest {
            screen_width,
            screen_height,
            horizontal_buffer,
            vertical_buffer,
            default_column_width,
            default_row_height,
            scroll_left,
            scroll_top,
        },
    )
}

/// Decodes an inbound text frame into the message it carries: exactly
/// the message `decode_spec` prescribes for the text.
pub fn decode_frame(txt: &str) -> (m: InboundMsg)
    ensures
        m == decode_spec(txt@),
        m.wf(),
{
    if !json_frame_is_valid(txt) {
        return InboundMsg::InvalidJson;
    }
    match json_frame_type(txt) {
        None => InboundMsg::UnknownType,
        Some(name) => {
            if name == String::from_str("metadata_request") {
                InboundMsg::MetadataRequest
            } else if name == String::from_str("slice_request") {
                match decode_slice_request(txt) {
                    Ok(req) => InboundMsg::SliceRequestMsg(req),
                    Err(f) => InboundMsg::BadSliceRequest(f),
                }
            } else {
                InboundMsg::UnknownType
            }
        },
    }
}

/// Renders the reply a decoded message is owed: exactly `reply_chars`.
/// The reply is a function of the message alone, which is what makes
/// request handling idempotent.
pub fn reply_for(m: &InboundMsg) -> (r: String)
    requires
        m.wf(),
    ensures
        r@ == reply_chars(*m),
{
    match m {
        InboundMsg::InvalidJson => error_response_json("invalid json"),
        InboundMsg::UnknownType => error_response_json("unknown message type"),
        InboundMsg::MetadataRequest => metadata_response_json(),
        InboundMsg::BadSliceRequest(f) => {
            let mut msg = String::from_str("bad request: invalid field: ");
            msg.append(f.name());
            let r = error_response_json(msg.as_str());
            proof {
                assert(r@ =~= reply_chars(*m));
            }
            r
        },
        InboundMsg::SliceRequestMsg(req) => slice_reply(req),
    }
}

/// Handles one inbound text frame end to end: decode, then reply. The
/// reply is exactly the one the decoded message prescribes — the
/// invalid-json error for a frame that is not JSON, the unknown-type
/// error for one without a recognized `type`, the metadata constant for
/// a metadata query, and the rendered slice or the field-naming bad
/// request for a slice request.
pub fn handle_text_frame(txt: &str) -> (r: String)
    ensures
        r@ == reply_chars(decode_spec(txt@)),
        decode_spec(txt@).wf(),
{
    let m = decode_frame(txt);
    reply_for(&m)
}

/// Issuing equal requests yields byte-identical replies: the reply text
/// is a function of the decoded message alone, and no state intervenes.
pub proof fn lemma_reply_idempotent(m1: InboundMsg, m2: InboundMsg)
    requires
        m1 == m2,
    ensures
        reply_chars(m1) == reply_chars(m2),
{
}

} // verus!
