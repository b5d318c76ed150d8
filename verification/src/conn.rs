//! The per-connection state machine: what to do with each transport
//! event. The surrounding I/O loop performs the action and hands the
//! next event back; every decision is made here.

use vstd::prelude::*;
use crate::protocol::{decode_spec, handle_text_frame, reply_chars};

verus! {

/// One transport event, as the I/O loop observes it.
pub enum ConnEvent {
    /// A text frame arrived, carrying the given payload.
    Text(String),
    /// The peer sent an explicit close frame.
    CloseFrame,
    /// Some other frame (binary, ping, pong) arrived.
    OtherFrame,
    /// Receiving failed at the transport level.
    ReceiveError,
}

/// What the I/O loop must do next. A failed send of a reply is
/// deliberately swallowed by the loop (log-and-continue): the next
/// receive detects a dead peer.
pub enum ConnAction {
    /// Send this reply, then await the next event.
    Reply(String),
    /// Await the next event without replying.
    Continue,
    /// Close the connection.
    Stop,
}

/// Decides one step of the connection's life: every text frame gets
/// exactly the protocol reply its decoded message prescribes, and the
/// connection stays open; a close frame or a receive error ends it; any
/// other frame is ignored.
pub fn next_action(ev: ConnEvent) -> (a: ConnAction)
    ensures
        (ev matches ConnEvent::Text(t) ==> a matches ConnAction::Reply(r) && r@ == reply_chars(
            decode_spec(t@),
        )),
        (ev matches ConnEvent::CloseFrame ==> a matches ConnAction::Stop),
        (ev matches ConnEvent::OtherFrame ==> a matches ConnAction::Continue),
        (ev matches ConnEvent::ReceiveError ==> a matches ConnAction::Stop),
{
    match ev {
        ConnEvent::Text(txt) => ConnAction::Reply(handle_text_frame(txt.as_str())),
        ConnEvent::CloseFrame => ConnAction::Stop,
        ConnEvent::OtherFrame => ConnAction::Continue,
        ConnEvent::ReceiveError => ConnAction::Stop,
    }
}

} // verus!
