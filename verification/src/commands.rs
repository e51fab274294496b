//! The control channel's message types and the websocket session's decision
//! core.
//!
//! The transport — websocket framing, JSON decoding and encoding — lives in
//! the unverified shell. The shell turns every received frame into a
//! [`WsEvent`], hands it to [`handle_ws_event`], and then performs the
//! returned [`WsAction`]: it sends, closes, logs, or just keeps listening.

use vstd::prelude::*;

use crate::frame::{PIXEL_COUNT, spec_grb, spec_rgb};
use crate::ws2812b::Ws2812b;

verus! {

/// A client command received over the control channel.
#[derive(Clone, Copy, PartialEq, Eq, Debug)]
pub enum Command {
    /// Set one pixel to the given (red, green, blue) color.
    ChangeColor { index: u8, rgb: (u8, u8, u8) },
    /// Ask for the current color of every pixel.
    QueryColors,
}

/// Why reading a websocket message failed.
#[derive(Clone, Copy, PartialEq, Eq, Structural, Debug)]
pub enum ReadErrorKind {
    /// The underlying transport failed; the session cannot continue.
    Io,
    /// A malformed frame arrived.
    Frame,
    /// A message started with a continuation frame.
    StartsWithContinuation,
    /// A message started with an unexpected frame.
    UnexpectedStart,
    /// A frame used a reserved opcode.
    ReservedOpcode,
    /// A text message was not valid UTF-8.
    NotUtf8,
}

/// One websocket event, as handed in by the transport shell.
#[derive(Clone, Copy, PartialEq, Eq, Debug)]
pub enum WsEvent {
    /// A text message arrived; the channel accepts only binary data.
    Text,
    /// A binary message arrived: `command` is what the JSON decoder made of
    /// it (`None` where decoding failed), `consumed` how many of its bytes
    /// the decoder consumed, and `len` its full length.
    Binary { command: Option<Command>, consumed: usize, len: usize },
    /// The peer asked to close the connection.
    Close,
    /// A ping arrived.
    Ping,
    /// A pong arrived.
    Pong,
    /// Reading a message failed.
    ReadError { kind: ReadErrorKind },
}

/// What the session must do in response to an event.
#[derive(Clone, Copy, PartialEq, Eq, Debug)]
pub enum WsAction {
    /// Nothing to send; keep listening.
    Ignore,
    /// Reply with the current color of every pixel, in caller order.
    SendColors { colors: [(u8, u8, u8); PIXEL_COUNT] },
    /// Answer the ping with a pong carrying the same payload.
    SendPong,
    /// Close the connection, with the given protocol code or silently.
    CloseConnection { code: Option<u16> },
    /// The transport failed; propagate the failure to the server.
    PropagateError,
    /// Log a command that was well-formed but not executable.
    LogUnexpected,
    /// Log a message that failed to decode.
    LogParseError,
}

/// The close-or-propagate decision for each kind of read failure.
pub open spec fn spec_read_error_action(kind: ReadErrorKind) -> WsAction {
    match kind {
        ReadErrorKind::Io => WsAction::PropagateError,
        ReadErrorKind::Frame => WsAction::CloseConnection { code: Some(1002u16) },
        ReadErrorKind::StartsWithContinuation => WsAction::CloseConnection {
            code: Some(1002u16),
        },
        ReadErrorKind::UnexpectedStart => WsAction::CloseConnection { code: Some(1002u16) },
        ReadErrorKind::ReservedOpcode => WsAction::CloseConnection { code: Some(1003u16) },
        ReadErrorKind::NotUtf8 => WsAction::CloseConnection { code: Some(1007u16) },
    }
}

/// A binary event whose command must actually be executed: a fully consumed
/// message holding a `ChangeColor` with an index on the strip.
pub open spec fn spec_is_valid_change(event: WsEvent) -> bool {
    event matches WsEvent::Binary {
        command: Some(Command::ChangeColor { index, rgb }),
        consumed,
        len,
    } && consumed == len && index < PIXEL_COUNT
}

/// The decision core of one websocket session: called once per received
/// event, it updates the pixel store where the event asks for that and says
/// what the transport must do next.
///
/// A fully consumed binary `ChangeColor` with an on-strip index writes the
/// pixel and requests a render; any other `ChangeColor` is only logged, so
/// an out-of-range index can never reach the store. `QueryColors` reads the
/// colors back in caller order under the same exclusive access as edits —
/// the access requests a render, so a query also refreshes the strip. Text
/// messages close the session (only binary data is accepted), read failures
/// close it with the matching protocol code or, for transport failures,
/// propagate, and everything else leaves the store untouched.
pub fn handle_ws_event(ws: &mut Ws2812b, event: WsEvent) -> (action: WsAction)
    ensures
        spec_is_valid_change(event) ==> (event matches WsEvent::Binary {
            command: Some(Command::ChangeColor { index, rgb }),
            ..
        } ==> final(ws).spec_frame()@ == old(ws).spec_frame()@.update(index as int, spec_grb(rgb))
            && final(ws).spec_pending() && action == WsAction::Ignore),
        (event matches WsEvent::Binary { command: Some(Command::ChangeColor { .. }), .. }
            && !spec_is_valid_change(event)) ==> (*final(ws) == *old(ws) && action
            == WsAction::LogUnexpected),
        event matches WsEvent::Binary { command: Some(Command::QueryColors), .. } ==> (
        final(ws).spec_frame() == old(ws).spec_frame() && final(ws).spec_pending() && (action
            matches WsAction::SendColors { colors } && forall|i: int|
            0 <= i < PIXEL_COUNT ==> colors@[i] == spec_rgb(old(ws).spec_frame()@[i]))),
        event matches WsEvent::Binary { command: None, .. } ==> (*final(ws) == *old(ws) && action
            == WsAction::LogParseError),
        event == WsEvent::Text ==> (*final(ws) == *old(ws) && action == (
        WsAction::CloseConnection { code: Some(1003u16) })),
        event == WsEvent::Close ==> (*final(ws) == *old(ws) && action == (
        WsAction::CloseConnection { code: None })),
        event == WsEvent::Ping ==> (*final(ws) == *old(ws) && action == WsAction::SendPong),
        event == WsEvent::Pong ==> (*final(ws) == *old(ws) && action == WsAction::Ignore),
        event matches WsEvent::ReadError { kind } ==> (*final(ws) == *old(ws) && action
            == spec_read_error_action(kind)),
{
    match event {
        WsEvent::Text => WsAction::CloseConnection { code: Some(1003) },
        WsEvent::Binary { command, consumed, len } => match command {
            Some(Command::ChangeColor { index, rgb }) => {
                if consumed == len && (index as usize) < PIXEL_COUNT {
                    ws.set_pixel(index as usize, rgb);
                    WsAction::Ignore
                } else {
                    WsAction::LogUnexpected
                }
            },
            Some(Command::QueryColors) => {
                let colors = ws.query_colors();
                WsAction::SendColors { colors }
            },
            None => WsAction::LogParseError,
        },
        WsEvent::Close => WsAction::CloseConnection { code: None },
        WsEvent::Ping => WsAction::SendPong,
        WsEvent::Pong => WsAction::Ignore,
        WsEvent::ReadError { kind } => match kind {
            ReadErrorKind::Io => WsAction::PropagateError,
            ReadErrorKind::Frame => WsAction::CloseConnection { code: Some(1002) },
            ReadErrorKind::StartsWithContinuation => WsAction::CloseConnection {
                code: Some(1002),
            },
            ReadErrorKind::UnexpectedStart => WsAction::CloseConnection { code: Some(1002) },
            ReadErrorKind::ReservedOpcode => WsAction::CloseConnection { code: Some(1003) },
            ReadErrorKind::NotUtf8 => WsAction::CloseConnection { code: Some(1007) },
        },
    }
}

} // verus!
