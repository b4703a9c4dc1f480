use vstd::prelude::*;
use crate::types::WebSocketIncomingMessage;

verus! {

/// What reading the next web-socket message gave. The JSON of a text or
/// binary message has been decoded already: `None` when it was not a valid
/// note request.
#[derive(Clone, Copy, Debug)]
pub enum SocketEvent<'a> {
    /// No message arrived before the read timed out.
    Idle,
    /// The message could not be read; the close code that the error calls for.
    ReadFailed(u16),
    /// A text message, decoded.
    Text(Option<WebSocketIncomingMessage>),
    /// A binary message, decoded.
    Binary(Option<WebSocketIncomingMessage>),
    /// The peer closed the socket.
    Close,
    /// A ping with its payload.
    Ping(&'a [u8]),
    /// A pong.
    Pong,
}

/// What the handler does about a `SocketEvent`.
#[derive(Clone, Copy, Debug)]
pub enum SocketAction<'a> {
    /// Read the next message.
    Continue,
    /// Hand the note request to the MIDI task, then read the next message.
    Forward(WebSocketIncomingMessage),
    /// Answer with a pong carrying this payload, then read the next message.
    SendPong(&'a [u8]),
    /// Close the socket, with a close code and reason when an error caused it,
    /// and end the session.
    Close(Option<(u16, &'static str)>),
}

/// The close reason sent when reading a message failed.
pub const WEB_SOCKET_ERROR_REASON: &'static str = "Websocket Error";

/// The action for each event: note requests are forwarded, messages that are
/// not note requests and pongs are skipped, a ping is answered with a pong of
/// the same payload, and the session ends when the peer closes (no reason) or
/// a read fails (that error's code, reason "Websocket Error").
pub open spec fn socket_action<'a>(event: SocketEvent<'a>) -> SocketAction<'a> {
    match event {
        SocketEvent::Idle => SocketAction::Continue,
        SocketEvent::ReadFailed(code) => SocketAction::Close(Some((code, WEB_SOCKET_ERROR_REASON))),
        SocketEvent::Text(Some(m)) => SocketAction::Forward(m),
        SocketEvent::Text(None) => SocketAction::Continue,
        SocketEvent::Binary(Some(m)) => SocketAction::Forward(m),
        SocketEvent::Binary(None) => SocketAction::Continue,
        SocketEvent::Close => SocketAction::Close(None),
        SocketEvent::Ping(payload) => SocketAction::SendPong(payload),
        SocketEvent::Pong => SocketAction::Continue,
    }
}

/// Decides what the web-socket handler does with the next event.
pub fn next_action<'a>(event: SocketEvent<'a>) -> (action: SocketAction<'a>)
    ensures
        action == socket_action(event),
{
    match event {
        SocketEvent::Idle => SocketAction::Continue,
        SocketEvent::ReadFailed(code) => SocketAction::Close(Some((code, WEB_SOCKET_ERROR_REASON))),
        SocketEvent::Text(Some(m)) => SocketAction::Forward(m),
        SocketEvent::Text(None) => SocketAction::Continue,
        SocketEvent::Binary(Some(m)) => SocketAction::Forward(m),
        SocketEvent::Binary(None) => SocketAction::Continue,
        SocketEvent::Close => SocketAction::Close(None),
        SocketEvent::Ping(payload) => SocketAction::SendPong(payload),
        SocketEvent::Pong => SocketAction::Continue,
    }
}

/// The session ends exactly when the peer closes the socket or a read fails;
/// a pong always carries the ping's own payload; and a note request reaches
/// the MIDI task exactly when a text or binary message decoded to one, and
/// then unchanged.
pub proof fn law_session_rules<'a>(event: SocketEvent<'a>)
    ensures
        socket_action(event) is Close <==> (event is Close || event is ReadFailed),
        event matches SocketEvent::Ping(p) ==> socket_action(event) == SocketAction::SendPong(p),
        socket_action(event) matches SocketAction::Forward(m) ==> (event == SocketEvent::Text(
            Some(m),
        ) || event == SocketEvent::Binary(Some(m))),
        event matches SocketEvent::Text(Some(m)) ==> socket_action(event) == SocketAction::Forward(m),
        event matches SocketEvent::Binary(Some(m)) ==> socket_action(event) == SocketAction::Forward(m),
{
}

} // verus!
