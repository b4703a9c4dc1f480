use vstd::prelude::*;

verus! {

/// A note request received over the web socket.
#[derive(Clone, Copy, Debug, PartialEq, Eq, Structural)]
pub enum WebSocketIncomingMessage {
    /// Start sounding the given MIDI note number.
    NoteOn(u8),
    /// Stop sounding the given MIDI note number.
    NoteOff(u8),
}

} // verus!
