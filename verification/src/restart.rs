use vstd::prelude::*;

verus! {

/// The byte `r`.
pub const RESTART_COMMAND_LOWER: u8 = 0x72;

/// The byte `R`.
pub const RESTART_COMMAND_UPPER: u8 = 0x52;

/// Data received on the serial port asks for a restart: its first byte is
/// `r` or `R`.
pub open spec fn is_restart_command(data: Seq<u8>) -> bool {
    data.len() > 0 && (data[0] == RESTART_COMMAND_LOWER || data[0] == RESTART_COMMAND_UPPER)
}

/// Only the first byte of the data decides: whatever bytes follow it, the
/// data asks for a restart exactly when the first byte alone does.
pub proof fn law_restart_decided_by_first_byte(data: Seq<u8>, rest: Seq<u8>)
    requires
        data.len() > 0,
    ensures
        is_restart_command(data) == is_restart_command(seq![data[0]]),
        is_restart_command(seq![data[0]] + rest) == is_restart_command(seq![data[0]]),
{
}

/// The restart command is the letter r, in either case: a first byte asks for
/// a restart exactly when it is `b'r'` (114) or `b'R'` (82); every other first
/// byte, and empty data, leaves the device running.
pub proof fn law_restart_only_on_r(first: u8, rest: Seq<u8>)
    ensures
        is_restart_command(seq![first] + rest) <==> (first == 114u8 || first == 82u8),
        !is_restart_command(Seq::<u8>::empty()),
{
    assert((seq![first] + rest)[0] == first);
}

/// Handles data that the host sends over the USB serial (CDC-ACM) port.
#[derive(Clone, Copy, Debug, PartialEq, Eq, Structural)]
pub struct RestartHandler;

impl RestartHandler {
    /// A new handler.
    pub fn new() -> (h: Self)
        ensures
            h == RestartHandler,
    {
        RestartHandler
    }

    /// Whether `data` asks the device to restart: its first byte is `r` or `R`.
    pub fn wants_restart(&self, data: &[u8]) -> (restart: bool)
        ensures
            restart == is_restart_command(data@),
            restart <==> (data@.len() > 0 && (data@[0] == 114u8 || data@[0] == 82u8)),
    {
        if data.len() == 0 {
            false
        } else {
            let first = data[0];
            first == RESTART_COMMAND_LOWER || first == RESTART_COMMAND_UPPER
        }
    }
}

/// Why a write to a USB endpoint failed.
#[derive(Clone, Copy, Debug, PartialEq, Eq, Structural)]
pub enum EndpointFault {
    /// The data did not fit the endpoint's buffer.
    BufferOverflow,
    /// The endpoint is disabled: the host went away.
    Disabled,
}

/// The MIDI connection was lost; the task waits for the host to connect again.
#[derive(Clone, Copy, Debug, PartialEq, Eq, Structural)]
pub struct Disconnected;

impl Disconnected {
    /// A disabled endpoint is a graceful disconnect. (A buffer overflow is a
    /// fault of the firmware, not a disconnect, and is not accepted here.)
    pub fn from_endpoint_fault(fault: EndpointFault) -> (d: Self)
        requires
            fault == EndpointFault::Disabled,
        ensures
            d == Disconnected,
    {
        Disconnected
    }
}

} // verus!
