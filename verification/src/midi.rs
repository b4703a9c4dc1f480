use vstd::prelude::*;
use midi_convert::midi_types::{Channel, MidiMessage, Note, Value7};
use midi_convert::render_slice::MidiRenderSlice;
use usbd_midi::{CableNumber, UsbMidiEventPacket, UsbMidiEventPacketError};

verus! {

/// The MIDI channel the device plays on: channel 1, which is 0 on the wire.
pub const MIDI_CHANNEL: u8 = 0;

/// Velocity of a Note On message.
pub const MIDI_VELOCITY_ON: u8 = 100;

/// Velocity of a Note Off message.
pub const MIDI_VELOCITY_OFF: u8 = 0;

/// The note that the button plays: C3, note number 60 (C-2 is 0).
pub const BUTTON_NOTE: u8 = 60;

/// The USB MIDI cable (embedded jack) that every packet is sent on.
pub const USB_MIDI_CABLE: u8 = 0;

/// The largest MIDI data value (notes, velocities).
pub const MIDI_DATA_MAX: u8 = 127;

/// Status byte of a Note Off message on channel 1.
pub const NOTE_OFF_STATUS: u8 = 0x80;

/// Status byte of a Note On message on channel 1.
pub const NOTE_ON_STATUS: u8 = 0x90;

/// A channel-voice note message, by its plain fields.
#[derive(Clone, Copy, Debug, PartialEq, Eq, Structural)]
pub enum NoteMessage {
    NoteOn { channel: u8, note: u8, velocity: u8 },
    NoteOff { channel: u8, note: u8, velocity: u8 },
}

impl NoteMessage {
    /// Channel, note and velocity are in the ranges that MIDI allows.
    pub open spec fn valid(self) -> bool {
        match self {
            NoteMessage::NoteOn { channel, note, velocity } => channel <= 15 && note
                <= MIDI_DATA_MAX && velocity <= MIDI_DATA_MAX,
            NoteMessage::NoteOff { channel, note, velocity } => channel <= 15 && note
                <= MIDI_DATA_MAX && velocity <= MIDI_DATA_MAX,
        }
    }

    /// The three bytes of the message on the wire: status (kind and channel),
    /// note number, velocity.
    pub open spec fn wire_bytes(self) -> Seq<u8> {
        match self {
            NoteMessage::NoteOn { channel, note, velocity } => seq![
                (NOTE_ON_STATUS + channel) as u8,
                note,
                velocity,
            ],
            NoteMessage::NoteOff { channel, note, velocity } => seq![
                (NOTE_OFF_STATUS + channel) as u8,
                note,
                velocity,
            ],
        }
    }
}

/// A status byte of a channel-voice message that carries two data bytes:
/// Note Off, Note On, Poly Key Pressure, Control Change or Pitch Bend.
pub open spec fn is_three_byte_voice_status(status: u8) -> bool {
    0x80 <= status < 0xC0 || 0xE0 <= status < 0xF0
}

/// A USB MIDI event packet: the header byte holds the cable number in its
/// high nibble and the code index number in its low nibble; for a
/// channel-voice message the code index number is the status byte's high
/// nibble. The three MIDI bytes follow.
pub open spec fn usb_event_packet(cable: u8, midi: Seq<u8>) -> Seq<u8> {
    seq![(cable * 16 + midi[0] / 16) as u8, midi[0], midi[1], midi[2]]
}

/// A note number held in the MIDI range: numbers above 127 become 127.
pub open spec fn clamped_note(note: u8) -> u8 {
    if note > MIDI_DATA_MAX {
        MIDI_DATA_MAX
    } else {
        note
    }
}

/// The message that the device sends for a note being switched on or off.
pub open spec fn note_message(note: u8, is_on: bool) -> NoteMessage {
    if is_on {
        NoteMessage::NoteOn {
            channel: MIDI_CHANNEL,
            note: clamped_note(note),
            velocity: MIDI_VELOCITY_ON,
        }
    } else {
        NoteMessage::NoteOff {
            channel: MIDI_CHANNEL,
            note: clamped_note(note),
            velocity: MIDI_VELOCITY_OFF,
        }
    }
}

/// The four bytes written to the USB MIDI endpoint for a note being switched
/// on or off.
pub open spec fn note_packet_bytes(note: u8, is_on: bool) -> Seq<u8> {
    usb_event_packet(USB_MIDI_CABLE, note_message(note, is_on).wire_bytes())
}

/// `usbd_midi`'s error for a payload it cannot wrap, carried as an opaque value.
#[verifier::external_type_specification]
#[verifier::external_body]
pub struct ExUsbMidiEventPacketError(UsbMidiEventPacketError);

/// Renders a note message with `midi_convert`'s `MidiRenderSlice::render_slice`
/// into a three-byte buffer. Claimed of the outside code: for values in the MIDI
/// ranges the conversions into `Channel`, `Note` and `Value7` keep the value,
/// and `render_slice` writes the status byte (0x80 or 0x90 or-ed with the
/// channel, which is their sum for a channel below 16), then the note, then
/// the velocity.
#[verifier::external_body]
fn render_note_message(msg: NoteMessage) -> (bytes: [u8; 3])
    requires
        msg.valid(),
    ensures
        bytes@ == msg.wire_bytes(),
{
    let message = match msg {
        NoteMessage::NoteOn { channel, note, velocity } => MidiMessage::NoteOn(
            Channel::from(channel),
            Note::from(note),
            Value7::from(velocity),
        ),
        NoteMessage::NoteOff { channel, note, velocity } => MidiMessage::NoteOff(
            Channel::from(channel),
            Note::from(note),
            Value7::from(velocity),
        ),
    };
    let mut bytes = [0u8; 3];
    message.render_slice(&mut bytes);
    bytes
}

/// Wraps MIDI payload bytes into a USB MIDI event packet with `usbd_midi`'s
/// `UsbMidiEventPacket::try_from_payload_bytes` and returns the packet's four
/// raw bytes (the cable number is converted with `CableNumber::try_from`, the
/// packet with its `From` conversion into `[u8; 4]`). Claimed of the outside
/// code: on a payload of at least three bytes whose first byte is the status of
/// a three-byte channel-voice message, the call succeeds and the packet is the
/// header `cable << 4 | status >> 4` followed by the three payload bytes. Of
/// other payloads nothing is stated.
#[verifier::external_body]
fn usb_midi_event_packet(cable: u8, payload: &[u8]) -> (packet: Result<[u8; 4], UsbMidiEventPacketError>)
    requires
        cable <= 15,
    ensures
        payload@.len() >= 3 && is_three_byte_voice_status(payload@[0]) ==> packet is Ok,
        packet matches Ok(raw) ==> payload@.len() >= 3 && is_three_byte_voice_status(payload@[0]) ==> raw@ == usb_event_packet(cable, payload@),
{
    let cable = CableNumber::try_from(cable).unwrap_or_default();
    match UsbMidiEventPacket::try_from_payload_bytes(cable, payload) {
        Ok(packet) => Ok(packet.into()),
        Err(e) => Err(e),
    }
}

/// Holds a note number in the MIDI range, as `midi_types::Note::new` does.
pub fn clamp_note(note: u8) -> (n: u8)
    ensures
        n == clamped_note(note),
        note <= 127 ==> n == note,
        note > 127 ==> n == 127,
{
    if note > MIDI_DATA_MAX {
        MIDI_DATA_MAX
    } else {
        note
    }
}

/// The USB MIDI packet that switches `note` on (`is_on`) or off on channel 1,
/// cable 0: a Note On with velocity 100 or a Note Off with velocity 0. A note
/// number above 127 is held at 127.
pub fn midi_note_packet(note: u8, is_on: bool) -> (packet: [u8; 4])
    ensures
        packet@ == note_packet_bytes(note, is_on),
        note <= 127 ==> packet[2] == note,
        note > 127 ==> packet[2] == 127,
{
    proof {
        law_note_byte_is_requested_note(note, is_on);
    }
    let note = clamp_note(note);
    let message = if is_on {
        NoteMessage::NoteOn { channel: MIDI_CHANNEL, note, velocity: MIDI_VELOCITY_ON }
    } else {
        NoteMessage::NoteOff { channel: MIDI_CHANNEL, note, velocity: MIDI_VELOCITY_OFF }
    };
    let payload = render_note_message(message);
    match usb_midi_event_packet(USB_MIDI_CABLE, &payload) {
        Ok(raw) => raw,
        Err(_) => {
            proof {
                assert(false);
            }
            [0u8; 4]
        },
    }
}

/// Every note packet is four bytes sent on cable 0: the header's high nibble
/// is the cable, its low nibble the kind of message (9 for Note On, 8 for Note
/// Off), and the three bytes after it are the MIDI message itself.
pub proof fn law_note_packet_layout(note: u8, is_on: bool)
    ensures
        note_packet_bytes(note, is_on).len() == 4,
        note_packet_bytes(note, is_on)[0] / 16 == USB_MIDI_CABLE,
        note_packet_bytes(note, is_on)[0] % 16 == (if is_on { 9int } else { 8int }),
        note_packet_bytes(note, is_on).subrange(1, 4) == note_message(note, is_on).wire_bytes(),
{
    assert(note_packet_bytes(note, is_on).subrange(1, 4) =~= note_message(note, is_on).wire_bytes());
}

/// The bytes of a note packet: Note On of a note on channel 1 with velocity 100
/// is `09 90 nn 64`, Note Off with velocity 0 is `08 80 nn 00`, where `nn` is
/// the note number held at 127.
pub proof fn law_note_packet_bytes(note: u8, is_on: bool)
    ensures
        note_packet_bytes(note, is_on) == (if is_on {
            seq![0x09u8, 0x90u8, clamped_note(note), 100u8]
        } else {
            seq![0x08u8, 0x80u8, clamped_note(note), 0u8]
        }),
{
    assert(note_packet_bytes(note, is_on) =~= (if is_on {
        seq![0x09u8, 0x90u8, clamped_note(note), 100u8]
    } else {
        seq![0x08u8, 0x80u8, clamped_note(note), 0u8]
    }));
}

/// The packet plays the note that was asked for: for every note number up to
/// 127, On or Off, the note byte of the packet is that number itself; only a
/// number above 127 is changed, to 127. The header, status and velocity bytes
/// do not depend on the note.
pub proof fn law_note_byte_is_requested_note(note: u8, is_on: bool)
    ensures
        note_packet_bytes(note, is_on).len() == 4,
        note <= 127 ==> note_packet_bytes(note, is_on)[2] == note,
        note > 127 ==> note_packet_bytes(note, is_on)[2] == 127,
        forall|other: u8, i: int|
            0 <= i < 4 && i != 2 ==> #[trigger] note_packet_bytes(other, is_on)[i]
                == note_packet_bytes(note, is_on)[i],
{
}

/// A note number above the MIDI range plays as the highest note, 127.
pub proof fn law_note_above_range_is_highest(note: u8, is_on: bool)
    requires
        note > MIDI_DATA_MAX,
    ensures
        note_packet_bytes(note, is_on) == note_packet_bytes(MIDI_DATA_MAX, is_on),
{
}

/// Distinct notes in the MIDI range give distinct packets, and switching a
/// note on never gives the same packet as switching a note off.
pub proof fn law_note_packets_distinct(n1: u8, on1: bool, n2: u8, on2: bool)
    requires
        n1 <= MIDI_DATA_MAX,
        n2 <= MIDI_DATA_MAX,
        (n1, on1) != (n2, on2),
    ensures
        note_packet_bytes(n1, on1) != note_packet_bytes(n2, on2),
{
    law_note_packet_bytes(n1, on1);
    law_note_packet_bytes(n2, on2);
    if n1 != n2 {
        assert(note_packet_bytes(n1, on1)[2] != note_packet_bytes(n2, on2)[2]);
    } else {
        assert(note_packet_bytes(n1, on1)[0] != note_packet_bytes(n2, on2)[0]);
    }
}

} // verus!
