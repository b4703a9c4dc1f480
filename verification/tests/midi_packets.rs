use firmware::controller::NoteCommand;
use firmware::midi::{clamp_note, midi_note_packet, BUTTON_NOTE, MIDI_CHANNEL, USB_MIDI_CABLE};

#[test]
fn button_note_on_packet() {
    assert_eq!(midi_note_packet(BUTTON_NOTE, true), [0x09, 0x90, 60, 100]);
}

#[test]
fn button_note_off_packet() {
    assert_eq!(midi_note_packet(BUTTON_NOTE, false), [0x08, 0x80, 60, 0]);
}

#[test]
fn lowest_and_highest_notes() {
    assert_eq!(midi_note_packet(0, true), [0x09, 0x90, 0, 100]);
    assert_eq!(midi_note_packet(127, false), [0x08, 0x80, 127, 0]);
}

#[test]
fn note_above_range_is_held_at_127() {
    assert_eq!(midi_note_packet(200, true), [0x09, 0x90, 127, 100]);
    assert_eq!(midi_note_packet(128, false), midi_note_packet(127, false));
    assert_eq!(clamp_note(255), 127);
    assert_eq!(clamp_note(64), 64);
}

#[test]
fn packet_layout_cable_and_payload() {
    for note in [0u8, 21, 60, 72, 108, 127] {
        for on in [true, false] {
            let p = midi_note_packet(note, on);
            assert_eq!(p[0] >> 4, USB_MIDI_CABLE);
            assert_eq!(p[0] & 0x0f, if on { 0x9 } else { 0x8 });
            assert_eq!(p[1] & 0x0f, MIDI_CHANNEL);
            assert_eq!(p[1] >> 4, p[0] & 0x0f);
            assert_eq!(p[2], note);
        }
    }
}

#[test]
fn distinct_notes_give_distinct_packets() {
    assert_ne!(midi_note_packet(60, true), midi_note_packet(61, true));
    assert_ne!(midi_note_packet(60, true), midi_note_packet(60, false));
}

#[test]
fn note_command_packet() {
    let c = NoteCommand { note: 64, on: true };
    assert_eq!(c.packet(), [0x09, 0x90, 64, 100]);
    let c = NoteCommand { note: 64, on: false };
    assert_eq!(c.packet(), [0x08, 0x80, 64, 0]);
}
