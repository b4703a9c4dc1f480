use firmware::controller::{ButtonPhase, MidiController, MidiEvent, NoteCommand, PinLevel};
use firmware::types::WebSocketIncomingMessage;

#[test]
fn new_controller_awaits_press() {
    let c = MidiController::new();
    assert_eq!(c.phase(), ButtonPhase::AwaitPress);
    assert_eq!(c.awaited_level(), PinLevel::Low);
}

#[test]
fn press_then_release_plays_c3() {
    let mut c = MidiController::new();
    assert_eq!(c.step(MidiEvent::ButtonPressed), Some(NoteCommand { note: 60, on: true }));
    assert_eq!(c.phase(), ButtonPhase::AwaitRelease);
    assert_eq!(c.awaited_level(), PinLevel::High);
    assert_eq!(c.step(MidiEvent::ButtonReleased), Some(NoteCommand { note: 60, on: false }));
    assert_eq!(c.phase(), ButtonPhase::AwaitPress);
}

#[test]
fn unawaited_button_events_do_nothing() {
    let mut c = MidiController::new();
    assert_eq!(c.step(MidiEvent::ButtonReleased), None);
    assert_eq!(c.phase(), ButtonPhase::AwaitPress);
    c.step(MidiEvent::ButtonPressed);
    assert_eq!(c.step(MidiEvent::ButtonPressed), None);
    assert_eq!(c.phase(), ButtonPhase::AwaitRelease);
}

#[test]
fn incoming_requests_are_played_and_reset_the_button() {
    let mut c = MidiController::new();
    c.step(MidiEvent::ButtonPressed);
    assert_eq!(
        c.step(MidiEvent::Incoming(WebSocketIncomingMessage::NoteOn(72))),
        Some(NoteCommand { note: 72, on: true })
    );
    assert_eq!(c.phase(), ButtonPhase::AwaitPress);
    assert_eq!(
        c.step(MidiEvent::Incoming(WebSocketIncomingMessage::NoteOff(72))),
        Some(NoteCommand { note: 72, on: false })
    );
    assert_eq!(c.phase(), ButtonPhase::AwaitPress);
}

#[test]
fn button_alone_alternates_on_and_off() {
    let mut c = MidiController::new();
    let events = [
        MidiEvent::ButtonPressed,
        MidiEvent::ButtonPressed,
        MidiEvent::ButtonReleased,
        MidiEvent::ButtonReleased,
        MidiEvent::ButtonPressed,
        MidiEvent::ButtonReleased,
        MidiEvent::ButtonPressed,
    ];
    let mut sent = Vec::new();
    for e in events {
        if let Some(cmd) = c.step(e) {
            sent.push(cmd);
        }
    }
    assert_eq!(sent.len(), 5);
    for (i, cmd) in sent.iter().enumerate() {
        assert_eq!(cmd.note, 60);
        assert_eq!(cmd.on, i % 2 == 0);
    }
    assert_eq!(c.phase(), ButtonPhase::AwaitRelease);
}
