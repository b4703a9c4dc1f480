use vstd::prelude::*;
use crate::midi::{midi_note_packet, note_packet_bytes, BUTTON_NOTE};
use crate::types::WebSocketIncomingMessage;

verus! {

/// What the button task is waiting for.
#[derive(Clone, Copy, Debug, PartialEq, Eq, Structural)]
pub enum ButtonPhase {
    /// Waiting for the button to be pressed (the pin to go low).
    AwaitPress,
    /// The note is sounding; waiting for the button to be released (the pin to go high).
    AwaitRelease,
}

/// A level of the button pin, which is pulled up: low means pressed.
#[derive(Clone, Copy, Debug, PartialEq, Eq, Structural)]
pub enum PinLevel {
    Low,
    High,
}

/// Something that happened while the MIDI task was waiting.
#[derive(Clone, Copy, Debug, PartialEq, Eq, Structural)]
pub enum MidiEvent {
    /// The button pin went low.
    ButtonPressed,
    /// The button pin went high.
    ButtonReleased,
    /// A note request arrived over the web socket.
    Incoming(WebSocketIncomingMessage),
}

/// A note to switch on or off.
#[derive(Clone, Copy, Debug, PartialEq, Eq, Structural)]
pub struct NoteCommand {
    pub note: u8,
    pub on: bool,
}

impl NoteCommand {
    /// The USB MIDI packet that carries this command.
    pub fn packet(&self) -> (packet: [u8; 4])
        ensures
            packet@ == note_packet_bytes(self.note, self.on),
    {
        midi_note_packet(self.note, self.on)
    }
}

/// The next phase and the note to send, when `event` happens in `phase`.
/// A button event that is not the awaited one changes nothing. A web-socket
/// request is played at once and, since it cancels the button task, the
/// button task starts over waiting for a press.
pub open spec fn midi_step(phase: ButtonPhase, event: MidiEvent) -> (ButtonPhase, Option<NoteCommand>) {
    match event {
        MidiEvent::ButtonPressed => match phase {
            ButtonPhase::AwaitPress => (
                ButtonPhase::AwaitRelease,
                Some(NoteCommand { note: BUTTON_NOTE, on: true }),
            ),
            ButtonPhase::AwaitRelease => (phase, None),
        },
        MidiEvent::ButtonReleased => match phase {
            ButtonPhase::AwaitRelease => (
                ButtonPhase::AwaitPress,
                Some(NoteCommand { note: BUTTON_NOTE, on: false }),
            ),
            ButtonPhase::AwaitPress => (phase, None),
        },
        MidiEvent::Incoming(WebSocketIncomingMessage::NoteOn(n)) => (
            ButtonPhase::AwaitPress,
            Some(NoteCommand { note: n, on: true }),
        ),
        MidiEvent::Incoming(WebSocketIncomingMessage::NoteOff(n)) => (
            ButtonPhase::AwaitPress,
            Some(NoteCommand { note: n, on: false }),
        ),
    }
}

/// The phase that is not `phase`.
pub open spec fn other_phase(phase: ButtonPhase) -> ButtonPhase {
    match phase {
        ButtonPhase::AwaitPress => ButtonPhase::AwaitRelease,
        ButtonPhase::AwaitRelease => ButtonPhase::AwaitPress,
    }
}

/// The event is a change of the button pin.
pub open spec fn is_button_event(event: MidiEvent) -> bool {
    event is ButtonPressed || event is ButtonReleased
}

/// The phase and the notes sent after the events `events`, taken in order
/// from `phase`.
pub open spec fn midi_run(phase: ButtonPhase, events: Seq<MidiEvent>) -> (ButtonPhase, Seq<NoteCommand>)
    decreases events.len(),
{
    if events.len() == 0 {
        (phase, Seq::empty())
    } else {
        let (next, command) = midi_step(phase, events[0]);
        let (last, rest) = midi_run(next, events.drop_first());
        match command {
            Some(c) => (last, seq![c] + rest),
            None => (last, rest),
        }
    }
}

/// The notes alternate between on and off, all on the button note, starting
/// with on when `phase` awaits a press and with off when it awaits a release.
pub open spec fn button_notes_alternate(phase: ButtonPhase, commands: Seq<NoteCommand>) -> bool {
    forall|i: int|
        0 <= i < commands.len() ==> (#[trigger] commands[i]).note == BUTTON_NOTE && commands[i].on
            == ((i % 2 == 0) == (phase == ButtonPhase::AwaitPress))
}

/// A button event sends a note only when it is the awaited one: a press while
/// awaiting a press sends the button note on, a release while awaiting the
/// release sends it off, and either switches the phase. Any other button event
/// changes nothing.
pub proof fn law_button_event_step(phase: ButtonPhase, event: MidiEvent)
    requires
        is_button_event(event),
    ensures
        midi_step(phase, event).1 matches Some(c) ==> c.note == BUTTON_NOTE && c.on == (phase
            == ButtonPhase::AwaitPress) && midi_step(phase, event).0 == other_phase(phase),
        midi_step(phase, event).1 is None ==> midi_step(phase, event).0 == phase,
        midi_step(phase, event).1 is Some <==> (event is ButtonPressed) == (phase
            == ButtonPhase::AwaitPress),
{
}

/// A web-socket request is played as it came, on for `NoteOn` and off for
/// `NoteOff`, whatever the button is doing, and the button task starts over
/// waiting for a press.
pub proof fn law_incoming_request_step(phase: ButtonPhase, message: WebSocketIncomingMessage)
    ensures
        midi_step(phase, MidiEvent::Incoming(message)) == (
            ButtonPhase::AwaitPress,
            Some(
                match message {
                    WebSocketIncomingMessage::NoteOn(n) => NoteCommand { note: n, on: true },
                    WebSocketIncomingMessage::NoteOff(n) => NoteCommand { note: n, on: false },
                },
            ),
        ),
{
}

/// With the button alone, the notes sent alternate on, off, on, ... (from a
/// task awaiting a press), all of them the button note, and the task ends
/// awaiting a release exactly when the last note sent was on.
pub proof fn law_button_notes_alternate(phase: ButtonPhase, events: Seq<MidiEvent>)
    requires
        forall|i: int| 0 <= i < events.len() ==> is_button_event(#[trigger] events[i]),
    ensures
        button_notes_alternate(phase, midi_run(phase, events).1),
        midi_run(phase, events).0 == (if midi_run(phase, events).1.len() % 2 == 0 {
            phase
        } else {
            other_phase(phase)
        }),
    decreases events.len(),
{
    if events.len() > 0 {
        let (next, command) = midi_step(phase, events[0]);
        let rest_events = events.drop_first();
        assert forall|i: int| 0 <= i < rest_events.len() implies is_button_event(
            #[trigger] rest_events[i],
        ) by {
            assert(rest_events[i] == events[i + 1]);
        }
        law_button_notes_alternate(next, rest_events);
        let (last, rest) = midi_run(next, rest_events);
        match command {
            Some(c) => {
                let all = seq![c] + rest;
                assert(all == midi_run(phase, events).1);
                assert forall|i: int| 0 <= i < all.len() implies (#[trigger] all[i]).note
                    == BUTTON_NOTE && all[i].on == ((i % 2 == 0) == (phase
                    == ButtonPhase::AwaitPress)) by {
                    if i > 0 {
                        assert(all[i] == rest[i - 1]);
                    }
                }
            },
            None => {},
        }
    }
}

/// The decisions of the MIDI task: which button level to wait for next, and
/// which note to send for each event.
pub struct MidiController {
    phase: ButtonPhase,
}

impl View for MidiController {
    type V = ButtonPhase;

    closed spec fn view(&self) -> ButtonPhase {
        self.phase
    }
}

impl MidiController {
    /// A controller at the start of the task: waiting for a press.
    pub fn new() -> (c: Self)
        ensures
            c@ == ButtonPhase::AwaitPress,
    {
        MidiController { phase: ButtonPhase::AwaitPress }
    }

    /// The phase the button task is in.
    pub fn phase(&self) -> (p: ButtonPhase)
        ensures
            p == self@,
    {
        self.phase
    }

    /// The pin level the button task waits for: low while awaiting a press,
    /// high while awaiting the release.
    pub fn awaited_level(&self) -> (level: PinLevel)
        ensures
            level == (match self@ {
                ButtonPhase::AwaitPress => PinLevel::Low,
                ButtonPhase::AwaitRelease => PinLevel::High,
            }),
    {
        match self.phase {
            ButtonPhase::AwaitPress => PinLevel::Low,
            ButtonPhase::AwaitRelease => PinLevel::High,
        }
    }

    /// Takes one event: returns the note to send, if any, and moves to the next phase.
    pub fn step(&mut self, event: MidiEvent) -> (command: Option<NoteCommand>)
        ensures
            (final(self)@, command) == midi_step(old(self)@, event),
    {
        match event {
            MidiEvent::ButtonPressed => match self.phase {
                ButtonPhase::AwaitPress => {
                    self.phase = ButtonPhase::AwaitRelease;
                    Some(NoteCommand { note: BUTTON_NOTE, on: true })
                },
                ButtonPhase::AwaitRelease => None,
            },
            MidiEvent::ButtonReleased => match self.phase {
                ButtonPhase::AwaitRelease => {
                    self.phase = ButtonPhase::AwaitPress;
                    Some(NoteCommand { note: BUTTON_NOTE, on: false })
                },
                ButtonPhase::AwaitPress => None,
            },
            MidiEvent::Incoming(message) => {
                self.phase = ButtonPhase::AwaitPress;
                match message {
                    WebSocketIncomingMessage::NoteOn(n) => Some(NoteCommand { note: n, on: true }),
                    WebSocketIncomingMessage::NoteOff(n) => Some(NoteCommand { note: n, on: false }),
                }
            },
        }
    }
}

} // verus!
