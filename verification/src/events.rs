//! The timed-event data model: one MIDI channel message together with the
//! ticks elapsed since the previous event of the same track.

use vstd::prelude::*;

verus! {

/// A MIDI channel message payload: a note starting or a note ending, each
/// carrying a key number and a velocity (both 0–127).
#[derive(Debug, Clone, Copy, PartialEq, Eq, Structural)]
pub enum MidiMessage {
    NoteOff { key: u8, vel: u8 },
    NoteOn { key: u8, vel: u8 },
}

/// The key number carried by a message.
pub open spec fn message_key(m: MidiMessage) -> u8 {
    match m {
        MidiMessage::NoteOff { key, vel } => key,
        MidiMessage::NoteOn { key, vel } => key,
    }
}

/// The velocity carried by a message.
pub open spec fn message_vel(m: MidiMessage) -> u8 {
    match m {
        MidiMessage::NoteOff { key, vel } => vel,
        MidiMessage::NoteOn { key, vel } => vel,
    }
}

/// Key and velocity both fit the 7-bit range of a MIDI data byte.
pub open spec fn message_wf(m: MidiMessage) -> bool {
    message_key(m) <= 127 && message_vel(m) <= 127
}

/// One event of a track: a channel message preceded by a relative delay.
#[derive(Debug, Clone, Copy, PartialEq, Eq, Structural)]
pub struct TimedEvent {
    /// Ticks since the previous event in the same track (a 28-bit quantity
    /// in the file format).
    pub delta: u32,
    /// The channel the message addresses (0–15).
    pub channel: u8,
    /// The message itself.
    pub message: MidiMessage,
}

impl TimedEvent {
    /// The event fits the ranges the file format allots to its fields.
    pub open spec fn wf(self) -> bool {
        &&& self.delta < 0x1000_0000
        &&& self.channel <= 15
        &&& message_wf(self.message)
    }
}

} // verus!
