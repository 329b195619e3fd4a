//! A small verified MIDI sequence builder.
//!
//! The library produces a fixed percussion pattern — alternating bass-drum
//! Note-Off / Note-On events — assembles it into a two-track container, and
//! encodes the container as a standard MIDI file through the `midly` crate.

pub mod assembler;
pub mod events;
pub mod generator;

pub use events::MidiMessage;
pub use events::TimedEvent;
pub use generator::BassDrumGenerator;
pub use generator::Generator;
