//! Event generators: a stateful producer of timed events, advanced one step
//! at a time, and the bass-drum variant that this crate ships.

use vstd::prelude::*;

use crate::events::MidiMessage;
use crate::events::TimedEvent;

verus! {

/// The event emitted at zero-based position `i` of the bass-drum pattern:
/// positions alternate between a Note-Off after 30 ticks (even positions)
/// and a Note-On after 90 ticks (odd positions), always on channel 9,
/// key 35, velocity 127.
pub open spec fn bass_event(i: nat) -> TimedEvent {
    if i % 2 == 0 {
        TimedEvent {
            delta: 30,
            channel: 9,
            message: MidiMessage::NoteOff { key: 35, vel: 127 },
        }
    } else {
        TimedEvent {
            delta: 90,
            channel: 9,
            message: MidiMessage::NoteOn { key: 35, vel: 127 },
        }
    }
}

/// The sequence a fresh bass-drum generator emits over its first `n` calls.
pub open spec fn bass_track(n: nat) -> Seq<TimedEvent> {
    Seq::new(n, |i: int| bass_event(i as nat))
}

/// A producer of timed events.
///
/// Each call to `gen_next` either yields the next event or signals, with
/// `None`, that the generator is exhausted; a conforming caller stops
/// requesting events after the first `None`. The three spec functions give
/// the abstract face of an implementation: how many events it has produced,
/// whether it may be asked for another, and what the next call returns.
pub trait Generator: Sized {
    /// How many times `gen_next` has been called on this instance.
    spec fn counter(&self) -> nat;

    /// Whether the instance may be asked for another event.
    spec fn can_produce(&self) -> bool;

    /// What the next call to `gen_next` returns.
    spec fn next_result(&self) -> Option<TimedEvent>;

    /// Produces the next event, or `None` once the generator is exhausted.
    fn gen_next(&mut self) -> (r: Option<TimedEvent>)
        requires
            old(self).can_produce(),
        ensures
            r == old(self).next_result(),
            final(self).counter() == old(self).counter() + 1,
    ;
}

/// Emits the bass-drum pattern: a Note-Off then a Note-On, over and over,
/// one drum hit every 120 ticks. It never signals exhaustion on its own.
#[derive(Debug, Clone, Copy, PartialEq, Eq, Structural)]
pub struct BassDrumGenerator {
    /// How many events have been produced so far; nothing else changes
    /// between calls, so this alone selects the next event.
    pub index: usize,
}

/// The two-entry event table the generator cycles through: entry 0 is the
/// Note-Off, entry 1 the Note-On.
pub fn bass_event_at(parity: usize) -> (e: TimedEvent)
    requires
        parity < 2,
    ensures
        e == bass_event(parity as nat),
{
    if parity == 0 {
        TimedEvent {
            delta: 30,
            channel: 9,
            message: MidiMessage::NoteOff { key: 35, vel: 127 },
        }
    } else {
        TimedEvent {
            delta: 90,
            channel: 9,
            message: MidiMessage::NoteOn { key: 35, vel: 127 },
        }
    }
}

impl BassDrumGenerator {
    /// A fresh generator that has produced nothing yet.
    pub fn new() -> (g: Self)
        ensures
            g.counter() == 0,
    {
        BassDrumGenerator { index: 0 }
    }

    /// How many events this instance has produced so far.
    pub fn produced(&self) -> (n: usize)
        ensures
            n == self.counter(),
    {
        self.index
    }
}

impl Default for BassDrumGenerator {
    /// The default instance has produced nothing yet.
    fn default() -> (g: Self)
        ensures
            g.counter() == 0,
    {
        BassDrumGenerator { index: 0 }
    }
}

impl Generator for BassDrumGenerator {
    open spec fn counter(&self) -> nat {
        self.index as nat
    }

    open spec fn can_produce(&self) -> bool {
        self.index < usize::MAX
    }

    open spec fn next_result(&self) -> Option<TimedEvent> {
        Some(bass_event(self.index as nat))
    }

    fn gen_next(&mut self) -> (r: Option<TimedEvent>) {
        self.index = self.index + 1;
        Some(bass_event_at((self.index - 1) % 2))
    }
}

/// Law: requesting `n` events from a fresh bass-drum generator yields a
/// sequence whose event at zero-based position `i` is a Note-Off when `i`
/// is even and a Note-On when `i` is odd.
pub proof fn lemma_alternation(n: nat, i: nat)
    requires
        1 <= n <= 256,
        i < n,
    ensures
        i % 2 == 0 ==> bass_track(n)[i as int].message is NoteOff,
        i % 2 != 0 ==> bass_track(n)[i as int].message is NoteOn,
{
}

/// Law: the delta of every Note-Off the bass-drum generator produces is 30
/// ticks; the delta of every Note-On is 90 ticks.
pub proof fn lemma_deltas(i: nat)
    ensures
        bass_event(i).message is NoteOff ==> bass_event(i).delta == 30,
        bass_event(i).message is NoteOn ==> bass_event(i).delta == 90,
{
}

/// Law: every event the bass-drum generator produces is on channel 9 with
/// key 35 and velocity 127, whatever its position; in particular each event
/// fits the ranges the file format allots.
pub proof fn lemma_fixed_parameters(i: nat)
    ensures
        bass_event(i).channel == 9,
        crate::events::message_key(bass_event(i).message) == 35,
        crate::events::message_vel(bass_event(i).message) == 127,
        bass_event(i).wf(),
{
}

} // verus!
