//! The sequence assembler: builds the two-track container holding the
//! bass-drum pattern and encodes it as a standard MIDI file.

use vstd::prelude::*;

use midly::Smf;
use midly::TrackEvent;
use midly::TrackEventKind;
use midly::num::u15;
use midly::num::u28;
use midly::num::u4;
use midly::num::u7;

use crate::events::MidiMessage;
use crate::events::TimedEvent;
use crate::generator::BassDrumGenerator;
use crate::generator::Generator;
use crate::generator::bass_track;

verus! {

/// How the tracks of a container relate in time.
#[derive(Debug, Clone, Copy, PartialEq, Eq, Structural)]
pub enum Format {
    /// A single track.
    SingleTrack,
    /// Simultaneous tracks sharing one global header.
    Parallel,
    /// Tracks played one after another.
    Sequential,
}

/// File-level metadata: the format mode and the metrical timing resolution.
#[derive(Debug, Clone, Copy, PartialEq, Eq, Structural)]
pub struct Header {
    /// The format mode.
    pub format: Format,
    /// Ticks per quarter note; the file format allots it 15 bits.
    pub ticks_per_quarter: u16,
}

impl Header {
    /// The timing resolution fits the 15-bit bound of the file format.
    pub open spec fn wf(self) -> bool {
        self.ticks_per_quarter < 0x8000
    }
}

/// A sequence container: global header metadata and an ordered collection
/// of tracks, each an ordered sequence of timed events.
#[derive(Debug, PartialEq, Eq)]
pub struct Container {
    /// The shared header.
    pub header: Header,
    /// The tracks, in file order.
    pub tracks: Vec<Vec<TimedEvent>>,
}

/// The mathematical content of a list of tracks: each track as a sequence.
pub open spec fn track_views(tracks: Seq<Vec<TimedEvent>>) -> Seq<Seq<TimedEvent>> {
    tracks.map_values(|t: Vec<TimedEvent>| t@)
}

/// The most events one track may hold: a channel message encodes to at
/// most 7 bytes (a four-byte delta at worst, a status byte, two data
/// bytes), so a track of at most 2^27 events keeps its chunk's byte length
/// under the 32-bit bound of the file format's chunk-length field.
pub const MAX_TRACK_EVENTS: usize = 0x0800_0000;

impl Container {
    /// The header is well formed, the track count fits the 16-bit field of
    /// the file format, every track's chunk fits the 32-bit chunk-length
    /// field, and every event fits its allotted ranges.
    pub open spec fn wf(self) -> bool {
        &&& self.header.wf()
        &&& self.tracks@.len() <= 0xffff
        &&& forall|i: int|
                0 <= i < self.tracks@.len()
                    ==> (#[trigger] self.tracks@[i])@.len() <= MAX_TRACK_EVENTS
        &&& forall|i: int, j: int|
                0 <= i < self.tracks@.len() && 0 <= j < self.tracks@[i]@.len()
                    ==> (#[trigger] self.tracks@[i]@[j]).wf()
    }
}

/// The timing resolution of the assembled file, in ticks per quarter note.
pub const TICKS_PER_QUARTER: u16 = 120;

/// How many events the assembler pulls from the generator.
pub const EVENT_COUNT: usize = 256;

/// Pulls at most `n` events from a fresh bass-drum generator, stopping at
/// the first exhaustion signal; the bass-drum generator never signals
/// exhaustion, so exactly `n` events come back.
pub fn generate_bass_events(n: usize) -> (events: Vec<TimedEvent>)
    ensures
        events@ == bass_track(n as nat),
{
    let mut g = BassDrumGenerator::new();
    let mut events: Vec<TimedEvent> = Vec::new();
    while events.len() < n
        invariant
            g.counter() == events@.len(),
            events@.len() <= n,
            events@ == bass_track(events@.len() as nat),
        ensures
            events@ == bass_track(n as nat),
        decreases n - events.len(),
    {
        match g.gen_next() {
            Some(e) => {
                events.push(e);
                proof {
                    assert(events@ =~= bass_track(events@.len() as nat));
                }
            },
            None => {
                break;
            },
        }
    }
    events
}

/// The header of the assembled file: parallel tracks at 120 ticks per
/// quarter note.
pub open spec fn standard_header() -> Header {
    Header { format: Format::Parallel, ticks_per_quarter: TICKS_PER_QUARTER }
}

/// The tracks of the assembled file: an empty track, then the first 256
/// events of the bass-drum pattern.
pub open spec fn standard_tracks() -> Seq<Seq<TimedEvent>> {
    seq![Seq::<TimedEvent>::empty(), bass_track(EVENT_COUNT as nat)]
}

/// Builds the container: the standard header, an empty first track, and a
/// second track holding the 256 generated bass-drum events.
pub fn assemble() -> (c: Container)
    ensures
        c.header == standard_header(),
        c.tracks@.len() == 2,
        c.tracks@[0]@ == Seq::<TimedEvent>::empty(),
        c.tracks@[1]@ == bass_track(EVENT_COUNT as nat),
        track_views(c.tracks@) == standard_tracks(),
        c.wf(),
{
    let header = Header { format: Format::Parallel, ticks_per_quarter: TICKS_PER_QUARTER };
    let mut tracks: Vec<Vec<TimedEvent>> = Vec::new();
    tracks.push(Vec::new());
    tracks.push(generate_bass_events(EVENT_COUNT));
    let c = Container { header, tracks };
    proof {
        assert(track_views(c.tracks@) =~= standard_tracks());
        assert forall|i: int|
            0 <= i < c.tracks@.len()
                implies (#[trigger] c.tracks@[i])@.len() <= MAX_TRACK_EVENTS by {
            assert(c.tracks@[i]@ == track_views(c.tracks@)[i]);
        }
        assert forall|i: int, j: int|
            0 <= i < c.tracks@.len() && 0 <= j < c.tracks@[i]@.len()
                implies (#[trigger] c.tracks@[i]@[j]).wf() by {
            assert(c.tracks@[i]@ == track_views(c.tracks@)[i]);
        }
    }
    c
}

/// The byte sequence that the `midly` crate's standard MIDI file encoder
/// produces for a given header and list of tracks. It depends on those
/// arguments alone.
pub uninterp spec fn smf_encoding(header: Header, tracks: Seq<Seq<TimedEvent>>) -> Seq<u8>;

/// The `midly` crate's event type, opaque here: the library only builds
/// values of it to hand to the encoder.
#[verifier::external_type_specification]
#[verifier::external_body]
pub struct ExTrackEvent<'a>(TrackEvent<'a>);

/// Relies on midly's `TrackEvent` constructor and on `u28::new`, `u4::new`
/// and `u7::new`. A Note-Off maps to a Note-Off, a Note-On to a Note-On;
/// the constructors mask a value to its field's width, so the delta,
/// channel, key and velocity are carried over one for one exactly when the
/// event is well formed — which the encoder below requires of every event
/// it is handed.
#[verifier::external_body]
fn to_midly_event(e: &TimedEvent) -> TrackEvent<'static> {
    TrackEvent {
        delta: u28::new(e.delta),
        kind: TrackEventKind::Midi {
            channel: u4::new(e.channel),
            message: match e.message {
                MidiMessage::NoteOff { key, vel } =>
                    midly::MidiMessage::NoteOff { key: u7::new(key), vel: u7::new(vel) },
                MidiMessage::NoteOn { key, vel } =>
                    midly::MidiMessage::NoteOn { key: u7::new(key), vel: u7::new(vel) },
            },
        },
    }
}

/// Relies on `midly::Smf::write_std`: it encodes the header and tracks as a
/// standard MIDI file, deterministically from its arguments. Writing to a
/// byte buffer cannot fail on a well-formed container: the writer errors
/// only when the track count overflows the format's 16-bit field or a
/// track's chunk length overflows its 32-bit field, and `wf` bounds both.
#[verifier::external_body]
fn encode_with_midly(c: &Container) -> (bytes: Vec<u8>)
    requires
        c.wf(),
    ensures
        bytes@ == smf_encoding(c.header, track_views(c.tracks@)),
{
    let format = match c.header.format {
        Format::SingleTrack => midly::Format::SingleTrack,
        Format::Parallel => midly::Format::Parallel,
        Format::Sequential => midly::Format::Sequential,
    };
    let mut smf = Smf::new(midly::Header::new(format, midly::Timing::Metrical(u15::new(c.header.ticks_per_quarter))));
    for track in c.tracks.iter() {
        smf.tracks.push(track.iter().map(to_midly_event).collect());
    }
    let mut bytes: Vec<u8> = Vec::new();
    smf.write_std(&mut bytes).expect("writing to a byte buffer cannot fail");
    bytes
}

/// Assembles the container and encodes it: the complete content of the
/// output file, pinned to one byte sequence, so two runs yield identical
/// bytes.
pub fn render() -> (bytes: Vec<u8>)
    ensures
        bytes@ == smf_encoding(standard_header(), standard_tracks()),
{
    let c = assemble();
    encode_with_midly(&c)
}

/// Law: the assembler's output is deterministic. Any two byte sequences
/// produced by `render` — two runs in succession, say — are identical byte
/// for byte: no timestamp or randomness enters the encoding.
pub proof fn lemma_render_deterministic(first: Seq<u8>, second: Seq<u8>)
    requires
        first == smf_encoding(standard_header(), standard_tracks()),
        second == smf_encoding(standard_header(), standard_tracks()),
    ensures
        first == second,
{
}

} // verus!
