use bass_midi::MidiMessage;
use bass_midi::assembler::Format;
use bass_midi::assembler::assemble;
use bass_midi::assembler::render;

#[test]
fn container_has_two_tracks_empty_then_full() {
    let c = assemble();
    assert_eq!(c.tracks.len(), 2);
    assert_eq!(c.tracks[0].len(), 0);
    assert_eq!(c.tracks[1].len(), 256);
}

#[test]
fn container_header_is_parallel_at_120_ticks() {
    let c = assemble();
    assert_eq!(c.header.format, Format::Parallel);
    assert_eq!(c.header.ticks_per_quarter, 120);
}

#[test]
fn rendered_bytes_start_with_a_header_chunk() {
    let bytes = render();
    assert!(bytes.len() > 8);
    assert_eq!(&bytes[0..4], b"MThd");
}

#[test]
fn rendered_bytes_parse_back_as_the_same_container() {
    let bytes = render();
    let smf = midly::Smf::parse(&bytes).expect("the encoder writes a valid file");
    assert_eq!(smf.header.format, midly::Format::Parallel);
    assert_eq!(
        smf.header.timing,
        midly::Timing::Metrical(midly::num::u15::new(120))
    );
    assert_eq!(smf.tracks.len(), 2);
    assert_eq!(smf.tracks[0].len(), 0);
    assert_eq!(smf.tracks[1].len(), 256);
    for (i, e) in smf.tracks[1].iter().enumerate() {
        let (expected_delta, expected_message) = if i % 2 == 0 {
            (
                30,
                midly::MidiMessage::NoteOff {
                    key: midly::num::u7::new(35),
                    vel: midly::num::u7::new(127),
                },
            )
        } else {
            (
                90,
                midly::MidiMessage::NoteOn {
                    key: midly::num::u7::new(35),
                    vel: midly::num::u7::new(127),
                },
            )
        };
        assert_eq!(e.delta, midly::num::u28::new(expected_delta));
        match e.kind {
            midly::TrackEventKind::Midi { channel, message } => {
                assert_eq!(channel, midly::num::u4::new(9));
                assert_eq!(message, expected_message);
            }
            _ => panic!("track 1 holds only channel messages"),
        }
    }
}

#[test]
fn rendering_twice_gives_identical_bytes() {
    let first = render();
    let second = render();
    assert_eq!(first, second);
}

#[test]
fn events_in_the_container_match_the_generator_output() {
    let c = assemble();
    for (i, e) in c.tracks[1].iter().enumerate() {
        assert_eq!(e.channel, 9);
        if i % 2 == 0 {
            assert_eq!(e.delta, 30);
            assert_eq!(e.message, MidiMessage::NoteOff { key: 35, vel: 127 });
        } else {
            assert_eq!(e.delta, 90);
            assert_eq!(e.message, MidiMessage::NoteOn { key: 35, vel: 127 });
        }
    }
}
