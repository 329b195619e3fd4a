use bass_midi::BassDrumGenerator;
use bass_midi::Generator;
use bass_midi::MidiMessage;
use bass_midi::assembler::generate_bass_events;

#[test]
fn fresh_generator_has_counter_zero() {
    let g = BassDrumGenerator::new();
    assert_eq!(g.produced(), 0);
}

#[test]
fn counter_advances_by_one_per_call() {
    let mut g = BassDrumGenerator::new();
    for k in 1..=300usize {
        g.gen_next();
        assert_eq!(g.produced(), k);
    }
}

#[test]
fn default_generator_matches_fresh_one() {
    let d = BassDrumGenerator::default();
    assert_eq!(d, BassDrumGenerator::new());
    assert_eq!(d.produced(), 0);
}

#[test]
fn first_two_events_are_the_table_entries() {
    let mut g = BassDrumGenerator::new();
    let first = g.gen_next().expect("the bass drum generator never terminates");
    assert_eq!(first.delta, 30);
    assert_eq!(first.channel, 9);
    assert_eq!(first.message, MidiMessage::NoteOff { key: 35, vel: 127 });
    let second = g.gen_next().expect("the bass drum generator never terminates");
    assert_eq!(second.delta, 90);
    assert_eq!(second.channel, 9);
    assert_eq!(second.message, MidiMessage::NoteOn { key: 35, vel: 127 });
}

#[test]
fn generator_never_terminates_within_256_calls() {
    let mut g = BassDrumGenerator::new();
    for _ in 0..256 {
        assert!(g.gen_next().is_some());
    }
}

#[test]
fn events_alternate_off_then_on() {
    for n in [1usize, 2, 3, 255, 256] {
        let events = generate_bass_events(n);
        assert_eq!(events.len(), n);
        for (i, e) in events.iter().enumerate() {
            if i % 2 == 0 {
                assert!(matches!(e.message, MidiMessage::NoteOff { .. }));
            } else {
                assert!(matches!(e.message, MidiMessage::NoteOn { .. }));
            }
        }
    }
}

#[test]
fn deltas_are_30_for_off_and_90_for_on() {
    let events = generate_bass_events(256);
    for e in events.iter() {
        match e.message {
            MidiMessage::NoteOff { .. } => assert_eq!(e.delta, 30),
            MidiMessage::NoteOn { .. } => assert_eq!(e.delta, 90),
        }
    }
}

#[test]
fn channel_key_and_velocity_are_invariant() {
    let events = generate_bass_events(256);
    for e in events.iter() {
        assert_eq!(e.channel, 9);
        let (MidiMessage::NoteOff { key, vel } | MidiMessage::NoteOn { key, vel }) = e.message;
        assert_eq!(key, 35);
        assert_eq!(vel, 127);
    }
}

#[test]
fn zero_events_requested_yields_empty_track() {
    let events = generate_bass_events(0);
    assert!(events.is_empty());
}
