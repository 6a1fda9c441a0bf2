use std::rc::Rc;
use std::sync::Arc;

use kira::dsp::Frame;
use kira::sound::static_sound::{StaticSoundData, StaticSoundSettings};
use term_sequencer::filescale::FileScale;
use term_sequencer::notescale::NoteScale;
use term_sequencer::player::PlayerError;
use term_sequencer::note::Note;
use term_sequencer::track::{Track, TrackError};

#[test]
fn track_from_letters() {
    let t = Track::try_from(&["C", "D", "E"][..], 100).unwrap();
    assert_eq!(t.length(), 3);
    assert_eq!(t.content(), &vec![Note::C, Note::D, Note::E]);
    assert_eq!(t.current(), 0);
    assert_eq!(t.last_beat(), 100);
}

#[test]
fn track_unknown_step_fails() {
    match Track::try_from(&["C", "H", "Q"][..], 0) {
        Err(TrackError::UnknownNote(e)) => assert_eq!(e.0, "H"),
        _ => panic!("expected an unknown note"),
    }
}

#[test]
fn track_empty_pattern_fails() {
    assert!(matches!(
        Track::try_from(&[][..], 0),
        Err(TrackError::EmptyPattern)
    ));
}

#[test]
fn cursor_wraps_modulo_length() {
    for len in 1..5usize {
        let letters = ["C", "D", "E", "F", "G"];
        let mut t = Track::try_from(&letters[..len], 0).unwrap();
        for n in 1..20usize {
            let played = t.advance(n as u64);
            assert_eq!(t.current(), n % len);
            assert_eq!(played, t.content()[n % len]);
            assert_eq!(t.last_beat(), n as u64);
        }
    }
}

#[test]
fn restart_scenario() {
    let mut t = Track::try_from(&["C", "D", "E"][..], 0).unwrap();
    for n in 1..=5u64 {
        t.advance(n);
    }
    assert_eq!(t.current(), 2);
    let before = t.last_beat();
    t.restart();
    assert_eq!(t.current(), 0);
    assert_eq!(t.last_beat(), before);
    assert_eq!(t.advance(10), Note::D);
    assert_eq!(t.current(), 1);
}

#[test]
fn silent_track_beats_without_sound() {
    let (_player, mut interface) = term_sequencer::player::create_audio_player().unwrap();
    let mut t = Track::try_from(&["C", "D"][..], 0)
        .unwrap()
        .set_note_scale(None);
    assert!(t.beat(7, &mut interface).is_ok());
    assert_eq!(t.current(), 1);
    assert_eq!(t.last_beat(), 7);
}

const SECOND: u64 = 1_000_000_000;

#[test]
fn tempo_scaling() {
    // (beats, intervals) for tempi 0.5, 1, 2 and 4, with the wait each needs.
    let cases = [(1u64, 2u64, 2 * SECOND), (1, 1, SECOND), (2, 1, SECOND / 2), (4, 1, SECOND / 4)];
    for (beats, intervals, wait) in cases {
        let t = Track::try_from(&["C"][..], 0)
            .unwrap()
            .set_tempo(beats, intervals);
        assert!(!t.should_beat(SECOND, wait - 1));
        assert!(!t.should_beat(SECOND, wait));
        assert!(t.should_beat(SECOND, wait + 1));
    }
}

#[test]
fn doubling_tempo_halves_wait() {
    let slow = Track::try_from(&["C"][..], 0).unwrap().set_tempo(1, 1);
    let fast = Track::try_from(&["C"][..], 0).unwrap().set_tempo(2, 1);
    for e in [1u64, 400_000_000, 500_000_001, 999_999_999, 1_000_000_001] {
        assert_eq!(fast.should_beat(SECOND, e), slow.should_beat(SECOND, 2 * e));
    }
}

#[test]
fn should_beat_measures_from_last_beat() {
    let t = Track::try_from(&["C"][..], 5 * SECOND).unwrap();
    assert!(!t.should_beat(SECOND, 3 * SECOND));
    assert!(!t.should_beat(SECOND, 6 * SECOND));
    assert!(t.should_beat(SECOND, 6 * SECOND + 1));
}

#[test]
fn should_beat_large_values_do_not_overflow() {
    let t = Track::try_from(&["C"][..], 0)
        .unwrap()
        .set_tempo(u64::MAX, 1);
    assert!(t.should_beat(u64::MAX, 2));
    assert!(!t.should_beat(u64::MAX, 1));
}

#[test]
fn tick_beats_only_due_tracks() {
    let (_player, mut interface) = term_sequencer::player::create_audio_player().unwrap();
    let mut tracks = vec![
        Track::try_from(&["C", "D", "E"][..], 0).unwrap().set_tempo(4, 1),
        Track::try_from(&["C", "D", "E"][..], 0).unwrap().set_tempo(1, 1),
    ];
    // 0.3 s: only the track at tempo 4 (wait 0.25 s) is due.
    assert!(term_sequencer::track::tick(&mut tracks, SECOND, 300_000_000, &mut interface).is_ok());
    assert_eq!(tracks.len(), 2);
    assert_eq!(tracks[0].current(), 1);
    assert_eq!(tracks[0].last_beat(), 300_000_000);
    assert_eq!(tracks[1].current(), 0);
    assert_eq!(tracks[1].last_beat(), 0);
    // 1.1 s: both are due.
    assert!(term_sequencer::track::tick(&mut tracks, SECOND, 1_100_000_000, &mut interface).is_ok());
    assert_eq!(tracks[0].current(), 2);
    assert_eq!(tracks[1].current(), 1);
    assert_eq!(tracks[1].last_beat(), 1_100_000_000);
}

#[test]
fn set_last_beat_resets_phase() {
    let mut t = Track::try_from(&["C", "D"][..], 0).unwrap();
    assert!(t.should_beat(SECOND, 2 * SECOND));
    t.set_last_beat(2 * SECOND);
    assert!(!t.should_beat(SECOND, 2 * SECOND));
    assert_eq!(t.current(), 0);
}

#[test]
fn tick_with_silent_due_tracks_is_ok() {
    let (player, mut interface) = term_sequencer::player::create_audio_player().unwrap();
    drop(player);
    let mut tracks = vec![Track::try_from(&["C", "D"][..], 0).unwrap()];
    // The engine is gone, but a silent track submits nothing.
    assert!(term_sequencer::track::tick(&mut tracks, SECOND, 2 * SECOND, &mut interface).is_ok());
    assert_eq!(tracks[0].current(), 1);
}

#[test]
fn tick_stops_after_failed_submission() {
    let sound = StaticSoundData {
        sample_rate: 48000,
        frames: Arc::new(vec![Frame::from_mono(0.1); 10]),
        settings: StaticSoundSettings::default(),
    };
    let bank: Rc<dyn NoteScale> = Rc::new(FileScale::from_sounds(vec![sound; 7]).unwrap());
    let (player, mut interface) = term_sequencer::player::create_audio_player().unwrap();
    drop(player);
    let mut tracks = vec![
        Track::try_from(&["C", "D"][..], 0).unwrap().set_note_scale(Some(bank.clone())),
        Track::try_from(&["C", "D"][..], 0).unwrap().set_note_scale(Some(bank)),
    ];
    assert_eq!(
        term_sequencer::track::tick(&mut tracks, SECOND, 2 * SECOND, &mut interface),
        Err(PlayerError::Closed)
    );
    assert_eq!(tracks[0].current(), 1);
    assert_eq!(tracks[0].last_beat(), 2 * SECOND);
    assert_eq!(tracks[1].current(), 0);
    assert_eq!(tracks[1].last_beat(), 0);
}
