use std::rc::Rc;
use std::sync::Arc;

use kira::dsp::Frame;
use kira::sound::static_sound::{StaticSoundData, StaticSoundSettings};

use term_sequencer::filescale::{FileScale, ScaleError};
use term_sequencer::note::Note;
use term_sequencer::notescale::NoteScale;
use term_sequencer::player::{
    create_audio_player, retain_unfinished, AudioControlFlow, PlayerError,
};
use term_sequencer::track::Track;

fn tone(len: usize) -> StaticSoundData {
    StaticSoundData {
        sample_rate: 48000,
        frames: Arc::new(vec![Frame::from_mono(0.1); len]),
        settings: StaticSoundSettings::default(),
    }
}

fn bank() -> FileScale {
    FileScale::from_sounds((1..=7).map(|i| tone(100 * i)).collect()).unwrap()
}

#[test]
fn stop_on_empty_engine_is_ok() {
    let (mut player, _interface) = create_audio_player().unwrap();
    assert_eq!(player.active_count(), 0);
    assert_eq!(player.handle(AudioControlFlow::Stop), Ok(()));
    assert_eq!(player.active_count(), 0);
    assert_eq!(player.handle(AudioControlFlow::Stop), Ok(()));
    assert_eq!(player.active_count(), 0);
}

#[test]
fn play_adds_an_instance() {
    let (mut player, _interface) = create_audio_player().unwrap();
    assert!(player
        .handle(AudioControlFlow::PlayStatic { sound: Box::new(tone(480)) })
        .is_ok());
    assert_eq!(player.active_count(), 1);
    assert!(player.handle(AudioControlFlow::Pause).is_ok());
    assert!(player.handle(AudioControlFlow::Resume).is_ok());
    assert_eq!(player.active_count(), 1);
}

#[test]
fn queue_play_play_stop_scenario() {
    let (mut player, mut interface) = create_audio_player().unwrap();
    interface.play_sound(tone(480)).unwrap();
    interface.play_sound(tone(960)).unwrap();
    interface.stop().unwrap();
    drop(interface);
    let mut counts = Vec::new();
    while let Some(result) = player.step() {
        assert!(result.is_ok());
        counts.push(player.active_count());
    }
    assert_eq!(counts, vec![1, 2, 0]);
}

#[test]
fn submit_after_engine_gone_is_closed() {
    let (player, mut interface) = create_audio_player().unwrap();
    drop(player);
    assert_eq!(interface.pause(), Err(PlayerError::Closed));
    assert_eq!(interface.resume(), Err(PlayerError::Closed));
    assert_eq!(interface.stop(), Err(PlayerError::Closed));
    assert_eq!(interface.play_sound(tone(10)), Err(PlayerError::Closed));
}

#[test]
fn retain_drops_finished_in_order() {
    let kept = retain_unfinished(vec![10, 11, 12, 13, 14], &vec![false, true, false, true, false]);
    assert_eq!(kept, vec![10, 12, 14]);
}

#[test]
fn retain_missing_flags_keep() {
    assert_eq!(retain_unfinished(vec![1, 2, 3], &vec![true]), vec![2, 3]);
    assert_eq!(retain_unfinished(Vec::<u8>::new(), &vec![]), Vec::<u8>::new());
    assert_eq!(retain_unfinished(vec![1, 2], &vec![true, true]), Vec::<i32>::new());
}

#[test]
fn file_names_fill_template() {
    let names = FileScale::file_names("assets/PianoPhase/N{note}_piano_phase.wav").unwrap();
    assert_eq!(names.len(), 7);
    for (name, note) in names.iter().zip(Note::all()) {
        assert_eq!(*name, format!("assets/PianoPhase/N{}_piano_phase.wav", note.to_str()));
    }
}

#[test]
fn file_names_bad_template() {
    assert_eq!(FileScale::file_names("N{note"), Err(ScaleError::BadTemplate));
    assert_eq!(FileScale::file_names("N{other}.wav"), Err(ScaleError::BadTemplate));
}

#[test]
fn bank_lookup_every_note() {
    let b = bank();
    for (i, n) in Note::all().iter().enumerate() {
        assert_eq!(b.lookup(*n).frames.len(), 100 * (i + 1));
    }
}

#[test]
fn bank_with_missing_sound_fails() {
    let six: Vec<StaticSoundData> = (1..=6).map(|i| tone(i)).collect();
    assert!(matches!(FileScale::from_sounds(six), Err(ScaleError::MissingSounds)));
    let eight: Vec<StaticSoundData> = (1..=8).map(|i| tone(i)).collect();
    assert!(matches!(FileScale::from_sounds(eight), Err(ScaleError::MissingSounds)));
}

#[test]
fn bank_plays_through_engine() {
    let (mut player, mut interface) = create_audio_player().unwrap();
    let b = bank();
    assert!(b.play_note(Note::E, &mut interface).is_ok());
    drop(interface);
    assert_eq!(player.step(), Some(Ok(())));
    assert_eq!(player.active_count(), 1);
    assert_eq!(player.step(), None);
}

#[test]
fn track_with_bank_plays_each_beat() {
    let (mut player, mut interface) = create_audio_player().unwrap();
    let scale: Rc<dyn NoteScale> = Rc::new(bank());
    let mut t = Track::try_from(&["C", "D", "E"][..], 0)
        .unwrap()
        .set_note_scale(Some(scale));
    for n in 1..=4u64 {
        assert!(t.beat(n, &mut interface).is_ok());
    }
    drop(interface);
    let mut steps = 0;
    while let Some(result) = player.step() {
        assert!(result.is_ok());
        steps += 1;
    }
    assert_eq!(steps, 4);
    assert_eq!(player.active_count(), 4);
}

#[test]
fn cloned_endpoints_share_the_queue() {
    let (mut player, mut interface) = create_audio_player().unwrap();
    let mut other = interface.clone();
    interface.play_sound(tone(10)).unwrap();
    other.play_sound(tone(20)).unwrap();
    drop(interface);
    assert_eq!(player.step(), Some(Ok(())));
    assert_eq!(player.step(), Some(Ok(())));
    assert_eq!(player.active_count(), 2);
    drop(other);
    assert_eq!(player.step(), None);
}

#[test]
fn command_names() {
    assert_eq!(AudioControlFlow::PlayStatic { sound: Box::new(tone(1)) }.name(), "PlayStatic");
    assert_eq!(AudioControlFlow::Stop.name(), "Stop");
    assert_eq!(AudioControlFlow::Pause.name(), "Pause");
    assert_eq!(AudioControlFlow::Resume.name(), "Resume");
}

#[test]
fn sound_without_frames_is_rejected() {
    let (mut player, _interface) = create_audio_player().unwrap();
    assert_eq!(
        player.handle(AudioControlFlow::PlayStatic { sound: Box::new(tone(0)) }),
        Err(PlayerError::SoundRejected)
    );
    assert_eq!(player.active_count(), 0);
}

#[test]
fn sound_without_sample_rate_is_rejected() {
    let (mut player, _interface) = create_audio_player().unwrap();
    let mut silent = tone(10);
    silent.sample_rate = 0;
    assert_eq!(
        player.handle(AudioControlFlow::PlayStatic { sound: Box::new(silent) }),
        Err(PlayerError::SoundRejected)
    );
    assert_eq!(player.active_count(), 0);
}

#[test]
fn stop_after_plays_empties_engine() {
    let (mut player, _interface) = create_audio_player().unwrap();
    assert!(player.handle(AudioControlFlow::PlayStatic { sound: Box::new(tone(48)) }).is_ok());
    assert!(player.handle(AudioControlFlow::PlayStatic { sound: Box::new(tone(96)) }).is_ok());
    assert_eq!(player.active_count(), 2);
    assert_eq!(player.handle(AudioControlFlow::Stop), Ok(()));
    assert_eq!(player.active_count(), 0);
}
