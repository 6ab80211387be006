use std::collections::VecDeque;

use pond_player::engine::{BackSkipOutcome, PlaybackEngine, PollOutcome, SeekOutcome, SkipOutcome};

fn loaded_track(outcome: SkipOutcome) -> String {
    match outcome {
        SkipOutcome::Load(track) => track,
        SkipOutcome::QueueExhausted => panic!("expected a track to load"),
    }
}

fn engine_with_three_tracks() -> PlaybackEngine {
    let mut engine = PlaybackEngine::new();
    engine.append_to_queue("a.flac".to_owned());
    engine.append_to_queue("b.flac".to_owned());
    engine.append_to_queue("c.flac".to_owned());
    engine
}

#[test]
fn three_skips_play_in_order_and_record_history() {
    let mut engine = engine_with_three_tracks();
    assert_eq!(loaded_track(engine.skip()), "a.flac");
    assert_eq!(loaded_track(engine.skip()), "b.flac");
    assert_eq!(loaded_track(engine.skip()), "c.flac");
    assert_eq!(engine.current_track(), Some(&"c.flac".to_owned()));
    assert_eq!(engine.get_history(), &VecDeque::from(vec!["a.flac".to_owned(), "b.flac".to_owned()]));
    assert!(engine.get_queue().is_empty());
}

#[test]
fn back_skip_restores_previous_track() {
    let mut engine = engine_with_three_tracks();
    engine.skip();
    engine.skip();
    engine.skip();
    match engine.back_skip() {
        BackSkipOutcome::Load(track) => assert_eq!(track, "b.flac"),
        BackSkipOutcome::HistoryExhausted => panic!("history was not empty"),
    }
    assert_eq!(engine.current_track(), Some(&"b.flac".to_owned()));
    assert_eq!(engine.get_history(), &VecDeque::from(vec!["a.flac".to_owned()]));
    assert!(engine.get_queue().is_empty());
}

#[test]
fn skip_on_empty_queue_changes_nothing() {
    let mut engine = PlaybackEngine::new();
    engine.note_track_loaded(1000);
    for _ in 0..3 {
        assert!(matches!(engine.skip(), SkipOutcome::QueueExhausted));
        assert!(engine.current_track().is_none());
        assert!(engine.get_queue().is_empty());
        assert!(engine.get_history().is_empty());
        assert_eq!(engine.get_current_song_length(), 1000);
        assert!(engine.is_paused());
    }
}

#[test]
fn back_skip_on_empty_history_changes_nothing() {
    let mut engine = PlaybackEngine::new();
    engine.append_to_queue("a.flac".to_owned());
    for _ in 0..3 {
        assert!(matches!(engine.back_skip(), BackSkipOutcome::HistoryExhausted));
        assert!(engine.current_track().is_none());
        assert_eq!(engine.get_queue(), &VecDeque::from(vec!["a.flac".to_owned()]));
        assert!(engine.get_history().is_empty());
    }
}

#[test]
fn poll_while_sounding_changes_nothing() {
    let mut engine = engine_with_three_tracks();
    engine.skip();
    assert!(matches!(engine.poll_end_of_track(false), PollOutcome::Playing));
    assert_eq!(engine.current_track(), Some(&"a.flac".to_owned()));
    assert_eq!(engine.get_queue().len(), 2);
}

#[test]
fn poll_auto_advances_when_sink_runs_dry() {
    let mut engine = engine_with_three_tracks();
    engine.skip();
    match engine.poll_end_of_track(true) {
        PollOutcome::Load(track) => assert_eq!(track, "b.flac"),
        _ => panic!("expected the next track to load"),
    }
    assert_eq!(engine.current_track(), Some(&"b.flac".to_owned()));
    assert_eq!(engine.get_history(), &VecDeque::from(vec!["a.flac".to_owned()]));
}

#[test]
fn poll_reports_end_of_queue_once_per_idle_episode() {
    let mut engine = PlaybackEngine::new();
    engine.append_to_queue("a.flac".to_owned());
    engine.skip();
    // The only track finishes with nothing pending: it is recorded as
    // played, the engine goes idle, and the status is reported exactly once.
    assert!(matches!(engine.poll_end_of_track(true), PollOutcome::EndOfQueue));
    assert!(engine.current_track().is_none());
    assert_eq!(engine.get_history(), &VecDeque::from(vec!["a.flac".to_owned()]));
    assert!(matches!(engine.poll_end_of_track(true), PollOutcome::Idle));
    assert!(matches!(engine.poll_end_of_track(true), PollOutcome::Idle));
    // A new track ends the idle episode; the next exhaustion is reported
    // again.
    engine.append_to_queue("b.flac".to_owned());
    match engine.poll_end_of_track(true) {
        PollOutcome::Load(track) => assert_eq!(track, "b.flac"),
        _ => panic!("expected the new track to load"),
    }
    assert!(matches!(engine.poll_end_of_track(true), PollOutcome::EndOfQueue));
}

#[test]
fn failed_load_drops_entry_and_tries_next() {
    let mut engine = engine_with_three_tracks();
    assert_eq!(loaded_track(engine.skip()), "a.flac");
    // "a.flac" could not be decoded: it must not enter the history, and the
    // next entry is attempted.
    assert_eq!(loaded_track(engine.note_track_load_failed()), "b.flac");
    assert_eq!(engine.current_track(), Some(&"b.flac".to_owned()));
    assert!(engine.get_history().is_empty());
    assert_eq!(engine.get_queue(), &VecDeque::from(vec!["c.flac".to_owned()]));
}

#[test]
fn failed_load_with_empty_queue_goes_idle() {
    let mut engine = PlaybackEngine::new();
    engine.append_to_queue("a.flac".to_owned());
    engine.skip();
    assert!(matches!(engine.note_track_load_failed(), SkipOutcome::QueueExhausted));
    assert!(engine.current_track().is_none());
    assert!(engine.get_history().is_empty());
}

#[test]
fn toggle_play_pause_is_a_no_op_while_idle() {
    let mut engine = PlaybackEngine::new();
    assert!(engine.is_paused());
    engine.toggle_play_pause();
    assert!(engine.is_paused());
}

#[test]
fn toggle_play_pause_flips_once_loaded() {
    let mut engine = engine_with_three_tracks();
    engine.skip();
    assert!(engine.is_paused());
    engine.toggle_play_pause();
    assert!(!engine.is_paused());
    engine.toggle_play_pause();
    assert!(engine.is_paused());
}

#[test]
fn seek_classifies_targets_against_track_length() {
    let mut engine = PlaybackEngine::new();
    engine.note_track_loaded(90_000);
    assert_eq!(engine.seek(0), SeekOutcome::InRange);
    assert_eq!(engine.seek(90_000), SeekOutcome::InRange);
    assert_eq!(engine.seek(90_001), SeekOutcome::SeekOutOfRange);
}

#[test]
fn loading_a_track_resets_the_position() {
    let mut engine = PlaybackEngine::new();
    engine.note_track_loaded(90_000);
    engine.note_position(45_000);
    assert_eq!(engine.get_current_song_length(), 90_000);
    assert_eq!(engine.get_song_progress(), 45_000);
    engine.note_track_loaded(60_000);
    assert_eq!(engine.get_current_song_length(), 60_000);
    assert_eq!(engine.get_song_progress(), 0);
}

#[test]
fn clear_queue_keeps_history_and_transport_state() {
    let mut engine = engine_with_three_tracks();
    engine.skip();
    engine.note_track_loaded(90_000);
    engine.clear_queue();
    assert!(engine.get_queue().is_empty());
    assert_eq!(engine.current_track(), Some(&"a.flac".to_owned()));
    assert!(engine.get_history().is_empty());
    assert_eq!(engine.get_current_song_length(), 90_000);
}

#[test]
fn fresh_engine_is_idle_and_paused() {
    let engine = PlaybackEngine::new();
    assert!(engine.is_idle());
    assert!(engine.is_paused());
    assert_eq!(engine.get_current_song_length(), 0);
    assert_eq!(engine.get_song_progress(), 0);
    assert!(engine.get_queue().is_empty());
    assert!(engine.get_history().is_empty());
}
