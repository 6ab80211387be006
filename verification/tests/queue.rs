use std::collections::VecDeque;

use pond_player::queue::PlaybackQueue;

#[test]
fn enqueue_appends_at_the_tail() {
    let mut queue = PlaybackQueue::new();
    queue.enqueue("a".to_owned());
    queue.enqueue("b".to_owned());
    assert_eq!(queue.forward_tracks(), &VecDeque::from(vec!["a".to_owned(), "b".to_owned()]));
    assert!(queue.history_tracks().is_empty());
}

#[test]
fn peek_next_does_not_remove() {
    let mut queue = PlaybackQueue::new();
    assert_eq!(queue.peek_next(), None);
    queue.enqueue("a".to_owned());
    assert_eq!(queue.peek_next(), Some(&"a".to_owned()));
    assert_eq!(queue.peek_next(), Some(&"a".to_owned()));
    assert_eq!(queue.forward_tracks().len(), 1);
}

#[test]
fn advance_moves_the_finished_track_to_history() {
    let mut queue = PlaybackQueue::new();
    queue.enqueue("a".to_owned());
    queue.enqueue("b".to_owned());
    assert_eq!(queue.advance(None), Some("a".to_owned()));
    assert!(queue.history_tracks().is_empty());
    assert_eq!(queue.advance(Some("a".to_owned())), Some("b".to_owned()));
    assert_eq!(queue.history_tracks(), &VecDeque::from(vec!["a".to_owned()]));
    assert!(queue.forward_tracks().is_empty());
}

#[test]
fn advance_on_empty_forward_queue_changes_nothing() {
    let mut queue = PlaybackQueue::new();
    queue.enqueue("a".to_owned());
    queue.advance(None);
    assert_eq!(queue.advance(Some("a".to_owned())), None);
    assert!(queue.history_tracks().is_empty());
    assert!(queue.forward_tracks().is_empty());
}

#[test]
fn retreat_pops_the_history_tail() {
    let mut queue = PlaybackQueue::new();
    assert_eq!(queue.retreat(), None);
    queue.record_played("a".to_owned());
    queue.record_played("b".to_owned());
    assert_eq!(queue.retreat(), Some("b".to_owned()));
    assert_eq!(queue.retreat(), Some("a".to_owned()));
    assert_eq!(queue.retreat(), None);
}

#[test]
fn clear_empties_forward_but_keeps_history() {
    let mut queue = PlaybackQueue::new();
    queue.enqueue("a".to_owned());
    queue.enqueue("b".to_owned());
    queue.record_played("x".to_owned());
    queue.clear();
    assert!(queue.forward_tracks().is_empty());
    assert_eq!(queue.history_tracks(), &VecDeque::from(vec!["x".to_owned()]));
}
