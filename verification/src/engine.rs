//! The playback engine: transport state and the skip / back-skip /
//! auto-advance state machine over the playback queue.
//!
//! The engine is pure data. The surrounding application owns the audio sink
//! and the decoder; it performs each `Load` outcome the engine hands back
//! (open the file, decode it, hand the stream to the sink) and reports the
//! result through `note_track_loaded` / `note_track_load_failed`. Durations
//! are carried as whole milliseconds.

use std::collections::VecDeque;
use vstd::prelude::*;

use crate::queue::PlaybackQueue;

verus! {

/// Mathematical model of the engine: the queue's two sequences plus the
/// transport state.
pub ghost struct EngineModel {
    pub forward: Seq<Seq<char>>,
    pub history: Seq<Seq<char>>,
    pub current: Option<Seq<char>>,
    pub paused: bool,
    pub current_length: u64,
    pub current_position: u64,
    pub reported_idle: bool,
}

/// What `skip` decided: load the next pending track, or report that the
/// forward queue is exhausted (a status, not an error).
#[derive(Debug)]
pub enum SkipOutcome {
    Load(String),
    QueueExhausted,
}

/// What `back_skip` decided: load the most recently played track, or report
/// that the history is exhausted (a status, not an error).
#[derive(Debug)]
pub enum BackSkipOutcome {
    Load(String),
    HistoryExhausted,
}

/// What the end-of-track poll decided: the sink is still sounding, a new
/// track must be loaded, the queue just ran out (reported once per idle
/// episode), or the engine is idle and has already said so.
#[derive(Debug)]
pub enum PollOutcome {
    Load(String),
    EndOfQueue,
    Idle,
    Playing,
}

/// Whether a seek target lies within the current track; an out-of-range
/// target is a loggable condition, not an error, and is left to the sink's
/// own clamping.
#[derive(Clone, Copy, Debug, PartialEq, Eq, Structural)]
pub enum SeekOutcome {
    InRange,
    SeekOutOfRange,
}

/// The engine as constructed: empty queue and history, nothing loaded,
/// paused, zero length and position, idleness not yet reported.
pub open spec fn initial_engine_model() -> EngineModel {
    EngineModel {
        forward: Seq::empty(),
        history: Seq::empty(),
        current: None,
        paused: true,
        current_length: 0,
        current_position: 0,
        reported_idle: false,
    }
}

/// Appending a track to the forward queue.
pub open spec fn enqueue_transition(e: EngineModel, track: Seq<char>) -> EngineModel {
    EngineModel { forward: e.forward.push(track), ..e }
}

/// The history after the current track (if any) is recorded as played.
pub open spec fn history_after_recording(e: EngineModel) -> Seq<Seq<char>> {
    match e.current {
        Some(c) => e.history.push(c),
        None => e.history,
    }
}

/// Skipping: with pending tracks, the just-displaced current track moves to
/// the history and the forward head becomes current; with an empty forward
/// queue, nothing changes.
pub open spec fn skip_transition(e: EngineModel) -> EngineModel {
    if e.forward.len() == 0 {
        e
    } else {
        EngineModel {
            forward: e.forward.drop_first(),
            history: history_after_recording(e),
            current: Some(e.forward[0]),
            reported_idle: false,
            ..e
        }
    }
}

/// Back-skipping: with a non-empty history, its tail becomes current and is
/// removed from the history (never requeued into the forward queue; the
/// displaced current track is discarded); with an empty history, nothing
/// changes.
pub open spec fn back_skip_transition(e: EngineModel) -> EngineModel {
    if e.history.len() == 0 {
        e
    } else {
        EngineModel {
            history: e.history.drop_last(),
            current: Some(e.history.last()),
            reported_idle: false,
            ..e
        }
    }
}

/// The end-of-track poll: while the sink still sounds, nothing changes; on
/// an empty sink the engine advances like `skip`, except that with nothing
/// pending the finished track is recorded and the engine goes idle.
pub open spec fn poll_transition(e: EngineModel, sink_empty: bool) -> EngineModel {
    if !sink_empty {
        e
    } else if e.forward.len() > 0 {
        skip_transition(e)
    } else {
        EngineModel {
            history: history_after_recording(e),
            current: None,
            reported_idle: true,
            ..e
        }
    }
}

/// A failed load: the failed track is dropped without entering the history
/// (it never played), and the next pending track, if any, becomes current.
pub open spec fn load_fail_transition(e: EngineModel) -> EngineModel {
    if e.forward.len() == 0 {
        EngineModel { current: None, ..e }
    } else {
        EngineModel {
            forward: e.forward.drop_first(),
            current: Some(e.forward[0]),
            reported_idle: false,
            ..e
        }
    }
}

/// Law: enqueuing three tracks into a fresh engine and skipping three times
/// plays them in order; afterwards the third is current, the first two sit
/// in the history oldest-first, and nothing is pending.
pub proof fn lemma_skip_round_trip(a: Seq<char>, b: Seq<char>, c: Seq<char>)
    ensures
        ({
            let e0 = enqueue_transition(
                enqueue_transition(enqueue_transition(initial_engine_model(), a), b),
                c,
            );
            let e1 = skip_transition(e0);
            let e2 = skip_transition(e1);
            let e3 = skip_transition(e2);
            &&& e1.current == Some(a)
            &&& e2.current == Some(b)
            &&& e3.current == Some(c)
            &&& e3.forward == Seq::<Seq<char>>::empty()
            &&& e3.history == seq![a, b]
        }),
{
    let e0 = enqueue_transition(
        enqueue_transition(enqueue_transition(initial_engine_model(), a), b),
        c,
    );
    assert(e0.forward =~= seq![a, b, c]);
    let e1 = skip_transition(e0);
    assert(e1.forward =~= seq![b, c]);
    assert(e1.history =~= Seq::<Seq<char>>::empty());
    let e2 = skip_transition(e1);
    assert(e2.forward =~= seq![c]);
    assert(e2.history =~= seq![a]);
    let e3 = skip_transition(e2);
    assert(e3.forward =~= Seq::<Seq<char>>::empty());
    assert(e3.history =~= seq![a, b]);
}

/// Law: a back-skip after that three-track sequence restores the second
/// track as current, removes it from the history, and leaves only the first
/// track there.
pub proof fn lemma_back_skip_restores(a: Seq<char>, b: Seq<char>, c: Seq<char>)
    ensures
        ({
            let e0 = enqueue_transition(
                enqueue_transition(enqueue_transition(initial_engine_model(), a), b),
                c,
            );
            let e4 = back_skip_transition(skip_transition(skip_transition(skip_transition(e0))));
            &&& e4.current == Some(b)
            &&& e4.history == seq![a]
            &&& e4.forward == Seq::<Seq<char>>::empty()
        }),
{
    lemma_skip_round_trip(a, b, c);
    let e0 = enqueue_transition(
        enqueue_transition(enqueue_transition(initial_engine_model(), a), b),
        c,
    );
    let e3 = skip_transition(skip_transition(skip_transition(e0)));
    let e4 = back_skip_transition(e3);
    assert(e3.history.last() == b);
    assert(e4.history =~= seq![a]);
}

/// Law: skipping with an empty forward queue leaves the whole engine state
/// unchanged, so repeated calls keep reporting exhaustion with no partial
/// side effects.
pub proof fn lemma_skip_on_empty_queue(e: EngineModel)
    requires
        e.forward.len() == 0,
    ensures
        skip_transition(e) == e,
{
}

/// Law: back-skipping with an empty history leaves the whole engine state
/// unchanged, so repeated calls keep reporting exhaustion with no partial
/// side effects.
pub proof fn lemma_back_skip_on_empty_history(e: EngineModel)
    requires
        e.history.len() == 0,
    ensures
        back_skip_transition(e) == e,
{
}

/// Owns the playback queue and the transport state; every transport
/// operation is a pure transition on the model, with the audio work left to
/// the caller.
#[derive(Debug)]
pub struct PlaybackEngine {
    queue: PlaybackQueue,
    current: Option<String>,
    paused: bool,
    current_length: u64,
    current_position: u64,
    reported_idle: bool,
}

impl View for PlaybackEngine {
    type V = EngineModel;

    closed spec fn view(&self) -> EngineModel {
        EngineModel {
            forward: self.queue@.forward,
            history: self.queue@.history,
            current: self.current.deep_view(),
            paused: self.paused,
            current_length: self.current_length,
            current_position: self.current_position,
            reported_idle: self.reported_idle,
        }
    }
}

impl PlaybackEngine {
    /// A fresh engine: nothing loaded, paused, empty queue and history.
    pub fn new() -> (r: PlaybackEngine)
        ensures
            r@ == initial_engine_model(),
    {
        PlaybackEngine {
            queue: PlaybackQueue::new(),
            current: None,
            paused: true,
            current_length: 0,
            current_position: 0,
            reported_idle: false,
        }
    }

    /// Appends a resolved track reference at the tail of the forward queue.
    /// Always succeeds.
    pub fn append_to_queue(&mut self, file_path: String)
        ensures
            final(self)@ == enqueue_transition(old(self)@, file_path@),
    {
        self.queue.enqueue(file_path);
    }

    /// Flips between playing and paused; a no-op while nothing is loaded.
    pub fn toggle_play_pause(&mut self)
        ensures
            old(self)@.current is None ==> final(self)@ == old(self)@,
            old(self)@.current is Some ==> final(self)@ == (EngineModel {
                paused: !old(self)@.paused,
                ..old(self)@
            }),
    {
        if self.current.is_some() {
            self.paused = !self.paused;
        }
    }

    /// Advances to the head of the forward queue, recording the displaced
    /// current track into the history; reports `QueueExhausted`, changing
    /// nothing, when nothing is pending. The returned `Load` carries the
    /// track the caller must now decode and hand to the sink.
    pub fn skip(&mut self) -> (r: SkipOutcome)
        ensures
            final(self)@ == skip_transition(old(self)@),
            old(self)@.forward.len() == 0 ==> r is QueueExhausted,
            old(self)@.forward.len() > 0 ==> (r matches SkipOutcome::Load(t) && t@ == old(
                self,
            )@.forward[0]),
    {
        if self.queue.peek_next().is_none() {
            return SkipOutcome::QueueExhausted;
        }
        let previous = self.current.take();
        match self.queue.advance(previous) {
            Some(next) => {
                let handed = next.clone();
                self.current = Some(next);
                self.reported_idle = false;
                SkipOutcome::Load(handed)
            },
            None => SkipOutcome::QueueExhausted,
        }
    }

    /// Returns to the most recently played track, removing it from the
    /// history; the displaced current track is discarded, not requeued.
    /// Reports `HistoryExhausted`, changing nothing, when the history is
    /// empty.
    pub fn back_skip(&mut self) -> (r: BackSkipOutcome)
        ensures
            final(self)@ == back_skip_transition(old(self)@),
            old(self)@.history.len() == 0 ==> r is HistoryExhausted,
            old(self)@.history.len() > 0 ==> (r matches BackSkipOutcome::Load(t) && t@ == old(
                self,
            )@.history.last()),
    {
        match self.queue.retreat() {
            Some(track) => {
                let handed = track.clone();
                self.current = Some(track);
                self.reported_idle = false;
                BackSkipOutcome::Load(handed)
            },
            None => BackSkipOutcome::HistoryExhausted,
        }
    }

    /// The periodic end-of-track poll; the caller samples the sink's
    /// emptiness every frame and passes it in. When the sink has run dry the
    /// engine advances like `skip`; with nothing pending it records the
    /// finished track, goes idle and reports `EndOfQueue` once per idle
    /// episode (`Idle` thereafter).
    pub fn poll_end_of_track(&mut self, sink_empty: bool) -> (r: PollOutcome)
        ensures
            final(self)@ == poll_transition(old(self)@, sink_empty),
            !sink_empty ==> r is Playing,
            sink_empty && old(self)@.forward.len() > 0 ==> (r matches PollOutcome::Load(t) && t@
                == old(self)@.forward[0]),
            sink_empty && old(self)@.forward.len() == 0 && !old(self)@.reported_idle ==> r
                is EndOfQueue,
            sink_empty && old(self)@.forward.len() == 0 && old(self)@.reported_idle ==> r is Idle,
    {
        if !sink_empty {
            return PollOutcome::Playing;
        }
        match self.skip() {
            SkipOutcome::Load(track) => PollOutcome::Load(track),
            SkipOutcome::QueueExhausted => {
                let finished = self.current.take();
                match finished {
                    Some(c) => {
                        self.queue.record_played(c);
                    },
                    None => {},
                }
                let already_reported = self.reported_idle;
                self.reported_idle = true;
                if already_reported {
                    PollOutcome::Idle
                } else {
                    PollOutcome::EndOfQueue
                }
            },
        }
    }

    /// The caller reports that the track handed out by the last `Load`
    /// outcome decoded successfully, with its total duration: the transport
    /// position restarts at zero.
    pub fn note_track_loaded(&mut self, length_ms: u64)
        ensures
            final(self)@ == (EngineModel {
                current_length: length_ms,
                current_position: 0,
                ..old(self)@
            }),
    {
        self.current_length = length_ms;
        self.current_position = 0;
    }

    /// The caller reports that the track handed out by the last `Load`
    /// outcome could not be opened or decoded: the entry is dropped without
    /// entering the history, and the next pending track, if any, is
    /// attempted (retry-next policy).
    pub fn note_track_load_failed(&mut self) -> (r: SkipOutcome)
        ensures
            final(self)@ == load_fail_transition(old(self)@),
            old(self)@.forward.len() == 0 ==> r is QueueExhausted,
            old(self)@.forward.len() > 0 ==> (r matches SkipOutcome::Load(t) && t@ == old(
                self,
            )@.forward[0]),
    {
        let _failed = self.current.take();
        match self.queue.advance(None) {
            Some(next) => {
                let handed = next.clone();
                self.current = Some(next);
                self.reported_idle = false;
                SkipOutcome::Load(handed)
            },
            None => SkipOutcome::QueueExhausted,
        }
    }

    /// Classifies a seek target against the current track's length; the
    /// caller forwards the request to the sink either way and logs an
    /// out-of-range target, which the sink clamps on its own.
    pub fn seek(&self, target_ms: u64) -> (r: SeekOutcome)
        ensures
            r == SeekOutcome::InRange <==> target_ms <= self@.current_length,
    {
        if target_ms <= self.current_length {
            SeekOutcome::InRange
        } else {
            SeekOutcome::SeekOutOfRange
        }
    }

    /// The caller reports the sink's elapsed position within the current
    /// track.
    pub fn note_position(&mut self, position_ms: u64)
        ensures
            final(self)@ == (EngineModel { current_position: position_ms, ..old(self)@ }),
    {
        self.current_position = position_ms;
    }

    /// Empties the forward queue; the history and the transport state are
    /// untouched.
    pub fn clear_queue(&mut self)
        ensures
            final(self)@ == (EngineModel { forward: Seq::empty(), ..old(self)@ }),
    {
        self.queue.clear();
    }

    /// Whether the transport is paused.
    pub fn is_paused(&self) -> (r: bool)
        ensures
            r == self@.paused,
    {
        self.paused
    }

    /// Whether nothing is loaded (the idle state).
    pub fn is_idle(&self) -> (r: bool)
        ensures
            r == (self@.current is None),
    {
        self.current.is_none()
    }

    /// The total duration of the current track, in milliseconds.
    pub fn get_current_song_length(&self) -> (r: u64)
        ensures
            r == self@.current_length,
    {
        self.current_length
    }

    /// The elapsed position within the current track, in milliseconds, as
    /// last reported.
    pub fn get_song_progress(&self) -> (r: u64)
        ensures
            r == self@.current_position,
    {
        self.current_position
    }

    /// The pending tracks, head first.
    pub fn get_queue(&self) -> (r: &VecDeque<String>)
        ensures
            r.deep_view() == self@.forward,
    {
        self.queue.forward_tracks()
    }

    /// The playback record, oldest first.
    pub fn get_history(&self) -> (r: &VecDeque<String>)
        ensures
            r.deep_view() == self@.history,
    {
        self.queue.history_tracks()
    }

    /// The currently loaded track reference, if any.
    pub fn current_track(&self) -> (r: Option<&String>)
        ensures
            match r {
                Some(s) => self@.current == Some(s@),
                None => self@.current is None,
            },
    {
        match &self.current {
            Some(s) => Some(s),
            None => None,
        }
    }
}

} // verus!

