//! The playback queue: a FIFO forward queue of pending track references and
//! a LIFO history of already-played references.

use std::collections::VecDeque;
use vstd::prelude::*;

verus! {

/// Mathematical model of a `PlaybackQueue`: two sequences of track
/// references (file paths), each path a character sequence.
pub ghost struct QueueModel {
    pub forward: Seq<Seq<char>>,
    pub history: Seq<Seq<char>>,
}

/// Pending tracks (`forward`, consumed at the head, appended at the tail)
/// and the playback record (`history`, pushed and popped at the tail).
///
/// A track reference moves forward -> played -> history exactly once per
/// play; back-skip pops from `history` only and never requeues into
/// `forward`.
#[derive(Debug)]
pub struct PlaybackQueue {
    forward: VecDeque<String>,
    history: VecDeque<String>,
}

impl View for PlaybackQueue {
    type V = QueueModel;

    closed spec fn view(&self) -> QueueModel {
        QueueModel { forward: self.forward.deep_view(), history: self.history.deep_view() }
    }
}

impl PlaybackQueue {
    /// An empty queue: nothing pending, nothing played.
    pub fn new() -> (r: PlaybackQueue)
        ensures
            r@.forward == Seq::<Seq<char>>::empty(),
            r@.history == Seq::<Seq<char>>::empty(),
    {
        let q = PlaybackQueue { forward: VecDeque::new(), history: VecDeque::new() };
        proof {
            assert(q@.forward =~= Seq::<Seq<char>>::empty());
            assert(q@.history =~= Seq::<Seq<char>>::empty());
        }
        q
    }

    /// Appends a track reference at the tail of the forward queue. Always
    /// succeeds.
    pub fn enqueue(&mut self, track: String)
        ensures
            final(self)@.forward == old(self)@.forward.push(track@),
            final(self)@.history == old(self)@.history,
    {
        self.forward.push_back(track);
        proof {
            assert(self@.forward =~= old(self)@.forward.push(track@));
            assert(self@.history =~= old(self)@.history);
        }
    }

    /// The head of the forward queue, without removing it; `None` exactly
    /// when nothing is pending.
    pub fn peek_next(&self) -> (r: Option<&String>)
        ensures
            match r {
                Some(s) => self@.forward.len() > 0 && s@ == self@.forward[0],
                None => self@.forward.len() == 0,
            },
    {
        if self.forward.len() > 0 {
            Some(&self.forward[0])
        } else {
            None
        }
    }

    /// Removes and returns the head of the forward queue; if one is there,
    /// the previously current track (supplied by the caller) is pushed onto
    /// the history tail. Returns `None`, changing nothing, exactly when the
    /// forward queue is empty.
    pub fn advance(&mut self, finished: Option<String>) -> (r: Option<String>)
        ensures
            old(self)@.forward.len() == 0 ==> r is None && final(self)@ == old(self)@,
            old(self)@.forward.len() > 0 ==> {
                &&& r matches Some(s) && s@ == old(self)@.forward[0]
                &&& final(self)@.forward == old(self)@.forward.drop_first()
                &&& final(self)@.history == match finished {
                    Some(f) => old(self)@.history.push(f@),
                    None => old(self)@.history,
                }
            },
    {
        match self.forward.pop_front() {
            Some(next) => {
                proof {
                    assert(self@.forward =~= old(self)@.forward.drop_first());
                }
                match finished {
                    Some(f) => {
                        self.history.push_back(f);
                        proof {
                            let ghost f_view = old(self)@.history.push(
                                finished.deep_view()->Some_0,
                            );
                            assert(self@.history =~= f_view);
                        }
                    },
                    None => {},
                }
                Some(next)
            },
            None => {
                proof {
                    assert(self@.forward =~= old(self)@.forward);
                }
                None
            },
        }
    }

    /// Records a track that finished playing with nothing left pending:
    /// pushes it onto the history tail without touching the forward queue.
    pub fn record_played(&mut self, played: String)
        ensures
            final(self)@.forward == old(self)@.forward,
            final(self)@.history == old(self)@.history.push(played@),
    {
        self.history.push_back(played);
        proof {
            assert(self@.forward =~= old(self)@.forward);
            assert(self@.history =~= old(self)@.history.push(played@));
        }
    }

    /// Pops and returns the tail of the history; `None`, changing nothing,
    /// exactly when the history is empty.
    pub fn retreat(&mut self) -> (r: Option<String>)
        ensures
            old(self)@.history.len() == 0 ==> r is None && final(self)@ == old(self)@,
            old(self)@.history.len() > 0 ==> {
                &&& r matches Some(s) && s@ == old(self)@.history.last()
                &&& final(self)@.history == old(self)@.history.drop_last()
                &&& final(self)@.forward == old(self)@.forward
            },
    {
        match self.history.pop_back() {
            Some(track) => {
                proof {
                    assert(self@.history =~= old(self)@.history.drop_last());
                }
                Some(track)
            },
            None => {
                proof {
                    assert(self@.history =~= old(self)@.history);
                }
                None
            },
        }
    }

    /// Empties the forward queue; the history is a playback record, not
    /// pending work, and is untouched.
    pub fn clear(&mut self)
        ensures
            final(self)@.forward == Seq::<Seq<char>>::empty(),
            final(self)@.history == old(self)@.history,
    {
        self.forward.clear();
        proof {
            assert(self@.forward =~= Seq::<Seq<char>>::empty());
            assert(self@.history =~= old(self)@.history);
        }
    }

    /// The pending tracks, head first.
    pub fn forward_tracks(&self) -> (r: &VecDeque<String>)
        ensures
            r.deep_view() == self@.forward,
    {
        &self.forward
    }

    /// The playback record, oldest first.
    pub fn history_tracks(&self) -> (r: &VecDeque<String>)
        ensures
            r.deep_view() == self@.history,
    {
        &self.history
    }
}

} // verus!
