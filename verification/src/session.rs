//! The splitter's life alongside one attached game process: each tick hands
//! in the reading (if the provider could be read at all) and the timer's split
//! index, and gets back what to report and which timer operations to run.

use vstd::prelude::*;
use crate::reading::{is_ready, ready, snapshot_from, snapshot_of, RawState};
use crate::splitter::{initial_state, step, Actions, Splitter, SplitterState};

verus! {

/// A change in whether the progress provider can be followed.
#[derive(Clone, Copy, Debug, PartialEq, Eq, Structural)]
pub enum Notice {
    /// The provider became ready.
    Bound,
    /// The provider was read but is not ready.
    NotReady,
    /// The provider could no longer be read: no run is in progress.
    Lost,
}

/// What a tick asks of the caller: a notice to report, if the provider's
/// state changed, and the timer operations, when the provider was ready.
#[derive(Clone, Copy, Debug, PartialEq, Eq, Structural)]
pub struct Tick {
    pub notice: Option<Notice>,
    pub actions: Option<Actions>,
}

/// What a session remembers between ticks.
pub struct SessionState {
    pub splitter: SplitterState,
    /// Whether the last tick found the provider ready.
    pub bound: bool,
}

/// The timer's split index as the splitter takes it: an index that does not
/// fit in 32 bits is taken as no attempt at all.
pub open spec fn split_index_from(index: Option<u64>) -> Option<u32> {
    match index {
        Some(i) => if i <= u32::MAX { Some(i as u32) } else { None },
        None => None,
    }
}

/// One tick of a session.
pub open spec fn session_step(pre: SessionState, reading: Option<RawState>, timer_index: Option<u64>)
    -> (SessionState, Tick)
{
    match reading {
        Some(r) => {
            let now = ready(r);
            let notice = if now == pre.bound {
                None
            } else if now {
                Some(Notice::Bound)
            } else {
                Some(Notice::NotReady)
            };
            if now {
                let (splitter, actions) = step(pre.splitter, snapshot_from(r), split_index_from(timer_index));
                (SessionState { splitter, bound: true }, Tick { notice, actions: Some(actions) })
            } else {
                (SessionState { splitter: pre.splitter, bound: false }, Tick { notice, actions: None })
            }
        },
        // Every read hangs off the current player, which is missing outside a
        // run, so this is the normal menu state.
        None => (
            SessionState { splitter: pre.splitter, bound: false },
            Tick { notice: if pre.bound { Some(Notice::Lost) } else { None }, actions: None },
        ),
    }
}

pub fn split_index_of(index: Option<u64>) -> (converted: Option<u32>)
    ensures
        converted == split_index_from(index),
{
    match index {
        Some(i) => if i <= u32::MAX as u64 { Some(i as u32) } else { None },
        None => None,
    }
}

/// A splitter and whether the provider it follows was ready on the last tick.
#[derive(Debug)]
pub struct Session {
    splitter: Splitter,
    bound: bool,
}

impl View for Session {
    type V = SessionState;

    closed spec fn view(&self) -> SessionState {
        SessionState { splitter: self.splitter@, bound: self.bound }
    }
}

impl Session {
    pub fn new() -> (session: Self)
        ensures
            session@ == (SessionState { splitter: initial_state(), bound: false }),
            session@.splitter.prev is None,
            session@.splitter.highest_progress == i32::MIN,
            !session@.splitter.started,
            !session@.bound,
    {
        Session { splitter: Splitter::new(), bound: false }
    }

    pub fn splitter(&self) -> (splitter: &Splitter)
        ensures
            splitter@ == self@.splitter,
    {
        &self.splitter
    }

    pub fn bound(&self) -> (bound: bool)
        ensures
            bound == self@.bound,
    {
        self.bound
    }

    /// Decides one tick from the provider's reading (`None` when it could not
    /// be read) and the timer's split index.
    pub fn tick(&mut self, reading: Option<RawState>, timer_index: Option<u64>) -> (tick: Tick)
        ensures
            (final(self)@, tick) == session_step(old(self)@, reading, timer_index),
    {
        match reading {
            Some(r) => {
                let now = is_ready(&r);
                let notice = if now == self.bound {
                    None
                } else if now {
                    Some(Notice::Bound)
                } else {
                    Some(Notice::NotReady)
                };
                self.bound = now;
                if now {
                    let actions = self.splitter.update(snapshot_of(&r), split_index_of(timer_index));
                    Tick { notice, actions: Some(actions) }
                } else {
                    Tick { notice, actions: None }
                }
            },
            None => {
                let notice = if self.bound { Some(Notice::Lost) } else { None };
                self.bound = false;
                Tick { notice, actions: None }
            },
        }
    }
}

} // verus!
