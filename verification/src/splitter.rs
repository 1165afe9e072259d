use vstd::prelude::*;

verus! {

/// Slack, in milliseconds, for comparing in-game time, which the game sums
/// from per-frame deltas.
pub const IGT_TOLERANCE_MS: i64 = 50;

/// In-game time, in milliseconds, below which a run taking its first input is
/// a fresh playthrough rather than a resumed save, whose IGT persists across
/// the load.
pub const FRESH_RUN_IGT_MS: i64 = 1000;

/// Everything the splitter reads from the game in a single tick.
///
/// In-game time is held as whole milliseconds.
#[derive(Clone, Copy, Debug, PartialEq, Eq, Structural)]
pub struct Snapshot {
    pub progress_level: i32,
    pub max_progress_level: i32,
    pub game_paused: bool,
    pub game_ended: bool,
    pub total_igt_ms: i64,
    pub currently_loading: bool,
}

/// The split index the timer should be on: reaching checkpoint N ends segment
/// N-1, and only the end of the game ends the last segment. With M the
/// checkpoint count (negative counts as 0), this is `progress_level` clamped
/// to `0..=M-1`, or M once the game has ended.
pub open spec fn target_index(s: Snapshot) -> int {
    let m: int = if s.max_progress_level >= 0 { s.max_progress_level as int } else { 0 };
    if s.game_ended {
        m
    } else if s.progress_level < 0 {
        0
    } else if s.progress_level <= m - 1 {
        s.progress_level as int
    } else if m >= 1 {
        m - 1
    } else {
        0
    }
}

/// A fresh playthrough: almost no in-game time and no checkpoint past the
/// first.
pub open spec fn fresh_run(s: Snapshot) -> bool {
    s.total_igt_ms < FRESH_RUN_IGT_MS && s.progress_level <= 0
}

pub(crate) fn target_split_index(s: &Snapshot) -> (index: u32)
    ensures
        index == target_index(*s),
{
    let max: i32 = if s.max_progress_level > 0 { s.max_progress_level } else { 0 };
    let level: i32 = if s.game_ended {
        max
    } else {
        // The game parks the level on the max-progress sentinel when it ends;
        // only `game_ended` may reach the final segment.
        let last: i32 = max - 1;
        if s.progress_level < last { s.progress_level } else { last }
    };
    if level > 0 { level as u32 } else { 0 }
}

pub(crate) fn is_fresh_run(s: &Snapshot) -> (fresh: bool)
    ensures
        fresh == fresh_run(*s),
{
    s.total_igt_ms < FRESH_RUN_IGT_MS && s.progress_level <= 0
}


/// Timer operations for a tick, applied in field order: reset, start, then
/// `skips` calls to skip-split followed by, if `split`, one real split.
/// Segments whose checkpoint the run never triggered are skipped, not split.
#[derive(Clone, Copy, Debug, PartialEq, Eq, Structural)]
pub struct Actions {
    pub reset: bool,
    pub start: bool,
    pub skips: u32,
    pub split: bool,
}

/// The actions of a tick that does nothing.
pub open spec fn quiet() -> Actions {
    Actions { reset: false, start: false, skips: 0, split: false }
}

impl Default for Actions {
    fn default() -> (actions: Self)
        ensures
            actions == quiet(),
            !actions.reset && !actions.start && actions.skips == 0 && !actions.split,
    {
        Actions { reset: false, start: false, skips: 0, split: false }
    }
}

/// What the splitter remembers between ticks.
pub struct SplitterState {
    /// The previous tick's snapshot, if there was one.
    pub prev: Option<Snapshot>,
    /// High-water mark of the checkpoint index within the current run.
    pub highest_progress: i32,
    /// Whether the current run has started.
    pub started: bool,
}

/// The state of a splitter that has seen nothing yet.
pub open spec fn initial_state() -> SplitterState {
    SplitterState { prev: None, highest_progress: i32::MIN, started: false }
}

/// In-game time went backwards by more than the tolerance: in-game time is
/// monotonic within a run, so this is a new run.
pub open spec fn igt_went_back(prev: Snapshot, s: Snapshot) -> bool {
    s.total_igt_ms < prev.total_igt_ms - IGT_TOLERANCE_MS
}

/// The game's pause flag falls: the first player input of a run.
pub open spec fn start_edge(prev: Snapshot, s: Snapshot) -> bool {
    prev.game_paused && !s.game_paused
}

/// The timer holds an attempt that is not ahead of the game.
pub open spec fn underway(timer: Option<u32>, s: Snapshot) -> bool {
    match timer {
        Some(index) => index <= target_index(s),
        None => false,
    }
}

/// Aligns the timer's split index with the game's target: every segment
/// between them is skipped, and the last one is split. A timer at or ahead of
/// the target, or with no attempt running, is left alone.
pub open spec fn catch_up(timer: Option<u32>, s: Snapshot) -> Actions {
    match timer {
        Some(current) => if target_index(s) > current {
            Actions {
                reset: false,
                start: false,
                skips: (target_index(s) - current - 1) as u32,
                split: true,
            }
        } else {
            quiet()
        },
        None => quiet(),
    }
}

/// One tick of the splitter: the state after it and the timer operations.
pub open spec fn step(pre: SplitterState, s: Snapshot, timer: Option<u32>) -> (SplitterState, Actions) {
    match pre.prev {
        // No transition can be judged from a single observation.
        None => (
            SplitterState { prev: Some(s), highest_progress: s.progress_level, started: pre.started },
            quiet(),
        ),
        Some(prev) => if igt_went_back(prev, s) {
            (
                SplitterState { prev: Some(s), highest_progress: s.progress_level, started: false },
                Actions { reset: true, start: false, skips: 0, split: false },
            )
        } else {
            let highest = if s.progress_level > pre.highest_progress {
                s.progress_level
            } else {
                pre.highest_progress
            };
            let kept = SplitterState { prev: Some(s), highest_progress: highest, started: pre.started };
            let begun = SplitterState { prev: Some(s), highest_progress: highest, started: true };
            if pre.started {
                (kept, catch_up(timer, s))
            } else if start_edge(prev, s) {
                (begun, Actions { reset: fresh_run(s), start: true, skips: 0, split: false })
            } else if underway(timer, s) && !fresh_run(s) {
                // The splitter restarted mid-run: adopt the attempt.
                (begun, catch_up(timer, s))
            } else {
                (kept, quiet())
            }
        },
    }
}

/// Decides each tick of a run from the game's state and the timer's split
/// index.
// Deliberately not Default: it would disagree with `new` about
// `highest_progress`.
#[derive(Debug)]
pub struct Splitter {
    prev: Option<Snapshot>,
    highest_progress: i32,
    started: bool,
}

impl View for Splitter {
    type V = SplitterState;

    closed spec fn view(&self) -> SplitterState {
        SplitterState {
            prev: self.prev,
            highest_progress: self.highest_progress,
            started: self.started,
        }
    }
}

impl Splitter {
    pub fn new() -> (splitter: Self)
        ensures
            splitter@ == initial_state(),
            splitter@.prev is None,
            splitter@.highest_progress == i32::MIN,
            !splitter@.started,
    {
        Splitter { prev: None, highest_progress: i32::MIN, started: false }
    }

    pub fn started(&self) -> (started: bool)
        ensures
            started == self@.started,
    {
        self.started
    }

    /// High-water mark of the checkpoint index. Bookkeeping only; splits are
    /// driven by the target split index against the timer's own index.
    pub fn highest_progress(&self) -> (highest: i32)
        ensures
            highest == self@.highest_progress,
    {
        self.highest_progress
    }

    /// Decides a tick from the game state and `timer_split_index`, the timer's
    /// current split index or `None` when no attempt is in progress. Splits
    /// come from aligning that index to the target split index, not from
    /// edges.
    pub fn update(&mut self, s: Snapshot, timer_split_index: Option<u32>) -> (actions: Actions)
        ensures
            (final(self)@, actions) == step(old(self)@, s, timer_split_index),
    {
        let mut actions = Actions::default();

        let last = self.prev;
        self.prev = Some(s);
        let prev = match last {
            Some(prev) => prev,
            None => {
                self.highest_progress = s.progress_level;
                return actions;
            },
        };

        // IGT is monotonic within a run, so going backwards means a new run.
        // Reset keys off IGT alone: progress may drop while backtracking.
        if (s.total_igt_ms as i128) < (prev.total_igt_ms as i128) - (IGT_TOLERANCE_MS as i128) {
            actions.reset = true;
            self.started = false;
            self.highest_progress = s.progress_level;
            return actions;
        }

        if s.progress_level > self.highest_progress {
            self.highest_progress = s.progress_level;
        }

        if !self.started {
            // The game sets its pause flag on load and clears it on the first
            // player input.
            if prev.game_paused && !s.game_paused {
                self.started = true;
                actions.start = true;
                // A fresh playthrough must clear whatever attempt is left in
                // the timer. Reset is a no-op when the timer is idle.
                actions.reset = is_fresh_run(&s);
                // This tick's index still describes the old attempt.
                return actions;
            }

            // No start edge to see, so the splitter restarted mid-run and the
            // attempt did not. Adopt it, unless the timer sits ahead of the
            // game, which means the attempt belongs to an earlier run.
            let underway = match timer_split_index {
                Some(index) => index <= target_split_index(&s),
                None => false,
            };
            if !underway || is_fresh_run(&s) {
                return actions;
            }
            self.started = true;
        }

        let current = match timer_split_index {
            Some(current) => current,
            None => return actions,
        };

        // Forwards only: a lower target is backtracking or a manual split.
        let target = target_split_index(&s);
        if target > current {
            actions.skips = target - current - 1;
            actions.split = true;
        }

        actions
    }
}

} // verus!
