//! Properties of the splitter that hold of every tick, proved over the model
//! that `Splitter::update` implements exactly.

use vstd::prelude::*;
use crate::reading::RawState;
use crate::session::{session_step, Notice, SessionState, Tick};
use crate::splitter::{
    Actions,
    initial_state, step, target_index,
    Snapshot, SplitterState,
};

verus! {

/// A splitter that has seen nothing yet does nothing on its first tick,
/// whatever the game and the timer show.
pub proof fn first_tick_is_quiet(s: Snapshot, timer: Option<u32>)
    ensures
        step(initial_state(), s, timer).1 == (Actions { reset: false, start: false, skips: 0, split: false }),
        step(initial_state(), s, timer).0.prev == Some(s),
        !step(initial_state(), s, timer).0.started,
{
}

/// Skips only ever come before a split: a tick never skips a segment without
/// also splitting the one after it.
pub proof fn skips_come_with_a_split(pre: SplitterState, s: Snapshot, timer: Option<u32>)
    ensures
        step(pre, s, timer).1.skips > 0 ==> step(pre, s, timer).1.split,
{
}

/// A reset or a start ends the tick: neither is ever followed by a skip or a
/// split in the same tick.
pub proof fn reset_and_start_do_not_split(pre: SplitterState, s: Snapshot, timer: Option<u32>)
    ensures
        step(pre, s, timer).1.reset ==> !step(pre, s, timer).1.split && step(pre, s, timer).1.skips == 0,
        step(pre, s, timer).1.start ==> !step(pre, s, timer).1.split && step(pre, s, timer).1.skips == 0,
{
}

/// Splits move the timer forwards only, and leave it level with the game:
/// a split needs a running attempt behind the target, and after its skips and
/// its split the timer's index is exactly the target split index.
pub proof fn split_lands_on_target(pre: SplitterState, s: Snapshot, timer: Option<u32>)
    ensures
        step(pre, s, timer).1.split ==> ({
            &&& timer is Some
            &&& timer->0 < target_index(s)
            &&& timer->0 + step(pre, s, timer).1.skips + 1 == target_index(s)
        }),
{
}

/// A timer already level with or ahead of the game is never split, so a
/// checkpoint is split once however many ticks report it.
pub proof fn no_split_when_level(pre: SplitterState, s: Snapshot, index: u32)
    requires
        index >= target_index(s),
    ensures
        !step(pre, s, Some(index)).1.split,
        step(pre, s, Some(index)).1.skips == 0,
{
}

/// Without an attempt in the timer nothing is skipped or split.
pub proof fn no_split_without_attempt(pre: SplitterState, s: Snapshot)
    ensures
        !step(pre, s, None).1.split,
        step(pre, s, None).1.skips == 0,
{
}

/// The timer is reset exactly when in-game time goes backwards past the
/// tolerance, or when a fresh playthrough takes its first input; progress
/// going down alone never resets.
pub proof fn reset_exactly_when(pre: SplitterState, s: Snapshot, timer: Option<u32>)
    ensures
        step(pre, s, timer).1.reset <==> (pre.prev matches Some(prev) && (
            s.total_igt_ms < prev.total_igt_ms - 50 || (!pre.started && prev.game_paused
                && !s.game_paused && s.total_igt_ms < 1000 && s.progress_level <= 0))),
{
}

/// In-game time going backwards forgets the run: the splitter is no longer
/// started and its high-water mark restarts from the current checkpoint.
pub proof fn igt_going_back_forgets_the_run(pre: SplitterState, s: Snapshot, timer: Option<u32>)
    requires
        pre.prev matches Some(prev) && s.total_igt_ms < prev.total_igt_ms - 50,
    ensures
        step(pre, s, timer).1 == (Actions { reset: true, start: false, skips: 0, split: false }),
        !step(pre, s, timer).0.started,
        step(pre, s, timer).0.highest_progress == s.progress_level,
{
}

/// The timer is started exactly on the first player input of a run that has
/// not started, and the run is started from then on.
pub proof fn start_exactly_when(pre: SplitterState, s: Snapshot, timer: Option<u32>)
    ensures
        step(pre, s, timer).1.start <==> (pre.prev matches Some(prev) && s.total_igt_ms
            >= prev.total_igt_ms - 50 && !pre.started && prev.game_paused && !s.game_paused),
        step(pre, s, timer).1.start ==> step(pre, s, timer).0.started,
{
}

/// A started run stays started until in-game time goes backwards.
pub proof fn started_until_reset(pre: SplitterState, s: Snapshot, timer: Option<u32>)
    requires
        pre.started,
    ensures
        step(pre, s, timer).0.started <==> !step(pre, s, timer).1.reset,
{
}

/// Every tick remembers its snapshot, and the high-water mark covers it;
/// within a run the mark never goes down.
pub proof fn highest_progress_is_a_high_water_mark(pre: SplitterState, s: Snapshot, timer: Option<u32>)
    ensures
        step(pre, s, timer).0.prev == Some(s),
        step(pre, s, timer).0.highest_progress >= s.progress_level,
        pre.prev is Some && !step(pre, s, timer).1.reset
            ==> step(pre, s, timer).0.highest_progress >= pre.highest_progress,
{
}

/// The max-progress sentinel is not a checkpoint: before the game ends the
/// target stays below the checkpoint count, and the end of the game targets
/// the last segment's end.
pub proof fn target_bounds(s: Snapshot)
    ensures
        0 <= target_index(s),
        s.max_progress_level >= 1 && !s.game_ended ==> target_index(s) <= s.max_progress_level - 1,
        s.game_ended ==> target_index(s) == (if s.max_progress_level >= 0 {
            s.max_progress_level as int
        } else {
            0
        }),
        !s.game_ended && 0 <= s.progress_level < s.max_progress_level
            ==> target_index(s) == s.progress_level,
{
}

/// The loading flag never changes what a tick does: the game's in-game time is
/// already load-removed.
pub proof fn loading_does_not_matter(pre: SplitterState, s: Snapshot, timer: Option<u32>)
    ensures
        step(pre, s, timer).1 == step(pre, Snapshot { currently_loading: !s.currently_loading, ..s }, timer).1,
{
}

/// The first player input of a run that has not started starts the timer,
/// whatever in-game time, the progress or the timer show (so long as in-game
/// time has not gone back). It also resets exactly when the run is a fresh
/// playthrough: under one second of in-game time and no checkpoint past the
/// first, the starting checkpoint's level -1 included.
pub proof fn first_input_starts(pre: SplitterState, prev: Snapshot, s: Snapshot, timer: Option<u32>)
    requires
        pre.prev == Some(prev),
        !pre.started,
        prev.game_paused,
        !s.game_paused,
        s.total_igt_ms >= prev.total_igt_ms - 50,
    ensures
        step(pre, s, timer).1 == (Actions {
            reset: s.total_igt_ms < 1000 && s.progress_level <= 0,
            start: true,
            skips: 0,
            split: false,
        }),
        step(pre, s, timer).0.started,
{
}

/// The operations that bring a running attempt at `index` level with the
/// game: skip every segment between it and the target and split the last, or
/// nothing when the attempt is already level or ahead.
pub open spec fn level_with_game(index: u32, s: Snapshot) -> Actions {
    if (index as int) < target_index(s) {
        Actions {
            reset: false,
            start: false,
            skips: (target_index(s) - index - 1) as u32,
            split: true,
        }
    } else {
        Actions { reset: false, start: false, skips: 0, split: false }
    }
}

/// In a started run whose in-game time has not gone back, each tick brings
/// the timer's attempt level with the game, and without an attempt it does
/// nothing.
pub proof fn started_run_follows_the_game(pre: SplitterState, prev: Snapshot, s: Snapshot, timer: Option<u32>)
    requires
        pre.prev == Some(prev),
        pre.started,
        s.total_igt_ms >= prev.total_igt_ms - 50,
    ensures
        step(pre, s, timer).0.started,
        step(pre, s, timer).1 == match timer {
            Some(index) => level_with_game(index, s),
            None => Actions { reset: false, start: false, skips: 0, split: false },
        },
{
}

/// A splitter attached mid-run, seeing no first input, adopts the timer's
/// attempt at any index (0 included) that is not ahead of the game, unless the
/// run is a fresh playthrough, and brings it level; an attempt ahead of the
/// game, no attempt, or a fresh run is left to the first input.
pub proof fn adoption(pre: SplitterState, prev: Snapshot, s: Snapshot, timer: Option<u32>)
    requires
        pre.prev == Some(prev),
        !pre.started,
        !(prev.game_paused && !s.game_paused),
        s.total_igt_ms >= prev.total_igt_ms - 50,
    ensures
        (timer matches Some(index) && index <= target_index(s) && !(s.total_igt_ms < 1000
            && s.progress_level <= 0)) ==> step(pre, s, timer).0.started && step(pre, s, timer).1
            == level_with_game(timer->0, s),
        !(timer matches Some(index) && index <= target_index(s) && !(s.total_igt_ms < 1000
            && s.progress_level <= 0)) ==> !step(pre, s, timer).0.started && step(pre, s, timer).1
            == (Actions { reset: false, start: false, skips: 0, split: false }),
{
}

/// The target split index, case by case: the checkpoint count M (0 when
/// negative) once the game has ended; otherwise the progress level, raised to
/// 0 and capped at M - 1 (0 when there are no checkpoints).
pub proof fn target_by_cases(s: Snapshot)
    ensures
        s.game_ended && s.max_progress_level >= 0 ==> target_index(s) == s.max_progress_level,
        s.game_ended && s.max_progress_level < 0 ==> target_index(s) == 0,
        !s.game_ended && s.progress_level < 0 ==> target_index(s) == 0,
        !s.game_ended && 0 <= s.progress_level < s.max_progress_level ==> target_index(s)
            == s.progress_level,
        !s.game_ended && 1 <= s.max_progress_level <= s.progress_level ==> target_index(s)
            == s.max_progress_level - 1,
        !s.game_ended && s.max_progress_level <= 0 ==> target_index(s) == 0,
{
}

/// The split index a timer holds after running a tick's operations the way
/// LiveSplit does: reset clears the attempt, start begins one at index 0 only
/// when none is running, and every skip and split moves the index by one.
pub open spec fn timer_after(timer: Option<u32>, a: Actions) -> Option<int> {
    let kept: Option<int> = if a.reset {
        None
    } else {
        match timer {
            Some(i) => Some(i as int),
            None => None,
        }
    };
    let begun: Option<int> = if a.start && kept is None { Some(0) } else { kept };
    match begun {
        Some(i) => Some(i + a.skips + if a.split { 1int } else { 0int }),
        None => None,
    }
}

/// Each checkpoint is split once: a tick of a started run (one that was
/// started before or is adopted now) that neither resets nor starts leaves a
/// running timer on the later of its own index and the target, and a next
/// tick whose target is no further along does not split again.
pub proof fn split_once_per_checkpoint(
    pre: SplitterState,
    s: Snapshot,
    index: u32,
    next: Snapshot,
)
    requires
        pre.prev is Some,
        step(pre, s, Some(index)).0.started,
        !step(pre, s, Some(index)).1.reset,
        !step(pre, s, Some(index)).1.start,
        target_index(next) <= target_index(s),
    ensures
        timer_after(Some(index), step(pre, s, Some(index)).1) == Some(
            if index >= target_index(s) { index as int } else { target_index(s) },
        ),
        ({
            let later: u32 = if index >= target_index(s) { index } else { target_index(s) as u32 };
            !step(step(pre, s, Some(index)).0, next, Some(later)).1.split
        }),
{
}

/// The snapshot a reading stands for: every field copied from the reading, the
/// progress level from the best checkpoint index, and not loading.
pub open spec fn snapshot_of_reading(r: RawState) -> Snapshot {
    Snapshot {
        progress_level: r.best_checkpoint_index,
        max_progress_level: r.max_progress_level,
        game_paused: r.game_paused,
        game_ended: r.game_ended,
        total_igt_ms: r.total_igt_ms,
        currently_loading: false,
    }
}

/// The timer's split index as handed to the splitter: as is when it fits in 32
/// bits, otherwise no attempt.
pub open spec fn index_for_splitter(timer_index: Option<u64>) -> Option<u32> {
    match timer_index {
        Some(i) => if i <= 0xffff_ffff { Some(i as u32) } else { None },
        None => None,
    }
}

/// A reading is followed exactly when the provider is initialised, has its
/// checkpoint data and a positive checkpoint count, whatever the game's pause
/// and end flags, progress and in-game time say. A followed reading hands the
/// splitter its fields unchanged, and a notice marks the change to followed.
pub proof fn ready_readings_drive_the_splitter(pre: SessionState, r: RawState, timer_index: Option<u64>)
    requires
        r.init && r.has_checkpoint_data && r.max_progress_level > 0,
    ensures
        session_step(pre, Some(r), timer_index) == ({
            let (splitter, actions) = step(pre.splitter, snapshot_of_reading(r), index_for_splitter(timer_index));
            (
                SessionState { splitter, bound: true },
                Tick { notice: if pre.bound { None } else { Some(Notice::Bound) }, actions: Some(actions) },
            )
        }),
{
}

/// A reading that is not initialised, has no checkpoint data or no positive
/// checkpoint count is not followed: the splitter is left as it was, no timer
/// operation comes, and a notice marks the change to not followed.
pub proof fn unready_readings_are_ignored(pre: SessionState, r: RawState, timer_index: Option<u64>)
    requires
        !(r.init && r.has_checkpoint_data && r.max_progress_level > 0),
    ensures
        session_step(pre, Some(r), timer_index) == (
            SessionState { splitter: pre.splitter, bound: false },
            Tick { notice: if pre.bound { Some(Notice::NotReady) } else { None }, actions: None },
        ),
{
}

/// A tick without a reading leaves the splitter as it was, runs no timer
/// operation, and reports the provider lost when it was followed.
pub proof fn no_reading_loses_the_provider(pre: SessionState, timer_index: Option<u64>)
    ensures
        session_step(pre, None, timer_index) == (
            SessionState { splitter: pre.splitter, bound: false },
            Tick { notice: if pre.bound { Some(Notice::Lost) } else { None }, actions: None },
        ),
{
}

/// A session reports a notice exactly when it starts or stops following the
/// provider.
pub proof fn notices_mark_changes(pre: SessionState, reading: Option<RawState>, timer_index: Option<u64>)
    ensures
        session_step(pre, reading, timer_index).1.notice is Some
            <==> session_step(pre, reading, timer_index).0.bound != pre.bound,
        session_step(pre, reading, timer_index).1.notice == Some(Notice::Lost) ==> reading is None,
{
}

/// The splitter's state after a run of ticks, the i-th handing in `snaps[i]`
/// and `timers[i]`.
pub open spec fn run(pre: SplitterState, snaps: Seq<Snapshot>, timers: Seq<Option<u32>>) -> SplitterState
    decreases snaps.len(),
{
    if snaps.len() == 0 || snaps.len() != timers.len() {
        pre
    } else {
        step(run(pre, snaps.drop_last(), timers.drop_last()), snaps.last(), timers.last()).0
    }
}

/// Where the current run began within a run of ticks: the last tick whose
/// in-game time went backwards past the tolerance, or the first tick.
pub open spec fn run_start(snaps: Seq<Snapshot>) -> int
    decreases snaps.len(),
{
    if snaps.len() <= 1 {
        0
    } else if snaps.last().total_igt_ms < snaps[snaps.len() - 2].total_igt_ms - 50 {
        snaps.len() - 1
    } else {
        run_start(snaps.drop_last())
    }
}

/// The highest progress level among `snaps[from..]`.
pub open spec fn highest_level_from(snaps: Seq<Snapshot>, from: int) -> int
    decreases snaps.len(),
{
    if snaps.len() == 0 || snaps.len() <= from + 1 {
        snaps[from].progress_level as int
    } else {
        let rest = highest_level_from(snaps.drop_last(), from);
        if snaps.last().progress_level > rest { snaps.last().progress_level as int } else { rest }
    }
}

proof fn run_start_in_bounds(snaps: Seq<Snapshot>)
    requires
        snaps.len() >= 1,
    ensures
        0 <= run_start(snaps) < snaps.len(),
    decreases snaps.len(),
{
    if snaps.len() > 1 {
        run_start_in_bounds(snaps.drop_last());
    }
}

/// Over any run of ticks from a new splitter, the high-water mark is the
/// highest progress level since in-game time last went backwards (or since
/// the first tick), and the last snapshot is remembered; with no ticks it is
/// `i32::MIN`.
pub proof fn high_water_mark_over_a_run(snaps: Seq<Snapshot>, timers: Seq<Option<u32>>)
    requires
        snaps.len() == timers.len(),
    ensures
        snaps.len() == 0 ==> run(initial_state(), snaps, timers).highest_progress == i32::MIN,
        snaps.len() >= 1 ==> run(initial_state(), snaps, timers).highest_progress == highest_level_from(
            snaps,
            run_start(snaps),
        ),
        snaps.len() >= 1 ==> run(initial_state(), snaps, timers).prev == Some(snaps.last()),
    decreases snaps.len(),
{
    if snaps.len() >= 1 {
        let prefix = snaps.drop_last();
        let tprefix = timers.drop_last();
        let mid = run(initial_state(), prefix, tprefix);
        assert(run(initial_state(), snaps, timers) == step(mid, snaps.last(), timers.last()).0);
        if snaps.len() == 1 {
            assert(mid == initial_state());
            assert(highest_level_from(snaps, 0) == snaps[0].progress_level);
        } else {
            high_water_mark_over_a_run(prefix, tprefix);
            run_start_in_bounds(prefix);
            assert(prefix.last() == snaps[snaps.len() - 2]);
            if snaps.last().total_igt_ms < snaps[snaps.len() - 2].total_igt_ms - 50 {
                assert(run_start(snaps) == snaps.len() - 1);
                assert(highest_level_from(snaps, snaps.len() - 1) == snaps.last().progress_level);
            } else {
                assert(run_start(snaps) == run_start(prefix));
                assert(highest_level_from(snaps, run_start(prefix)) == ({
                    let rest = highest_level_from(prefix, run_start(prefix));
                    if snaps.last().progress_level > rest { snaps.last().progress_level as int } else { rest }
                }));
            }
        }
    }
}

} // verus!
