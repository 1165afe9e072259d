use gtw_logic::{Actions, Snapshot, Splitter};

/// In-game time given in seconds, as the splitter holds it: whole milliseconds.
fn secs(seconds: f32) -> i64 {
    (seconds as f64 * 1000.0).round() as i64
}

/// Pre-run state: sitting at the starting checkpoint, first input not yet given.
fn menu() -> Snapshot {
    Snapshot {
        progress_level: -1,
        max_progress_level: 11,
        game_paused: true,
        game_ended: false,
        total_igt_ms: secs(0.0),
        currently_loading: false,
    }
}

const NOTHING: Actions = Actions { reset: false, start: false, skips: 0, split: false };

/// A splitter wired to a timer that reacts the way LiveSplit does.
struct Sim {
    splitter: Splitter,
    index: Option<u32>,
}

impl Sim {
    fn new() -> Self {
        Self { splitter: Splitter::new(), index: None }
    }

    fn tick(&mut self, s: Snapshot) -> Actions {
        let actions = self.splitter.update(s, self.index);
        if actions.reset {
            self.index = None;
        }
        // The runtime ignores start unless the timer is idle.
        if actions.start && self.index.is_none() {
            self.index = Some(0);
        }
        if let Some(index) = self.index {
            self.index = Some(index + actions.skips + actions.split as u32);
        }
        actions
    }

    /// The game process closing: splitter state dies, timer state does not.
    fn restart_splitter(&mut self) {
        self.splitter = Splitter::new();
    }

    /// Runs from the menu to `progress_level`, checkpoint by checkpoint.
    fn run_to(&mut self, progress_level: i32) -> Snapshot {
        self.tick(menu());
        let mut cur = menu();
        cur.progress_level = 0;
        cur.game_paused = false;
        self.tick(cur);
        for level in 1..=progress_level {
            cur.progress_level = level;
            cur.total_igt_ms += secs(30.0);
            self.tick(cur);
        }
        cur
    }
}

#[test]
fn first_tick_never_acts() {
    let mut sim = Sim::new();
    assert_eq!(sim.tick(menu()), NOTHING);
}

#[test]
fn starts_when_game_unpauses() {
    let mut sim = Sim::new();
    sim.tick(menu());
    let mut go = menu();
    go.game_paused = false;
    let a = sim.tick(go);
    assert!(a.start, "first player input must start the timer");
    assert!(!a.split);
    assert!(sim.splitter.started());
}

#[test]
fn does_not_start_twice() {
    let mut sim = Sim::new();
    sim.tick(menu());
    let mut go = menu();
    go.game_paused = false;
    sim.tick(go);
    assert_eq!(sim.tick(go), NOTHING);
}

/// The active checkpoint snaps to index 0 before first input.
#[test]
fn progress_before_start_does_not_split() {
    let mut sim = Sim::new();
    sim.tick(menu());
    let mut cp0 = menu();
    cp0.progress_level = 0;
    let a = sim.tick(cp0);
    assert!(!a.split, "reaching a checkpoint while paused must not split");
    assert!(!a.start);
}

#[test]
fn splits_on_each_progress_increase_after_start() {
    let mut sim = Sim::new();
    sim.tick(menu());
    let mut cur = menu();
    cur.progress_level = 0;
    sim.tick(cur);
    cur.game_paused = false;
    sim.tick(cur);

    for level in 1..=10 {
        cur.progress_level = level;
        cur.total_igt_ms += secs(30.0);
        let a = sim.tick(cur);
        assert!(a.split, "reaching checkpoint {level} must split");
        assert_eq!(a.skips, 0, "a checkpoint-by-checkpoint run skips nothing");
        assert_eq!(sim.index, Some(level as u32));
    }
}

#[test]
fn does_not_split_twice_for_same_checkpoint() {
    let mut sim = Sim::new();
    let mut cur = sim.run_to(3);
    assert_eq!(sim.index, Some(3));
    cur.total_igt_ms += secs(1.0);
    assert!(!sim.tick(cur).split, "unchanged progress must not split");
}

/// Backtracking must not split, and must not lower the split ceiling.
#[test]
fn backtracking_does_not_split_or_reset() {
    let mut sim = Sim::new();
    let mut cur = sim.run_to(5);
    assert_eq!(sim.index, Some(5));

    cur.progress_level = 4;
    cur.total_igt_ms += secs(1.0);
    let a = sim.tick(cur);
    assert!(!a.reset, "IGT still rising means the run is alive");
    assert!(!a.split);

    cur.progress_level = 5;
    cur.total_igt_ms += secs(1.0);
    let a = sim.tick(cur);
    assert!(!a.split, "re-reaching an already-split checkpoint must not split");
    assert_eq!(sim.index, Some(5));
}

/// An out-of-bounds route can reach a checkpoint without triggering the one
/// before it, so two segments end at once: one skipped, one split.
#[test]
fn skipped_checkpoint_advances_two_segments() {
    let mut sim = Sim::new();
    let mut cur = sim.run_to(4);

    cur.progress_level = 6;
    cur.total_igt_ms += secs(30.0);
    let a = sim.tick(cur);
    assert_eq!(a.skips, 1, "the checkpoint that was never triggered is skipped");
    assert!(a.split, "the checkpoint that was reached still splits");
    assert_eq!(sim.index, Some(6), "the timer stays level with the game");

    cur.progress_level = 7;
    cur.total_igt_ms += secs(30.0);
    let a = sim.tick(cur);
    assert_eq!((a.skips, a.split), (0, true), "and the run continues in step");
    assert_eq!(sim.index, Some(7));
}

/// Same mechanism for a readiness gap, which can hide several checkpoints.
#[test]
fn catches_up_after_missing_several_checkpoints() {
    let mut sim = Sim::new();
    let mut cur = sim.run_to(2);

    cur.progress_level = 8;
    cur.total_igt_ms += secs(300.0);
    let a = sim.tick(cur);
    assert_eq!((a.skips, a.split), (5, true));
    assert_eq!(sim.index, Some(8));
}

/// Events_OnGameEnd parks the index on the max-progress sentinel, which is
/// not a checkpoint and must not split.
#[test]
fn max_progress_sentinel_does_not_split() {
    let mut sim = Sim::new();
    let mut cur = sim.run_to(10);
    assert_eq!(sim.index, Some(10));

    cur.progress_level = 11;
    cur.total_igt_ms += secs(1.0);
    let a = sim.tick(cur);
    assert!(!a.split, "the max-progress sentinel is not a checkpoint");
    assert_eq!(sim.index, Some(10));
}

#[test]
fn game_ended_produces_the_final_split() {
    let mut sim = Sim::new();
    let mut cur = sim.run_to(10);

    cur.game_ended = true;
    cur.progress_level = 11;
    cur.total_igt_ms += secs(5.0);
    let a = sim.tick(cur);
    assert!(a.split, "EndOfGame must produce the final split");
    assert_eq!(a.skips, 0);
    assert!(!a.reset);
    assert_eq!(sim.index, Some(11), "eleven segments, all of them ended");
}

#[test]
fn game_ended_splits_only_once() {
    let mut sim = Sim::new();
    let mut cur = sim.run_to(10);
    cur.game_ended = true;
    cur.total_igt_ms += secs(5.0);
    assert!(sim.tick(cur).split);
    cur.total_igt_ms += secs(1.0);
    assert!(!sim.tick(cur).split);
}

#[test]
fn igt_going_backwards_resets() {
    let mut sim = Sim::new();
    sim.run_to(4);

    let mut fresh = menu();
    fresh.game_paused = false;
    let a = sim.tick(fresh);
    assert!(a.reset, "a fresh run must reset the timer");
    assert!(!sim.splitter.started());
    assert_eq!(sim.splitter.highest_progress(), -1);
    assert_eq!(sim.index, None);
}

#[test]
fn can_start_a_second_run_after_reset() {
    let mut sim = Sim::new();
    sim.run_to(6);

    assert!(sim.tick(menu()).reset);

    let mut go = menu();
    go.game_paused = false;
    assert!(sim.tick(go).start, "the next run must be able to start");
}

/// Closing the game mid-run leaves no IGT history to reveal the next run,
/// so its first input must clear the dead run's attempt.
#[test]
fn fresh_run_after_process_restart_resets_the_stale_attempt() {
    let mut sim = Sim::new();
    sim.run_to(4);
    assert_eq!(sim.index, Some(4));

    sim.restart_splitter();

    sim.tick(menu());
    let mut go = menu();
    go.progress_level = 0;
    go.game_paused = false;
    let a = sim.tick(go);
    assert!(a.reset, "the fresh run must clear the dead run's attempt");
    assert!(a.start);
    assert_eq!(sim.index, Some(0), "and start from the first segment");

    go.progress_level = 1;
    go.total_igt_ms = secs(30.0);
    let a = sim.tick(go);
    assert_eq!((a.skips, a.split), (0, true));
    assert_eq!(sim.index, Some(1));
}

/// Same restart, but resuming a save: its IGT carries over, so the attempt
/// is still the right one.
#[test]
fn resumed_run_after_process_restart_keeps_the_attempt() {
    let mut sim = Sim::new();
    sim.run_to(4);

    sim.restart_splitter();

    let mut paused = menu();
    paused.progress_level = 4;
    paused.total_igt_ms = secs(120.0);
    sim.tick(paused);

    let mut go = paused;
    go.game_paused = false;
    let a = sim.tick(go);
    assert!(!a.reset, "a resumed run is not a new attempt");
    assert!(a.start, "start is a no-op on a running timer, and needed if not");
    assert_eq!(sim.index, Some(4), "the timer stays where the run left it");

    go.progress_level = 5;
    go.total_igt_ms = secs(150.0);
    let a = sim.tick(go);
    assert_eq!((a.skips, a.split), (0, true));
    assert_eq!(sim.index, Some(5));
}

/// Attaching to a run in progress with no start edge to see: adopt the
/// attempt and catch the index up.
#[test]
fn adopts_a_run_already_underway() {
    let mut sim = Sim::new();
    sim.run_to(3);

    sim.restart_splitter();

    let mut cur = menu();
    cur.game_paused = false;
    cur.progress_level = 5;
    cur.total_igt_ms = secs(200.0);
    sim.tick(cur);

    cur.total_igt_ms = secs(201.0);
    let a = sim.tick(cur);
    assert!(!a.reset);
    assert!(!a.start, "the attempt is already running");
    assert_eq!((a.skips, a.split), (1, true), "catch the index up to checkpoint 5");
    assert_eq!(sim.index, Some(5));
    assert!(sim.splitter.started());
}

/// Adoption must not take an attempt that sits ahead of a fresh run; that
/// waits for the start edge, which resets.
#[test]
fn does_not_adopt_a_stale_attempt_for_a_fresh_run() {
    let mut sim = Sim::new();
    sim.run_to(7);

    sim.restart_splitter();

    let mut cur = menu();
    cur.progress_level = 0;
    sim.tick(cur);
    assert_eq!(sim.tick(cur), NOTHING, "nothing to adopt here");
    assert_eq!(sim.index, Some(7), "the stale attempt is left untouched");

    cur.game_paused = false;
    assert!(sim.tick(cur).reset, "the start edge clears it");
}

/// The game's IGT is already load-removed, so loading must not gate splits.
#[test]
fn loading_flag_does_not_suppress_splits() {
    let mut sim = Sim::new();
    let mut cur = sim.run_to(1);
    cur.currently_loading = true;
    cur.progress_level = 2;
    cur.total_igt_ms += secs(30.0);
    assert!(sim.tick(cur).split);
}
