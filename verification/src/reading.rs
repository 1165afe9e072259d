//! What one tick reads out of the game's progress provider, and how a reading
//! becomes a snapshot for the splitter.

use vstd::prelude::*;
use crate::splitter::Snapshot;

verus! {

/// One tick's reading of the game's progress provider, before it is judged
/// ready. In-game time is held as whole milliseconds.
#[derive(Clone, Copy, Debug, PartialEq, Eq, Structural)]
pub struct RawState {
    pub init: bool,
    pub has_checkpoint_data: bool,
    pub best_checkpoint_index: i32,
    pub game_paused: bool,
    pub game_ended: bool,
    pub max_progress_level: i32,
    pub total_igt_ms: i64,
}

/// Until the provider has found its checkpoint manager and built its
/// filtered-level cache, its fields are not meaningful.
pub open spec fn ready(r: RawState) -> bool {
    r.init && r.has_checkpoint_data && r.max_progress_level > 0
}

/// The snapshot a ready reading stands for: the current progress level is the
/// best checkpoint index, and loading never gates splits, so it is reported
/// as not loading.
pub open spec fn snapshot_from(r: RawState) -> Snapshot {
    Snapshot {
        progress_level: r.best_checkpoint_index,
        max_progress_level: r.max_progress_level,
        game_paused: r.game_paused,
        game_ended: r.game_ended,
        total_igt_ms: r.total_igt_ms,
        currently_loading: false,
    }
}

pub fn is_ready(r: &RawState) -> (ready_now: bool)
    ensures
        ready_now == ready(*r),
{
    r.init && r.has_checkpoint_data && r.max_progress_level > 0
}

pub fn snapshot_of(r: &RawState) -> (s: Snapshot)
    ensures
        s == snapshot_from(*r),
{
    Snapshot {
        progress_level: r.best_checkpoint_index,
        max_progress_level: r.max_progress_level,
        game_paused: r.game_paused,
        game_ended: r.game_ended,
        total_igt_ms: r.total_igt_ms,
        currently_loading: false,
    }
}

/// How many entries of the game's in-game-time dictionary to sum, given its
/// `count` (positive) and the `length` of its entry array: the array's length
/// bounds the walk against a wrong count, and a walk with no entries in bound
/// reads none.
pub fn live_entries(count: i32, length: i32) -> (n: u64)
    requires
        count > 0,
    ensures
        n == (if count <= length { count as int } else if length > 0 { length as int } else { 0 }),
{
    if count <= length {
        count as u64
    } else if length > 0 {
        length as u64
    } else {
        0
    }
}

} // verus!
