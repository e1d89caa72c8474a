//! Looking up the primary monitor when the scene state is set up: the lookup
//! is tried at most three times, 100 ms apart, and the first monitor found is
//! used.

use vstd::prelude::*;

verus! {

/// Lookups of the primary monitor before giving up.
pub const MONITOR_PROBE_ATTEMPTS: u32 = 3;

/// Milliseconds between two lookups.
pub const MONITOR_PROBE_DELAY_MS: u64 = 100;

/// The side of a cell of the scene's grid, in logical pixels.
pub const SCENE_GRID_SIZE: u32 = 600;

/// What follows a lookup of the primary monitor.
#[derive(Debug, Clone, Copy, PartialEq, Eq, Structural)]
pub enum ProbeDecision {
    /// A monitor was found: take its dimensions.
    UseMonitor,
    /// None was found: wait, then look again; `failures` lookups have failed.
    Retry { failures: u32 },
    /// No monitor after the last allowed lookup: leave the dimensions as they are.
    GiveUp,
}

/// The decision after a lookup, when `failures` lookups failed before it.
pub open spec fn probe_step_spec(failures: nat, found: bool) -> ProbeDecision {
    if found {
        ProbeDecision::UseMonitor
    } else if failures + 1 >= MONITOR_PROBE_ATTEMPTS {
        ProbeDecision::GiveUp
    } else {
        ProbeDecision::Retry { failures: (failures + 1) as u32 }
    }
}

/// Decides after a lookup of the primary monitor: `found` says whether it
/// returned one (an error counts as none).
pub fn next_probe_step(failures: u32, found: bool) -> (res: ProbeDecision)
    requires
        failures < MONITOR_PROBE_ATTEMPTS,
    ensures
        res == probe_step_spec(failures as nat, found),
{
    if found {
        ProbeDecision::UseMonitor
    } else if failures + 1 >= MONITOR_PROBE_ATTEMPTS {
        ProbeDecision::GiveUp
    } else {
        ProbeDecision::Retry { failures: failures + 1 }
    }
}

/// The end of a run of lookups whose results are `found`, in order, starting
/// with `failures` failed ones: `Some(i)` when the monitor of the lookup at
/// index `i` is used, `None` when the run gives up.
pub open spec fn probe_run(found: Seq<bool>, failures: nat) -> Option<int>
    decreases MONITOR_PROBE_ATTEMPTS - failures,
{
    if failures >= MONITOR_PROBE_ATTEMPTS || found.len() == 0 {
        None
    } else {
        match probe_step_spec(failures, found[0]) {
            ProbeDecision::UseMonitor => Some(0),
            ProbeDecision::GiveUp => None,
            ProbeDecision::Retry { failures: f } => match probe_run(found.drop_first(), f as nat) {
                Some(i) => Some(i + 1),
                None => None,
            },
        }
    }
}

/// A run of lookups from the start uses the first monitor found among the
/// first three lookups, and gives up when none of them found one: no more
/// than three lookups are made.
pub proof fn lemma_probe_run_bounded(found: Seq<bool>)
    requires
        found.len() >= MONITOR_PROBE_ATTEMPTS,
    ensures
        found[0] ==> probe_run(found, 0) == Some(0int),
        !found[0] && found[1] ==> probe_run(found, 0) == Some(1int),
        !found[0] && !found[1] && found[2] ==> probe_run(found, 0) == Some(2int),
        !found[0] && !found[1] && !found[2] ==> probe_run(found, 0) is None,
{
    let f1 = found.drop_first();
    let f2 = f1.drop_first();
    assert(f1[0] == found[1]);
    assert(f2[0] == found[2]);
    reveal_with_fuel(probe_run, 4);
}

} // verus!
