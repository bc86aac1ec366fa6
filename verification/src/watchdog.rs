//! The watchdog: an independently scheduled monitor that reads the loop's
//! liveness timestamp and forces a best-effort stop of every mechanism when
//! the loop has stalled past a fixed threshold.

use vstd::prelude::*;

use crate::constants::OVERRUN_THRESHOLD_MS;
use crate::Ferris;

verus! {

/// The loop's liveness signal: the wall-clock time, in milliseconds, of the
/// last completed tick. The control loop is its sole writer and writes a
/// value at least as late as the one before; the watchdog only reads it.
/// Zero means the loop has not completed a tick yet.
pub struct LoopHealth {
    pub last_tick_ms: u64,
}

impl LoopHealth {
    /// A liveness signal for a loop that has not run yet.
    pub fn new() -> (r: LoopHealth)
        ensures
            r.last_tick_ms == 0,
    {
        LoopHealth { last_tick_ms: 0 }
    }

    /// Record the completion of a tick. The clock is monotonic, so the new
    /// stamp never lies before the recorded one.
    pub fn record(&mut self, now_ms: u64)
        requires
            old(self).last_tick_ms <= now_ms,
        ensures
            final(self).last_tick_ms == now_ms,
            final(self).last_tick_ms >= old(self).last_tick_ms,
    {
        self.last_tick_ms = now_ms;
    }
}

/// The overrun condition: the loop has run at least once and its last tick
/// is strictly older than the fixed threshold. An age exactly at the
/// threshold does not yet trigger.
pub open spec fn spec_should_stop(last_tick_ms: u64, now_ms: u64) -> bool {
    last_tick_ms != 0 && now_ms - last_tick_ms > OVERRUN_THRESHOLD_MS
}

/// Decide whether this wake must force a stop. The watchdog reads the
/// stamp after the loop wrote it, on the same monotonic clock, so `now_ms`
/// never lies before the stamp.
pub fn should_stop(last_tick_ms: u64, now_ms: u64) -> (r: bool)
    requires
        last_tick_ms <= now_ms,
    ensures
        r == spec_should_stop(last_tick_ms, now_ms),
{
    last_tick_ms != 0 && now_ms - last_tick_ms > OVERRUN_THRESHOLD_MS
}

/// One watchdog wake: stop every mechanism exactly when the overrun
/// condition holds, and touch nothing otherwise. The stop is idempotent,
/// so a wake that finds the loop still stalled simply stops it again.
pub fn watchdog_wake(robot: &mut Ferris, health: &LoopHealth, now_ms: u64) -> (stopped: bool)
    requires
        health.last_tick_ms <= now_ms,
    ensures
        stopped == spec_should_stop(health.last_tick_ms, now_ms),
        stopped ==> *final(robot) == old(robot).spec_stopped(),
        !stopped ==> *final(robot) == *old(robot),
{
    if should_stop(health.last_tick_ms, now_ms) {
        robot.stop();
        true
    } else {
        false
    }
}

/// While the loop stays live — every tick stamped within the threshold —
/// no wake ever triggers a stop, whatever the poll cadence.
pub proof fn lemma_live_loop_never_stopped(last_tick_ms: u64, now_ms: u64)
    requires
        last_tick_ms <= now_ms,
        now_ms - last_tick_ms <= OVERRUN_THRESHOLD_MS,
    ensures
        !spec_should_stop(last_tick_ms, now_ms),
{
}

} // verus!
