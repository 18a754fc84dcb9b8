//! The pulse controller: the caller-facing half of the protocol.
//!
//! The controller owns the authoritative run flag and serializes the caller's
//! intent into it. On a rising edge — and only then — it directs the host to
//! spawn one fresh worker with the caller's interval. The controller is
//! hardened against a double start: a second `set_running(true, ..)` without
//! an intervening stop spawns nothing, so at most one worker is ever directed
//! to run at a time.
//!
//! The host applies a [`SpawnDirective`] by storing the flag value into the
//! shared atomic boolean that its workers poll and, when an interval is
//! carried, by spawning one background loop around [`crate::worker::step`].

use vstd::prelude::*;

verus! {

/// What the host must do after a `set_running` call: store `flag` into the
/// shared run flag and, if `spawn_interval_secs` carries an interval, spawn
/// exactly one fresh worker with that interval.
#[derive(Clone, Copy, Debug, PartialEq, Eq, Structural)]
pub struct SpawnDirective {
    /// The value the shared run flag must take.
    pub flag: bool,
    /// The interval of the one fresh worker to spawn, if any.
    pub spawn_interval_secs: Option<u64>,
}

/// The run flag after a call that requests `running`: the store is
/// unconditional, whatever the previous value was.
pub open spec fn spec_flag_after(prev: bool, running: bool) -> bool {
    running
}

/// The spawn decision of the hardened controller: a fresh worker is directed
/// only on a rising edge of the run flag, and it carries exactly the interval
/// given in that call.
pub open spec fn spec_spawn(prev: bool, running: bool, interval_secs: u64) -> Option<u64> {
    if running && !prev {
        Some(interval_secs)
    } else {
        None
    }
}

/// Process-lifetime state: the controller's view of the shared run flag.
pub struct PulseController {
    running: bool,
}

impl PulseController {
    /// The controller's view of the run flag: whether a worker should be
    /// active.
    pub closed spec fn is_on(&self) -> bool {
        self.running
    }

    /// A fresh controller; no worker is directed to run.
    pub fn new() -> (c: Self)
        ensures
            !c.is_on(),
    {
        PulseController { running: false }
    }

    /// Serialize the caller's intent. The run flag always becomes `running`;
    /// a worker spawn is directed only on a rising edge, carrying exactly
    /// `interval_secs`. The call cannot fail and decides nothing else, so the
    /// caller never waits: stop is fire-and-forget, and a previously spawned
    /// worker may keep executing for up to one wait unit plus one in-flight
    /// action after the flag clears.
    pub fn set_running(&mut self, running: bool, interval_secs: u64) -> (d: SpawnDirective)
        ensures
            final(self).is_on() == spec_flag_after(old(self).is_on(), running),
            d.flag == spec_flag_after(old(self).is_on(), running),
            d.spawn_interval_secs == spec_spawn(old(self).is_on(), running, interval_secs),
    {
        let was = self.running;
        self.running = running;
        let spawn = if running && !was {
            Some(interval_secs)
        } else {
            None
        };
        SpawnDirective { flag: running, spawn_interval_secs: spawn }
    }
}

/// Toggle idempotence: asking a stopped controller to stop is a no-op — the
/// flag stays cleared and no worker is spawned.
pub proof fn stop_while_stopped_is_noop(interval_secs: u64)
    ensures
        spec_flag_after(false, false) == false,
        spec_spawn(false, false, interval_secs) is None,
{
}

/// Double-start hardening: two consecutive start requests without an
/// intervening stop spawn exactly one worker — the first call spawns it and
/// the second call, seeing the flag already set, spawns nothing.
pub proof fn double_start_spawns_once(prev: bool, n: u64, m: u64)
    requires
        !prev,
    ensures
        spec_spawn(prev, true, n) == Some(n),
        spec_spawn(spec_flag_after(prev, true), true, m) is None,
{
}

/// A restart produces a fresh worker governed by the new interval alone:
/// after start(n), stop, start(m), the stop spawns nothing and the second
/// start directs exactly one fresh worker carrying m — never n. (A worker's
/// interval is fixed at spawn time; no call alters a live worker's copy.)
pub proof fn restart_carries_fresh_interval(prev: bool, n: u64, m: u64)
    ensures
        spec_spawn(spec_flag_after(spec_flag_after(prev, true), false), true, m) == Some(m),
        spec_spawn(spec_flag_after(prev, true), false, n) is None,
{
}

} // verus!
