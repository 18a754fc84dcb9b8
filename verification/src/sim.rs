//! A simulated-clock run of the worker, proving the timing properties of the
//! whole protocol rather than of single transitions.
//!
//! [`run_worker`] drives exactly the state machine of [`crate::worker`], but
//! against a simulated clock: a pulse action takes `action_cost` time units,
//! a wait unit takes one, and the shared run flag is modeled as "set until
//! `stop_time`" — the value a worker reads at time `t` is `t < stop_time`,
//! which is how a stop request issued at `stop_time` looks to it. Its
//! contract pins the run down: pulses land exactly on the cadence grid of the
//! worker's own interval, none happens at or after the stop time, and the
//! worker terminates no later than `stop_time + action_cost` — within one
//! wait unit plus one in-flight action of the stop request.
//!
//! A run with interval and action cost both zero is a tight loop in which
//! simulated time never advances, so [`run_worker`] is fuel-bounded; whenever
//! time can advance at all, the contract bounds the fuel a run can consume,
//! and [`run_worker_until_stopped`] turns that bound into a run that always
//! terminates.

use vstd::prelude::*;

use crate::worker::{pending_op, step, WorkerEvent, WorkerOp, WorkerState};

verus! {

/// What a simulated run produced.
pub struct RunReport {
    /// The start time of every pulse action, in order.
    pub pulses: Vec<u64>,
    /// The simulated time at which the run ended.
    pub end_time: u64,
    /// Whether the worker reached `Terminated` (as opposed to running out of
    /// fuel).
    pub terminated: bool,
}

/// The cadence of a worker: one pulse action (`action_cost` units) followed
/// by the interval wait, so consecutive pulses start `interval_secs +
/// action_cost` apart.
pub open spec fn period(interval_secs: u64, action_cost: u64) -> int {
    interval_secs + action_cost
}

/// Drive one worker from `Init` against a simulated clock until it
/// terminates or `max_steps` transitions have been taken.
///
/// The contract pins the whole run down:
/// - every pulse starts exactly on the cadence grid, `i * period` for the
///   i-th pulse;
/// - no pulse starts at or after `stop_time` — nothing happens after a stop
///   beyond the one transition that observes it;
/// - the run ends by `stop_time + action_cost`: one wait unit is interrupted
///   at the next unit boundary and at most one action is in flight;
/// - a failed acquire ends the run at time zero with no pulses;
/// - a terminated run performed exactly the pulses that fit before the stop:
///   none only when the stop predates the first, and otherwise as many as
///   put the stop time inside the last period;
/// - whenever simulated time can advance at all, a run that exhausts its
///   fuel has taken at most `2 * end_time + 2` transitions, so ample fuel
///   guarantees termination.
#[verifier::loop_isolation(false)]
pub fn run_worker(
    interval_secs: u64,
    action_cost: u64,
    acquire_ok: bool,
    stop_time: u64,
    max_steps: u64,
) -> (r: RunReport)
    requires
        stop_time + action_cost <= u64::MAX,
    ensures
        forall|i: int|
            0 <= i < r.pulses@.len() ==> r.pulses@[i] as int == i * period(
                interval_secs,
                action_cost,
            ),
        forall|i: int| 0 <= i < r.pulses@.len() ==> r.pulses@[i] < stop_time,
        r.end_time <= stop_time + action_cost,
        !acquire_ok && max_steps >= 1 ==> r.terminated && r.pulses@.len() == 0 && r.end_time
            == 0,
        r.terminated && acquire_ok && r.pulses@.len() == 0 ==> stop_time == 0,
        r.terminated && r.pulses@.len() > 0 ==> (r.pulses@.len() - 1) * period(
            interval_secs,
            action_cost,
        ) < stop_time <= r.pulses@.len() * period(interval_secs, action_cost),
        !r.terminated && (interval_secs > 0 || action_cost > 0) ==> max_steps <= 2 * r.end_time
            + 2,
{
    let ghost p: int = period(interval_secs, action_cost);
    let mut state = WorkerState::Init;
    let mut now: u64 = 0;
    let mut pulses: Vec<u64> = Vec::new();
    let mut steps: u64 = 0;
    let mut done: bool = false;
    while steps < max_steps && !done
        invariant
            done == (state == WorkerState::Terminated),
            steps <= max_steps,
            state == WorkerState::Init <==> steps == 0,
            state == WorkerState::Init ==> now == 0 && pulses@.len() == 0,
            state == WorkerState::Acting ==> now as int == pulses@.len() * p && now < stop_time,
            state matches WorkerState::Waiting { remaining } ==> 1 <= remaining <= interval_secs
                && pulses@.len() >= 1 && now as int == pulses@.len() * p - remaining && now
                < stop_time,
            forall|i: int|
                0 <= i < pulses@.len() ==> pulses@[i] as int == i * p && pulses@[i] < stop_time,
            now <= stop_time + action_cost,
            !acquire_ok ==> pulses@.len() == 0 && now == 0,
            !acquire_ok && steps > 0 ==> state == WorkerState::Terminated,
            state == WorkerState::Terminated && acquire_ok && pulses@.len() == 0 ==> stop_time
                == 0,
            state == WorkerState::Terminated && pulses@.len() > 0 ==> (pulses@.len() - 1) * p
                < stop_time <= pulses@.len() * p,
            interval_secs > 0 || action_cost > 0 ==> steps + (if state == WorkerState::Acting
                && action_cost == 0 {
                1int
            } else {
                0int
            }) <= 2 * now + 2,
        decreases max_steps - steps,
    {
        let ghost k: int = pulses@.len() as int;
        match pending_op(&state) {
            WorkerOp::Acquire => {
                let flag: bool = now < stop_time;
                state = step(state, interval_secs, flag, WorkerEvent::Acquired { ok: acquire_ok });
                proof {
                    assert(0 * p == 0) by (nonlinear_arith);
                }
            },
            WorkerOp::Pulse => {
                let ghost t0: int = now as int;
                pulses.push(now);
                now = now + action_cost;
                let flag: bool = now < stop_time;
                state = step(state, interval_secs, flag, WorkerEvent::Pulsed { ok: true });
                proof {
                    assert((k + 1) * p == k * p + p) by (nonlinear_arith);
                    assert(pulses@.len() == k + 1);
                    assert(pulses@.len() * p == t0 + action_cost + interval_secs);
                    assert((pulses@.len() - 1) * p == t0);
                }
            },
            WorkerOp::SleepUnit => {
                now = now + 1;
                let flag: bool = now < stop_time;
                state = step(state, interval_secs, flag, WorkerEvent::Ticked);
                proof {
                    if pulses@.len() > 0 {
                        assert(pulses@[pulses@.len() - 1] as int == (pulses@.len() - 1) * p);
                    }
                }
            },
            WorkerOp::Halt => {},
        }
        done = crate::worker::is_terminated(&state);
        steps = steps + 1;
    }
    RunReport { pulses, end_time: now, terminated: done }
}

/// Drive one worker with enough fuel that, whenever simulated time can
/// advance at all (a positive interval or a positive action cost), the run
/// always reaches `Terminated` — the bounded-latency stop is deterministic,
/// not best-effort. The rest of the contract is that of [`run_worker`].
pub fn run_worker_until_stopped(
    interval_secs: u64,
    action_cost: u64,
    acquire_ok: bool,
    stop_time: u64,
) -> (r: RunReport)
    requires
        interval_secs > 0 || action_cost > 0,
        2 * (stop_time + action_cost) + 3 <= u64::MAX,
    ensures
        r.terminated,
        forall|i: int|
            0 <= i < r.pulses@.len() ==> r.pulses@[i] as int == i * period(
                interval_secs,
                action_cost,
            ),
        forall|i: int| 0 <= i < r.pulses@.len() ==> r.pulses@[i] < stop_time,
        r.end_time <= stop_time + action_cost,
        !acquire_ok ==> r.pulses@.len() == 0 && r.end_time == 0,
        acquire_ok && r.pulses@.len() == 0 ==> stop_time == 0,
        r.pulses@.len() > 0 ==> (r.pulses@.len() - 1) * period(interval_secs, action_cost)
            < stop_time <= r.pulses@.len() * period(interval_secs, action_cost),
{
    let fuel: u64 = 2 * (stop_time + action_cost) + 3;
    run_worker(interval_secs, action_cost, acquire_ok, stop_time, fuel)
}

} // verus!

