//! The pulse worker as a pure state machine.
//!
//! A worker lives in a background execution context and repeats: perform the
//! pulse action once, then wait `interval_secs`, decomposed into one-unit
//! sleeps with a check of the shared run flag after every unit. The
//! decomposition is the point of the design: a stop request is observed
//! within one wait unit instead of only at the end of a long interval.
//!
//! The machine is pure so it can be verified: the host loop performs the
//! outside work that [`pending_op`] asks for (acquire the action capability,
//! perform one pulse, sleep one unit), reads the shared flag, and hands both
//! back to [`step`], which decides the next phase.

use vstd::prelude::*;

verus! {

/// The phase a pulse worker is in.
#[derive(Clone, Copy, Debug, PartialEq, Eq, Structural)]
pub enum WorkerState {
    /// The worker has not yet acquired the pulse-action capability.
    Init,
    /// The worker is about to perform one pulse action.
    Acting,
    /// The worker still has `remaining` one-unit sleeps of the current
    /// interval ahead of it.
    Waiting { remaining: u64 },
    /// The execution context has ended; no further side effects.
    Terminated,
}

/// What the host loop must do next on behalf of the worker.
#[derive(Clone, Copy, Debug, PartialEq, Eq, Structural)]
pub enum WorkerOp {
    /// Try to acquire the pulse-action capability.
    Acquire,
    /// Perform the pulse action once.
    Pulse,
    /// Sleep for one time unit.
    SleepUnit,
    /// Stop driving the loop; the worker is done.
    Halt,
}

/// The outcome of the operation the host loop just performed.
#[derive(Clone, Copy, Debug, PartialEq, Eq, Structural)]
pub enum WorkerEvent {
    /// The capability was acquired (`ok`) or was unavailable (`!ok`).
    Acquired { ok: bool },
    /// One pulse action completed (`ok`) or failed transiently (`!ok`).
    Pulsed { ok: bool },
    /// One time unit of the interval wait elapsed.
    Ticked,
}

/// A worker state that can arise while running with interval `interval_secs`:
/// a wait never has more units left than the interval, and never zero.
pub open spec fn wf_state(s: WorkerState, interval_secs: u64) -> bool {
    s matches WorkerState::Waiting { remaining } ==> 1 <= remaining <= interval_secs
}

/// The operation each phase demands of the host loop.
pub open spec fn op_of(s: WorkerState) -> WorkerOp {
    match s {
        WorkerState::Init => WorkerOp::Acquire,
        WorkerState::Acting => WorkerOp::Pulse,
        WorkerState::Waiting { .. } => WorkerOp::SleepUnit,
        WorkerState::Terminated => WorkerOp::Halt,
    }
}

/// The transition relation of the worker, as a function.
///
/// `flag` is the value of the shared run flag read after the operation that
/// produced `ev` completed. Whatever the phase, an observed `flag == false`
/// leads straight to `Terminated`: the remaining wait is never completed.
/// A failed acquire terminates the worker silently; a failed pulse action is
/// transient and does not end the loop. A zero interval skips the wait phase
/// entirely (a tight loop) without dividing by or counting down from zero.
pub open spec fn spec_step(
    s: WorkerState,
    interval_secs: u64,
    flag: bool,
    ev: WorkerEvent,
) -> WorkerState {
    match s {
        WorkerState::Init => {
            if (ev matches WorkerEvent::Acquired { ok } && ok) && flag {
                WorkerState::Acting
            } else {
                WorkerState::Terminated
            }
        },
        WorkerState::Acting => {
            if !flag {
                WorkerState::Terminated
            } else if interval_secs == 0 {
                WorkerState::Acting
            } else {
                WorkerState::Waiting { remaining: interval_secs }
            }
        },
        WorkerState::Waiting { remaining } => {
            if !flag {
                WorkerState::Terminated
            } else if remaining <= 1 {
                WorkerState::Acting
            } else {
                WorkerState::Waiting { remaining: (remaining - 1) as u64 }
            }
        },
        WorkerState::Terminated => WorkerState::Terminated,
    }
}

/// Which operation the host loop must perform next for a worker in state `s`.
pub fn pending_op(s: &WorkerState) -> (op: WorkerOp)
    ensures
        op == op_of(*s),
{
    match s {
        WorkerState::Init => WorkerOp::Acquire,
        WorkerState::Acting => WorkerOp::Pulse,
        WorkerState::Waiting { .. } => WorkerOp::SleepUnit,
        WorkerState::Terminated => WorkerOp::Halt,
    }
}

/// Advance the worker by one transition, given the freshly read run flag and
/// the outcome of the operation the host loop just performed.
pub fn step(s: WorkerState, interval_secs: u64, flag: bool, ev: WorkerEvent) -> (next: WorkerState)
    ensures
        next == spec_step(s, interval_secs, flag, ev),
{
    match s {
        WorkerState::Init => {
            let acquired = match ev {
                WorkerEvent::Acquired { ok } => ok,
                _ => false,
            };
            if acquired && flag {
                WorkerState::Acting
            } else {
                WorkerState::Terminated
            }
        },
        WorkerState::Acting => {
            if !flag {
                WorkerState::Terminated
            } else if interval_secs == 0 {
                WorkerState::Acting
            } else {
                WorkerState::Waiting { remaining: interval_secs }
            }
        },
        WorkerState::Waiting { remaining } => {
            if !flag {
                WorkerState::Terminated
            } else if remaining <= 1 {
                WorkerState::Acting
            } else {
                WorkerState::Waiting { remaining: remaining - 1 }
            }
        },
        WorkerState::Terminated => WorkerState::Terminated,
    }
}

/// Whether the worker's execution context has ended.
pub fn is_terminated(s: &WorkerState) -> (r: bool)
    ensures
        r == (*s == WorkerState::Terminated),
{
    match s {
        WorkerState::Terminated => true,
        _ => false,
    }
}

/// Bounded cancellation: whatever phase a worker is in and whatever event
/// just happened, the first transition that observes the run flag cleared is
/// the last one — the worker terminates at once, without completing the rest
/// of its wait and without performing another action.
pub proof fn cleared_flag_terminates(s: WorkerState, interval_secs: u64, ev: WorkerEvent)
    ensures
        spec_step(s, interval_secs, false, ev) == WorkerState::Terminated,
{
}

/// A worker that cannot acquire the pulse-action capability terminates
/// silently, whatever the run flag says: the failure is never escalated.
pub proof fn failed_acquire_terminates(interval_secs: u64, flag: bool)
    ensures
        spec_step(
            WorkerState::Init,
            interval_secs,
            flag,
            WorkerEvent::Acquired { ok: false },
        ) == WorkerState::Terminated,
{
}

/// A transient pulse-action failure is tolerated: the transition taken after
/// a failed action is exactly the one taken after a successful action.
pub proof fn action_failure_tolerated(s: WorkerState, interval_secs: u64, flag: bool)
    ensures
        spec_step(s, interval_secs, flag, WorkerEvent::Pulsed { ok: false }) == spec_step(
            s,
            interval_secs,
            flag,
            WorkerEvent::Pulsed { ok: true },
        ),
{
}

/// Transitions preserve well-formedness: a wait phase never holds more
/// remaining units than the interval it was started with, and never zero.
pub proof fn step_preserves_wf(s: WorkerState, interval_secs: u64, flag: bool, ev: WorkerEvent)
    requires
        wf_state(s, interval_secs),
    ensures
        wf_state(spec_step(s, interval_secs, flag, ev), interval_secs),
{
}

} // verus!
