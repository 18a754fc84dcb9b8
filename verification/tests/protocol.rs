use pulse_core::controller::PulseController;
use pulse_core::sim::{run_worker, run_worker_until_stopped};
use pulse_core::worker::{is_terminated, pending_op, step, WorkerEvent, WorkerOp, WorkerState};

#[test]
fn controller_starts_stopped() {
    let mut c = PulseController::new();
    let d = c.set_running(false, 9);
    assert_eq!(d.flag, false);
    assert_eq!(d.spawn_interval_secs, None);
}

#[test]
fn stop_while_stopped_is_noop() {
    let mut c = PulseController::new();
    let d1 = c.set_running(false, 4);
    let d2 = c.set_running(false, 0);
    assert_eq!(d1.flag, false);
    assert_eq!(d1.spawn_interval_secs, None);
    assert_eq!(d2.flag, false);
    assert_eq!(d2.spawn_interval_secs, None);
}

#[test]
fn start_directs_one_spawn_with_interval() {
    let mut c = PulseController::new();
    let d = c.set_running(true, 5);
    assert_eq!(d.flag, true);
    assert_eq!(d.spawn_interval_secs, Some(5));
}

#[test]
fn double_start_spawns_only_once() {
    let mut c = PulseController::new();
    let d1 = c.set_running(true, 3);
    let d2 = c.set_running(true, 7);
    assert_eq!(d1.spawn_interval_secs, Some(3));
    assert_eq!(d2.flag, true);
    assert_eq!(d2.spawn_interval_secs, None);
}

#[test]
fn restart_uses_fresh_interval() {
    let mut c = PulseController::new();
    let d1 = c.set_running(true, 5);
    let d2 = c.set_running(false, 0);
    let d3 = c.set_running(true, 2);
    assert_eq!(d1.spawn_interval_secs, Some(5));
    assert_eq!(d2.flag, false);
    assert_eq!(d2.spawn_interval_secs, None);
    assert_eq!(d3.spawn_interval_secs, Some(2));
}

#[test]
fn acquire_failure_terminates_silently() {
    let next = step(WorkerState::Init, 5, true, WorkerEvent::Acquired { ok: false });
    assert_eq!(next, WorkerState::Terminated);
}

#[test]
fn acquire_success_starts_acting() {
    let next = step(WorkerState::Init, 5, true, WorkerEvent::Acquired { ok: true });
    assert_eq!(next, WorkerState::Acting);
}

#[test]
fn acquire_with_flag_already_cleared_terminates() {
    let next = step(WorkerState::Init, 5, false, WorkerEvent::Acquired { ok: true });
    assert_eq!(next, WorkerState::Terminated);
}

#[test]
fn pulse_failure_is_tolerated() {
    let failed = step(WorkerState::Acting, 2, true, WorkerEvent::Pulsed { ok: false });
    let succeeded = step(WorkerState::Acting, 2, true, WorkerEvent::Pulsed { ok: true });
    assert_eq!(failed, WorkerState::Waiting { remaining: 2 });
    assert_eq!(failed, succeeded);
}

#[test]
fn zero_interval_skips_the_wait() {
    let next = step(WorkerState::Acting, 0, true, WorkerEvent::Pulsed { ok: true });
    assert_eq!(next, WorkerState::Acting);
}

#[test]
fn wait_counts_down_one_unit_at_a_time() {
    let mid = step(WorkerState::Waiting { remaining: 3 }, 3, true, WorkerEvent::Ticked);
    let last = step(WorkerState::Waiting { remaining: 1 }, 3, true, WorkerEvent::Ticked);
    assert_eq!(mid, WorkerState::Waiting { remaining: 2 });
    assert_eq!(last, WorkerState::Acting);
}

#[test]
fn cleared_flag_stops_every_phase_at_once() {
    let from_wait = step(WorkerState::Waiting { remaining: 3 }, 3, false, WorkerEvent::Ticked);
    let from_act = step(WorkerState::Acting, 3, false, WorkerEvent::Pulsed { ok: true });
    let from_init = step(WorkerState::Init, 3, false, WorkerEvent::Acquired { ok: true });
    assert_eq!(from_wait, WorkerState::Terminated);
    assert_eq!(from_act, WorkerState::Terminated);
    assert_eq!(from_init, WorkerState::Terminated);
}

#[test]
fn terminated_is_absorbing() {
    let next = step(WorkerState::Terminated, 3, true, WorkerEvent::Ticked);
    assert_eq!(next, WorkerState::Terminated);
    assert!(is_terminated(&next));
    assert!(!is_terminated(&WorkerState::Acting));
}

#[test]
fn each_phase_demands_its_operation() {
    assert_eq!(pending_op(&WorkerState::Init), WorkerOp::Acquire);
    assert_eq!(pending_op(&WorkerState::Acting), WorkerOp::Pulse);
    assert_eq!(pending_op(&WorkerState::Waiting { remaining: 2 }), WorkerOp::SleepUnit);
    assert_eq!(pending_op(&WorkerState::Terminated), WorkerOp::Halt);
}

#[test]
fn pulse_cadence_concrete_run() {
    // Interval 1, stop requested between 3 and 4 time units in (a read at
    // t = 3 still sees the flag set, the read at t = 4 sees it cleared):
    // at least three pulses happen, none at or after the stop, and the
    // worker is gone within one wait unit of the stop request.
    let r = run_worker(1, 0, true, 4, 100);
    assert_eq!(r.pulses, vec![0, 1, 2, 3]);
    assert!(r.pulses.len() >= 3);
    assert!(r.pulses.iter().all(|&t| t < 4));
    assert!(r.terminated);
    assert_eq!(r.end_time, 4);
}

#[test]
fn stop_mid_wait_is_observed_within_one_unit() {
    let r = run_worker(5, 0, true, 7, 1000);
    assert_eq!(r.pulses, vec![0, 5]);
    assert!(r.terminated);
    assert_eq!(r.end_time, 7);
    assert!(r.pulses.iter().all(|&t| t < 7));
}

#[test]
fn zero_interval_is_a_tight_loop() {
    // With a zero interval and an instantaneous action, simulated time never
    // advances: the run is a tight loop bounded only by its fuel, and it
    // neither crashes nor divides by zero.
    let r = run_worker(0, 0, true, 5, 50);
    assert!(!r.terminated);
    assert_eq!(r.pulses.len(), 49);
    assert!(r.pulses.iter().all(|&t| t == 0));
    assert_eq!(r.end_time, 0);
}

#[test]
fn zero_interval_stops_once_actions_consume_time() {
    let r = run_worker(0, 1, true, 3, 100);
    assert_eq!(r.pulses, vec![0, 1, 2]);
    assert!(r.terminated);
    assert_eq!(r.end_time, 3);
}

#[test]
fn failed_acquire_ends_the_run_at_once() {
    let r = run_worker(3, 0, false, 10, 100);
    assert!(r.terminated);
    assert!(r.pulses.is_empty());
    assert_eq!(r.end_time, 0);
}

#[test]
fn stop_before_the_first_pulse() {
    let r = run_worker(2, 0, true, 0, 100);
    assert!(r.terminated);
    assert!(r.pulses.is_empty());
    assert_eq!(r.end_time, 0);
}

#[test]
fn until_stopped_always_terminates() {
    let r = run_worker_until_stopped(1, 0, true, 10);
    assert!(r.terminated);
    assert_eq!(r.pulses, (0..10).collect::<Vec<u64>>());
    assert_eq!(r.end_time, 10);
}

#[test]
fn until_stopped_with_costly_actions() {
    let r = run_worker_until_stopped(2, 1, true, 7);
    assert!(r.terminated);
    assert_eq!(r.pulses, vec![0, 3, 6]);
    assert_eq!(r.end_time, 7);
    assert!(r.end_time <= 7 + 1);
}
