//! A minimal lifecycle primitive for a periodic background "pulse" worker.
//!
//! A controller serializes a caller's start/stop intent into a single shared
//! run flag and decides when a fresh worker must be spawned; a worker is a
//! small state machine that performs an externally supplied pulse action on a
//! fixed cadence and cancels itself cooperatively, observing a stop request
//! with bounded latency because its interval wait is decomposed into
//! one-unit steps.
//!
//! The crate verifies the protocol, not the side effect: the pulse action,
//! the spawning of an execution context and the real-time sleep are performed
//! by an unverified host loop that drives [`worker::pending_op`] and
//! [`worker::step`]. The [`sim`] module runs the same state machine against a
//! simulated clock and proves the timing properties of a whole run: every
//! pulse lands on the cadence grid, no pulse happens after the stop time, and
//! a stopped worker terminates within one wait unit plus one action.

pub mod controller;
pub mod sim;
pub mod worker;
