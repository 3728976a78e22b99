//! The integral accumulator shared between the control loop and the
//! telemetry reporter: one value behind a verified multiple-reader /
//! single-writer lock.  A writer excludes all readers, and an update is a
//! single acquire-modify-release, so a reader observes the accumulator either
//! before or after an iteration's increment, never a mix.

use vstd::prelude::*;
use vstd::rwlock::{RwLock, RwLockPredicate};
use crate::control::{
    command_after_iteration, control_step, ControlParams, MAX_ACTUATOR_RPM, MIN_ACTUATOR_RPM,
};

verus! {

/// The lock's invariant: any accumulator value may be stored.
pub struct AccumulatorPred;

impl RwLockPredicate<i64> for AccumulatorPred {
    open spec fn inv(self, v: i64) -> bool {
        true
    }
}

/// The shared integral-accumulator cell.
pub struct SharedAccumulator {
    lock: RwLock<i64, AccumulatorPred>,
}

impl SharedAccumulator {
    /// Creates the cell holding the configured initial integral value.
    pub fn new(initial: i64) -> Self {
        SharedAccumulator { lock: RwLock::new(initial, Ghost(AccumulatorPred)) }
    }

    /// Snapshots the accumulator for telemetry.  Takes only a read lock, so
    /// it never delays a concurrent reader and never observes a partially
    /// applied increment: the lock hands out the value a completed write
    /// left.
    pub fn snapshot(&self) -> i64 {
        let handle = self.lock.acquire_read();
        let value = *handle.borrow();
        handle.release_read();
        value
    }

    /// Runs one control iteration against the shared accumulator: the
    /// accumulator update of `control_step` is applied as a single
    /// read-modify-write under the write lock, and the clamped speed command
    /// is returned.  The command relates to the accumulator the iteration
    /// found exactly as `control_step` states.
    pub fn control_iteration(
        &self,
        params: &ControlParams,
        measured_degrees: i64,
        speed_rpm: u64,
        elapsed_ms: u32,
    ) -> (r: u64)
        ensures
            MIN_ACTUATOR_RPM <= r <= MAX_ACTUATOR_RPM,
            exists|prior: int|
                r == #[trigger] command_after_iteration(
                    *params,
                    prior,
                    measured_degrees as int,
                    speed_rpm as int,
                    elapsed_ms as int,
                ),
    {
        let (acc, write_handle) = self.lock.acquire_write();
        let (new_acc, command) = control_step(params, acc, measured_degrees, speed_rpm, elapsed_ms);
        write_handle.release_write(new_acc);
        proof {
            assert(command == command_after_iteration(
                *params,
                acc as int,
                measured_degrees as int,
                speed_rpm as int,
                elapsed_ms as int,
            ));
        }
        command
    }
}

} // verus!
