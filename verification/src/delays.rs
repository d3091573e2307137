//! Delays that keep a steady rhythm.

use vstd::prelude::*;
use crate::base::FreeRtosTickType;
use crate::shim::freertos_rs_vTaskDelayUntil;
use crate::shim::must_delay_until;
use crate::shim::ticks_after;
use crate::shim::ticks_between;
use crate::shim::Kernel;
use crate::task::FreeRtosUtils;
use crate::units::Duration;

verus! {

/// Delay the current task by the given duration, minus the
/// time that was spent processing the last wakeup loop.
pub struct TaskDelay {
    last_wake_time: FreeRtosTickType,
}

impl View for TaskDelay {
    type V = FreeRtosTickType;

    /// The tick at which the task last woke.
    closed spec fn view(&self) -> FreeRtosTickType {
        self.last_wake_time
    }
}

impl TaskDelay {
    /// Create a new helper, marking the current time as the start of the
    /// next measurement.
    pub fn now(k: &Kernel) -> (delay: TaskDelay)
        ensures
            delay@ == k@.tick_count,
    {
        TaskDelay { last_wake_time: FreeRtosUtils::get_tick_count(k) }
    }

    /// Delay the execution of the current task by the given duration,
    /// minus the time spent in the task since the last delay: the task wakes
    /// `delay` after it last woke, and does not wait where that tick has
    /// passed.
    pub fn delay_until(&mut self, k: &mut Kernel, delay: Duration)
        requires
            old(k).wf(),
        ensures
            final(k).wf(),
            final(self)@ == ticks_after(old(self)@, delay@),
            must_delay_until(old(k)@.tick_count, old(self)@, delay@) ==> final(k)@
                == old(k)@.after_wait(
                ticks_between(old(k)@.tick_count, ticks_after(old(self)@, delay@)),
            ),
            !must_delay_until(old(k)@.tick_count, old(self)@, delay@) ==> final(k)@ == old(k)@,
    {
        freertos_rs_vTaskDelayUntil(k, &mut self.last_wake_time, delay.ticks());
    }
}

/// Periodic delay timer.
///
/// Use inside a polling loop, for example: the loop polls this instance every second.
/// The method `should_run` will return true once 30 seconds or more has elapsed
/// and it will then reset the timer for that period.
pub struct TaskDelayPeriodic {
    last_wake_time: FreeRtosTickType,
    period_ticks: FreeRtosTickType,
}

impl View for TaskDelayPeriodic {
    type V = (FreeRtosTickType, FreeRtosTickType);

    /// The tick from which the period counts, and the period in ticks.
    closed spec fn view(&self) -> (FreeRtosTickType, FreeRtosTickType) {
        (self.last_wake_time, self.period_ticks)
    }
}

impl TaskDelayPeriodic {
    /// Create a new timer with the set period.
    pub fn new(k: &Kernel, period: Duration) -> (delay: TaskDelayPeriodic)
        ensures
            delay@ == (k@.tick_count, period@),
    {
        let l = FreeRtosUtils::get_tick_count(k);
        TaskDelayPeriodic { last_wake_time: l, period_ticks: period.ticks() }
    }

    /// Has the set period passed? If it has, resets the internal timer. The
    /// ticks passed are counted on the wrapping tick counter.
    pub fn should_run(&mut self, k: &Kernel) -> (run: bool)
        ensures
            run == (ticks_between(old(self)@.0, k@.tick_count) >= old(self)@.1),
            run ==> final(self)@ == (k@.tick_count, old(self)@.1),
            !run ==> final(self)@ == old(self)@,
    {
        let c = FreeRtosUtils::get_tick_count(k);
        if c.wrapping_sub(self.last_wake_time) < self.period_ticks {
            false
        } else {
            self.last_wake_time = c;
            true
        }
    }

    /// Set a new delay period
    pub fn set_period(&mut self, period: Duration)
        ensures
            final(self)@ == (old(self)@.0, period@),
    {
        self.period_ticks = period.ticks();
    }

    /// Reset the internal timer to zero.
    pub fn reset(&mut self, k: &Kernel)
        ensures
            final(self)@ == (k@.tick_count, old(self)@.1),
    {
        self.last_wake_time = FreeRtosUtils::get_tick_count(k);
    }
}

} // verus!
