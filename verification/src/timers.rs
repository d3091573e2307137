//! Software timers.

use vstd::prelude::*;
use crate::base::status_to_result;
use crate::base::FreeRtosError;
use crate::base::FreeRtosTickType;
use crate::base::FreeRtosTimerHandle;
use crate::isr::InterruptContext;
use crate::shim::freertos_rs_timer_request;
use crate::shim::freertos_rs_vTaskDelay;
use crate::shim::freertos_rs_xTaskGetTickCount;
use crate::shim::ticks_between;
use crate::shim::Kernel;
use crate::shim::CONTROL_BLOCK_BYTES;
use crate::units::Duration;

verus! {

/// What a timer holds, as plain values.
pub struct TimerView {
    pub handle: FreeRtosTimerHandle,
    /// The period in ticks.
    pub period: FreeRtosTickType,
    pub auto_reload: bool,
    /// Whether the timer is running.
    pub active: bool,
    /// The tick at which the timer was last started.
    pub started_at: FreeRtosTickType,
    /// How many of its expiries since then have been handed out.
    pub delivered: FreeRtosTickType,
}

/// How often a timer with the given period has expired when `elapsed` ticks
/// have passed since it was started: once per period if it reloads itself,
/// and once in all if it does not.
pub open spec fn expiries(period: FreeRtosTickType, auto_reload: bool, elapsed: FreeRtosTickType) -> int
    recommends
        period > 0,
{
    if auto_reload {
        elapsed as int / period as int
    } else if elapsed >= period {
        1
    } else {
        0
    }
}

impl TimerView {
    /// What holds of every timer.
    pub open spec fn wf(self) -> bool {
        self.handle != 0 && self.period > 0
    }

    /// The timer as the kernel creates it: not running.
    pub open spec fn created(handle: FreeRtosTimerHandle, period: FreeRtosTickType, auto_reload: bool) -> TimerView {
        TimerView { handle, period, auto_reload, active: false, started_at: 0, delivered: 0 }
    }

    /// The timer after it was started at tick `now`.
    pub open spec fn after_start(self, now: FreeRtosTickType) -> TimerView {
        TimerView { active: true, started_at: now, delivered: 0, ..self }
    }

    /// The timer after it was stopped.
    pub open spec fn after_stop(self) -> TimerView {
        TimerView { active: false, ..self }
    }

    /// How often the timer has expired up to tick `now` since it was started.
    pub open spec fn expired(self, now: FreeRtosTickType) -> int {
        if self.active {
            expiries(self.period, self.auto_reload, ticks_between(self.started_at, now))
        } else {
            0
        }
    }

    /// How many expiries are due at tick `now`: those since the start that
    /// have not been handed out.
    pub open spec fn due(self, now: FreeRtosTickType) -> int {
        if self.expired(now) > self.delivered {
            self.expired(now) - self.delivered
        } else {
            0
        }
    }

    /// The timer after the expiries due at tick `now` were handed out: a
    /// timer that does not reload itself stops with its one expiry.
    pub open spec fn after_expirations(self, now: FreeRtosTickType) -> TimerView {
        if self.due(now) > 0 {
            TimerView {
                delivered: self.expired(now) as u32,
                active: self.auto_reload,
                ..self
            }
        } else {
            self
        }
    }
}

/// A software timer.
///
/// Note that all operations on a timer are processed by a kernel internal task
/// that receives messages in a queue. Every operation has an associated waiting time
/// for that queue to get unblocked. Here that task takes each request at once
/// while the scheduler runs; until the scheduler is started the requests wait
/// in the queue, which the kernel does not wait on then. A request that the
/// queue took has its effect on the timer as soon as it is made.
pub struct Timer {
    handle: FreeRtosTimerHandle,
    period: FreeRtosTickType,
    auto_reload: bool,
    active: bool,
    started_at: FreeRtosTickType,
    delivered: FreeRtosTickType,
}

impl View for Timer {
    type V = TimerView;

    closed spec fn view(&self) -> TimerView {
        TimerView {
            handle: self.handle,
            period: self.period,
            auto_reload: self.auto_reload,
            active: self.active,
            started_at: self.started_at,
            delivered: self.delivered,
        }
    }
}

/// Helper builder for a new software timer.
pub struct TimerBuilder {
    name: String,
    period: Duration,
    auto_reload: bool,
}

/// What a [`TimerBuilder`] holds, as plain values.
pub struct TimerBuilderView {
    pub name: Seq<char>,
    pub period: FreeRtosTickType,
    pub auto_reload: bool,
}

impl View for TimerBuilder {
    type V = TimerBuilderView;

    closed spec fn view(&self) -> TimerBuilderView {
        TimerBuilderView { name: self.name@, period: self.period@, auto_reload: self.auto_reload }
    }
}

impl TimerBuilder {
    /// Set the name of the timer.
    pub fn set_name(&mut self, name: &str) -> (builder: &mut Self)
        ensures
            builder@ == (TimerBuilderView { name: name@, ..old(self)@ }),
            *final(self) == *final(builder),
    {
        self.name = name.to_owned();
        self
    }

    /// Set the period of the timer.
    pub fn set_period(&mut self, period: Duration) -> (builder: &mut Self)
        ensures
            builder@ == (TimerBuilderView { period: period@, ..old(self)@ }),
            *final(self) == *final(builder),
    {
        self.period = period;
        self
    }

    /// Should the timer be automatically reloaded?
    pub fn set_auto_reload(&mut self, auto_reload: bool) -> (builder: &mut Self)
        ensures
            builder@ == (TimerBuilderView { auto_reload, ..old(self)@ }),
            *final(self) == *final(builder),
    {
        self.auto_reload = auto_reload;
        self
    }

    /// The name set for the timer.
    pub fn get_name(&self) -> (name: &str)
        ensures
            name@ == self@.name,
    {
        self.name.as_str()
    }

    /// The period set for the timer.
    pub fn get_period(&self) -> (period: Duration)
        ensures
            period@ == self@.period,
    {
        self.period
    }

    /// Whether the timer is set to reload itself.
    pub fn get_auto_reload(&self) -> (auto_reload: bool)
        ensures
            auto_reload == self@.auto_reload,
    {
        self.auto_reload
    }

    /// Try to create the new timer. Fails with `OutOfMemory` exactly when the
    /// kernel does not create it: for a period of no ticks, and for want of
    /// heap. What the timer calls when it expires is for the caller to call,
    /// as often as [`Timer::expirations`] says.
    ///
    /// Note that the newly created timer must be started.
    pub fn create(&self, k: &mut Kernel) -> (r: Result<Timer, FreeRtosError>)
        requires
            old(k).wf(),
        ensures
            final(k).wf(),
            match r {
                Ok(timer) => {
                    &&& self@.period > 0 && old(k)@.can_allocate(CONTROL_BLOCK_BYTES)
                    &&& timer@ == TimerView::created(
                        old(k)@.next_handle,
                        self@.period,
                        self@.auto_reload,
                    )
                    &&& final(k)@ == old(k)@.after_allocate(CONTROL_BLOCK_BYTES)
                },
                Err(e) => {
                    &&& !(self@.period > 0 && old(k)@.can_allocate(CONTROL_BLOCK_BYTES))
                    &&& e == FreeRtosError::OutOfMemory
                    &&& final(k)@ == old(k)@
                },
            },
    {
        Timer::spawn(k, self.period.ticks(), self.auto_reload)
    }
}

impl Timer {
    /// Create a new timer builder.
    pub fn new(period: Duration) -> (builder: TimerBuilder)
        ensures
            builder@ == (TimerBuilderView { name: "timer"@, period: period@, auto_reload: true }),
    {
        TimerBuilder { name: "timer".to_owned(), period, auto_reload: true }
    }

    #[inline]
    pub fn raw_handle(&self) -> (handle: FreeRtosTimerHandle)
        ensures
            handle == self@.handle,
    {
        self.handle
    }

    /// What a request to create a timer comes to: the handle that the kernel
    /// gave, and `OutOfMemory` where it gave the null handle.
    pub fn create_result(handle: FreeRtosTimerHandle) -> (r: Result<
        FreeRtosTimerHandle,
        FreeRtosError,
    >)
        ensures
            handle != 0 ==> r == Ok::<FreeRtosTimerHandle, FreeRtosError>(handle),
            handle == 0 ==> r == Err::<FreeRtosTimerHandle, FreeRtosError>(
                FreeRtosError::OutOfMemory,
            ),
    {
        if handle == 0 {
            Err(FreeRtosError::OutOfMemory)
        } else {
            Ok(handle)
        }
    }

    fn spawn(k: &mut Kernel, period_ticks: FreeRtosTickType, auto_reload: bool) -> (r: Result<
        Timer,
        FreeRtosError,
    >)
        requires
            old(k).wf(),
        ensures
            final(k).wf(),
            match r {
                Ok(timer) => {
                    &&& period_ticks > 0 && old(k)@.can_allocate(CONTROL_BLOCK_BYTES)
                    &&& timer@ == TimerView::created(old(k)@.next_handle, period_ticks, auto_reload)
                    &&& final(k)@ == old(k)@.after_allocate(CONTROL_BLOCK_BYTES)
                },
                Err(e) => {
                    &&& !(period_ticks > 0 && old(k)@.can_allocate(CONTROL_BLOCK_BYTES))
                    &&& e == FreeRtosError::OutOfMemory
                    &&& final(k)@ == old(k)@
                },
            },
    {
        if period_ticks == 0 {
            return Err(FreeRtosError::OutOfMemory);
        }
        let handle = match Timer::create_result(k.allocate(CONTROL_BLOCK_BYTES)) {
            Ok(handle) => handle,
            Err(e) => {
                return Err(e);
            },
        };
        Ok(
            Timer {
                handle,
                period: period_ticks,
                auto_reload,
                active: false,
                started_at: 0,
                delivered: 0,
            },
        )
    }

    /// Start the timer: it runs from the present tick, whether it ran before
    /// or not. Fails with `Timeout`, and leaves the timer as it is, exactly
    /// when the timer service's queue has no room for the request.
    pub fn start(&mut self, k: &mut Kernel, block_time: Duration) -> (r: Result<(), FreeRtosError>)
        requires
            old(k).wf(),
        ensures
            final(k).wf(),
            final(k)@ == old(k)@.after_timer_request(),
            match r {
                Ok(_) => old(k)@.timer_request_accepted() && final(self)@ == old(self)@.after_start(
                    old(k)@.tick_count,
                ),
                Err(e) => !old(k)@.timer_request_accepted() && e == FreeRtosError::Timeout && final(self)@ == old(self)@,
            },
    {
        let r = status_to_result(
            freertos_rs_timer_request(k, block_time.ticks()),
            FreeRtosError::Timeout,
        );
        if r.is_ok() {
            self.restart(k);
        }
        r
    }

    /// Start the timer from an interrupt. Fails with `QueueSendTimeout`, and
    /// leaves the timer as it is, exactly when the timer service's queue has
    /// no room for the request. The context is left as it is.
    pub fn start_from_isr(&mut self, k: &mut Kernel, context: &mut InterruptContext) -> (r: Result<
        (),
        FreeRtosError,
    >)
        requires
            old(k).wf(),
        ensures
            final(k).wf(),
            final(k)@ == old(k)@.after_timer_request(),
            final(context)@ == old(context)@,
            match r {
                Ok(_) => old(k)@.timer_request_accepted() && final(self)@ == old(self)@.after_start(
                    old(k)@.tick_count,
                ),
                Err(e) => !old(k)@.timer_request_accepted() && e == FreeRtosError::QueueSendTimeout
                    && final(self)@ == old(self)@,
            },
    {
        let r = status_to_result(freertos_rs_timer_request(k, 0), FreeRtosError::QueueSendTimeout);
        if r.is_ok() {
            self.restart(k);
        }
        r
    }

    fn restart(&mut self, k: &Kernel)
        ensures
            final(self)@ == old(self)@.after_start(k@.tick_count),
    {
        self.active = true;
        self.started_at = freertos_rs_xTaskGetTickCount(k);
        self.delivered = 0;
    }

    /// Stop the timer. Fails with `Timeout`, and leaves the timer as it is,
    /// exactly when the timer service's queue has no room for the request.
    pub fn stop(&mut self, k: &mut Kernel, block_time: Duration) -> (r: Result<(), FreeRtosError>)
        requires
            old(k).wf(),
        ensures
            final(k).wf(),
            final(k)@ == old(k)@.after_timer_request(),
            match r {
                Ok(_) => old(k)@.timer_request_accepted() && final(self)@ == old(self)@.after_stop(),
                Err(e) => !old(k)@.timer_request_accepted() && e == FreeRtosError::Timeout && final(self)@ == old(self)@,
            },
    {
        let r = status_to_result(
            freertos_rs_timer_request(k, block_time.ticks()),
            FreeRtosError::Timeout,
        );
        if r.is_ok() {
            self.active = false;
        }
        r
    }

    /// Change the period of the timer, and start it from the present tick.
    /// Fails with `Timeout`, and leaves the timer as it is, where the kernel
    /// does not take the request: a period of no ticks it never takes, and
    /// the wait for it passes, so that a wait without end for it is not to be
    /// made; and any request it does not take while the timer service's queue
    /// has no room.
    pub fn change_period(&mut self, k: &mut Kernel, block_time: Duration, new_period: Duration) -> (r:
        Result<(), FreeRtosError>)
        requires
            old(k).wf(),
            old(k)@.wait_ends(block_time@, new_period@ > 0),
        ensures
            final(k).wf(),
            new_period@ == 0 ==> final(k)@ == old(k)@.after_wait(block_time@),
            new_period@ > 0 ==> final(k)@ == old(k)@.after_timer_request(),
            match r {
                Ok(_) => {
                    &&& new_period@ > 0 && old(k)@.timer_request_accepted()
                    &&& final(self)@ == (TimerView {
                        period: new_period@,
                        ..old(self)@
                    }).after_start(old(k)@.tick_count)
                },
                Err(e) => {
                    &&& !(new_period@ > 0 && old(k)@.timer_request_accepted())
                    &&& e == FreeRtosError::Timeout
                    &&& final(self)@ == old(self)@
                },
            },
    {
        if new_period.ticks() == 0 {
            freertos_rs_vTaskDelay(k, block_time.ticks());
            return Err(FreeRtosError::Timeout);
        }
        let r = status_to_result(
            freertos_rs_timer_request(k, block_time.ticks()),
            FreeRtosError::Timeout,
        );
        if r.is_ok() {
            self.period = new_period.ticks();
            self.restart(k);
        }
        r
    }

    /// How many times the timer has expired and its callback has not been
    /// called for it: the number of calls that are due now. Those expiries
    /// count as handed out afterwards.
    pub fn expirations(&mut self, k: &Kernel) -> (due: u32)
        requires
            old(self)@.wf(),
        ensures
            final(self)@.wf(),
            due == old(self)@.due(k@.tick_count),
            final(self)@ == old(self)@.after_expirations(k@.tick_count),
    {
        if !self.active {
            return 0;
        }
        let elapsed = freertos_rs_xTaskGetTickCount(k).wrapping_sub(self.started_at);
        let expired: u32 = if self.auto_reload {
            elapsed / self.period
        } else if elapsed >= self.period {
            1
        } else {
            0
        };
        if expired > self.delivered {
            let due = expired - self.delivered;
            self.delivered = expired;
            self.active = self.auto_reload;
            due
        } else {
            0
        }
    }

    /// Detach this timer from memory management. The timer will still be active and
    /// will consume the memory.
    ///
    /// Can be used for timers that will never be changed and don't need to stay in scope.
    pub fn detach(self) {
    }

    /// Deletes the timer: its memory goes back to the kernel. Where the timer
    /// service's queue has no room for the request, the kernel keeps the timer
    /// and its memory.
    pub fn delete(self, k: &mut Kernel)
        requires
            old(k).wf(),
        ensures
            final(k).wf(),
            old(k)@.timer_request_accepted() ==> final(k)@
                == old(k)@.after_timer_request().after_release(CONTROL_BLOCK_BYTES),
            !old(k)@.timer_request_accepted() ==> final(k)@ == old(k)@,
    {
        if freertos_rs_timer_request(k, 0) == 0 {
            k.release(CONTROL_BLOCK_BYTES);
        }
    }
}

/// A timer that reloads itself has expired at least `n` times once `n`
/// periods have passed, and it never has expired less often when more time
/// has passed.
pub proof fn lemma_timer_fires(period: FreeRtosTickType, n: nat, elapsed: FreeRtosTickType, later: FreeRtosTickType)
    requires
        period > 0,
        n * period <= elapsed,
        elapsed <= later,
    ensures
        expiries(period, true, elapsed) >= n,
        expiries(period, true, elapsed) <= expiries(period, true, later),
        expiries(period, false, elapsed) <= expiries(period, false, later),
        n >= 1 ==> expiries(period, false, elapsed) == 1,
{
    let p = period as int;
    let e = elapsed as int;
    let l = later as int;
    assert(e / p >= n) by (nonlinear_arith)
        requires
            p > 0,
            n * p <= e,
    ;
    assert(e / p <= l / p) by (nonlinear_arith)
        requires
            p > 0,
            0 <= e <= l,
    ;
    if n >= 1 {
        assert(n * p >= p) by (nonlinear_arith)
            requires
                n >= 1,
                p > 0,
        ;
    }
}

} // verus!
