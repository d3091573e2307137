//! Time as the kernel counts it: durations in ticks, and the conversion
//! between milliseconds and ticks by the kernel's tick period.

use vstd::prelude::*;
use core::marker::PhantomData;
use crate::base::FreeRtosTickType;
use crate::shim::freertos_rs_get_portTICK_PERIOD_MS;
use crate::shim::freertos_rs_max_wait;
use crate::shim::Kernel;
use crate::shim::KernelView;

verus! {

/// Where the tick period and the longest wait come from.
pub trait FreeRtosTimeUnits {
    /// The tick period in milliseconds that this source reports for a kernel.
    spec fn tick_period_ms(k: KernelView) -> u32;

    /// The longest wait in ticks that this source reports for a kernel.
    spec fn max_wait(k: KernelView) -> u32;

    fn get_tick_period_ms(k: &Kernel) -> (period: u32)
        ensures
            period == Self::tick_period_ms(k@),
    ;

    fn get_max_wait(k: &Kernel) -> (ticks: u32)
        ensures
            ticks == Self::max_wait(k@),
    ;
}

/// The time units as the kernel itself reports them.
#[derive(Copy, Clone, Default)]
pub struct FreeRtosTimeUnitsShimmed;

impl FreeRtosTimeUnits for FreeRtosTimeUnitsShimmed {
    open spec fn tick_period_ms(k: KernelView) -> u32 {
        k.tick_period_ms
    }

    open spec fn max_wait(k: KernelView) -> u32 {
        k.max_wait
    }

    #[inline]
    fn get_tick_period_ms(k: &Kernel) -> (period: u32) {
        freertos_rs_get_portTICK_PERIOD_MS(k)
    }

    #[inline]
    fn get_max_wait(k: &Kernel) -> (ticks: u32) {
        freertos_rs_max_wait(k)
    }
}

/// Anything that says how many ticks it lasts.
pub trait DurationTicks: Copy + Clone {
    /// The ticks this value lasts.
    spec fn ticks_of(&self) -> FreeRtosTickType;

    /// Convert to ticks, the internal time measurement unit of the kernel.
    fn to_ticks(&self) -> (ticks: FreeRtosTickType)
        ensures
            ticks == self.ticks_of(),
    ;
}

/// A duration, internally represented as ticks.
#[derive(Debug, Clone, Copy, PartialEq, Eq, PartialOrd, Ord, Structural)]
pub struct Duration {
    ticks: FreeRtosTickType,
}

impl View for Duration {
    type V = FreeRtosTickType;

    /// A duration is its number of ticks.
    closed spec fn view(&self) -> FreeRtosTickType {
        self.ticks
    }
}

impl Duration {
    /// A new duration from milliseconds: as many whole ticks as fit in them.
    /// The kernel's tick period must not be zero.
    pub fn from_ms(k: &Kernel, milliseconds: u32) -> (d: Self)
        requires
            k@.tick_period_ms > 0,
        ensures
            d@ == milliseconds / k@.tick_period_ms,
    {
        Self::from_ms_at(milliseconds, freertos_rs_get_portTICK_PERIOD_MS(k))
    }

    /// A new duration from milliseconds, for a tick period given in
    /// milliseconds, which must not be zero: as many whole ticks as fit.
    pub fn from_ms_at(milliseconds: u32, tick_period_ms: u32) -> (d: Self)
        requires
            tick_period_ms > 0,
        ensures
            d@ == milliseconds / tick_period_ms,
    {
        Self::from_ticks(milliseconds / tick_period_ms)
    }

    /// A new duration from ticks.
    pub fn from_ticks(ticks: u32) -> (d: Self)
        ensures
            d@ == ticks,
    {
        Self { ticks }
    }

    /// An infinite duration: the kernel's longest wait.
    pub fn infinite(k: &Kernel) -> (d: Self)
        ensures
            d@ == k@.max_wait,
    {
        Self::from_ticks(freertos_rs_max_wait(k))
    }

    /// A duration of zero, for non-blocking calls.
    pub fn zero() -> (d: Self)
        ensures
            d@ == 0,
    {
        Self::from_ticks(0)
    }

    /// Smallest unit of measurement, one tick.
    pub fn eps() -> (d: Self)
        ensures
            d@ == 1,
    {
        Self::from_ticks(1)
    }

    /// Return the duration in milliseconds, which must fit in 32 bits.
    pub fn ms(&self, k: &Kernel) -> (milliseconds: u32)
        requires
            self@ * k@.tick_period_ms <= u32::MAX,
        ensures
            milliseconds == self@ * k@.tick_period_ms,
    {
        self.ticks * freertos_rs_get_portTICK_PERIOD_MS(k)
    }

    /// Return the duration in ticks.
    pub fn ticks(&self) -> (ticks: FreeRtosTickType)
        ensures
            ticks == self@,
    {
        self.ticks
    }
}

impl DurationTicks for Duration {
    open spec fn ticks_of(&self) -> FreeRtosTickType {
        self@
    }

    fn to_ticks(&self) -> (ticks: FreeRtosTickType) {
        self.ticks
    }
}

/// Time unit used by the kernel, passed to the scheduler as ticks, with the
/// source of the tick period left open.
#[derive(Debug, PartialEq, Eq)]
pub struct DurationImpl<T> {
    ticks: u32,
    _time_units: PhantomData<T>,
}

impl<T> Clone for DurationImpl<T> {
    fn clone(&self) -> (d: Self)
        ensures
            d@ == self@,
    {
        DurationImpl { ticks: self.ticks, _time_units: PhantomData }
    }
}

impl<T> Copy for DurationImpl<T> {

}

impl<T> View for DurationImpl<T> {
    type V = FreeRtosTickType;

    /// A duration is its number of ticks.
    closed spec fn view(&self) -> FreeRtosTickType {
        self.ticks
    }
}

impl<T> DurationImpl<T> where T: FreeRtosTimeUnits + Copy {
    /// Milliseconds constructor: as many whole ticks as fit in them. The tick
    /// period must not be zero.
    pub fn ms(k: &Kernel, milliseconds: u32) -> (d: Self)
        requires
            T::tick_period_ms(k@) > 0,
        ensures
            d@ == milliseconds / T::tick_period_ms(k@),
    {
        Self::ticks(milliseconds / T::get_tick_period_ms(k))
    }

    pub fn ticks(ticks: u32) -> (d: Self)
        ensures
            d@ == ticks,
    {
        DurationImpl { ticks: ticks, _time_units: PhantomData }
    }

    /// An infinite duration: the longest wait.
    pub fn infinite(k: &Kernel) -> (d: Self)
        ensures
            d@ == T::max_wait(k@),
    {
        Self::ticks(T::get_max_wait(k))
    }

    /// A duration of zero, for non-blocking calls
    pub fn zero() -> (d: Self)
        ensures
            d@ == 0,
    {
        Self::ticks(0)
    }

    /// Smallest unit of measurement, one tick
    pub fn eps() -> (d: Self)
        ensures
            d@ == 1,
    {
        Self::ticks(1)
    }

    /// The duration in milliseconds, which must fit in 32 bits.
    pub fn to_ms(&self, k: &Kernel) -> (milliseconds: u32)
        requires
            self@ * T::tick_period_ms(k@) <= u32::MAX,
        ensures
            milliseconds == self@ * T::tick_period_ms(k@),
    {
        self.ticks * T::get_tick_period_ms(k)
    }
}

impl<T> DurationTicks for DurationImpl<T> where T: FreeRtosTimeUnits + Copy {
    open spec fn ticks_of(&self) -> FreeRtosTickType {
        self@
    }

    fn to_ticks(&self) -> (ticks: FreeRtosTickType) {
        self.ticks
    }
}

/// Converting milliseconds to a duration and back loses less than one tick
/// period, and nothing where the milliseconds are a whole number of ticks.
pub proof fn lemma_ms_round_trip(milliseconds: u32, tick_period_ms: u32)
    requires
        tick_period_ms > 0,
    ensures
        (milliseconds / tick_period_ms) * tick_period_ms <= milliseconds,
        milliseconds - (milliseconds / tick_period_ms) * tick_period_ms < tick_period_ms,
        milliseconds % tick_period_ms == 0 ==> (milliseconds / tick_period_ms) * tick_period_ms
            == milliseconds,
{
    let m = milliseconds as int;
    let p = tick_period_ms as int;
    assert(m == p * (m / p) + m % p && 0 <= m % p < p) by (nonlinear_arith)
        requires
            p > 0,
    ;
    assert((m / p) * p == p * (m / p)) by (nonlinear_arith);
}

} // verus!
