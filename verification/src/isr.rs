//! The interrupt context: whether to yield to another task when an interrupt
//! handler ends.

use vstd::prelude::*;
use crate::base::FreeRtosBaseType;
use crate::shim::freertos_rs_isr_yield;
use crate::shim::Kernel;
use crate::shim::KernelView;

verus! {

/// Keep track of whether we need to yield the execution to a different
/// task at the end of the interrupt.
///
/// Should be finished as the last thing inside a interrupt.
pub struct InterruptContext {
    x_higher_priority_task_woken: FreeRtosBaseType,
}

impl View for InterruptContext {
    type V = FreeRtosBaseType;

    /// A context is its flag: not 0 once an operation has reported that it
    /// woke a task of higher priority.
    closed spec fn view(&self) -> FreeRtosBaseType {
        self.x_higher_priority_task_woken
    }
}

impl InterruptContext {
    /// Instantiate a new context, with the flag clear.
    pub fn new() -> (context: InterruptContext)
        ensures
            context@ == 0,
    {
        InterruptContext { x_higher_priority_task_woken: 0 }
    }

    /// The flag, for an interrupt-safe kernel call to write to.
    pub fn get_task_field_mut(&mut self) -> (flag: &mut FreeRtosBaseType)
        ensures
            *flag == old(self)@,
            final(self)@ == *final(flag),
    {
        &mut self.x_higher_priority_task_woken
    }

    pub fn higher_priority_task_woken(&self) -> (flag: FreeRtosBaseType)
        ensures
            flag == self@,
    {
        self.x_higher_priority_task_woken
    }

    /// Whether the end of the interrupt handler has to ask the kernel for a
    /// context switch: it has exactly when the flag is set.
    pub fn must_yield(&self) -> (must: bool)
        ensures
            must == (self@ != 0),
    {
        self.x_higher_priority_task_woken != 0
    }

    /// Ends the context, as the last thing in the interrupt handler: asks the
    /// kernel for a context switch if the flag is set, and does nothing if not.
    pub fn finish(self, k: &mut Kernel)
        requires
            old(k).wf(),
        ensures
            final(k).wf(),
            self@ != 0 ==> final(k)@ == (KernelView { yield_pending: true, ..old(k)@ }),
            self@ == 0 ==> final(k)@ == old(k)@,
    {
        if self.must_yield() {
            freertos_rs_isr_yield(k);
        }
    }
}

} // verus!
