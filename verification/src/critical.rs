//! Short sections that nothing interrupts, and values that only such a
//! section can reach.

use vstd::prelude::*;
use crate::base::FreeRtosError;
use crate::isr::InterruptContext;
use crate::shim::freertos_rs_enter_critical;
use crate::shim::freertos_rs_exit_critical;
use crate::shim::freertos_rs_vTaskSuspendAll;
use crate::shim::freertos_rs_xTaskResumeAll;
use crate::shim::Kernel;
use crate::shim::KernelView;

verus! {

/// The kernel one critical section deeper.
pub open spec fn entered(k: KernelView) -> KernelView {
    KernelView {
        critical_depth: if k.critical_depth == u32::MAX {
            u32::MAX
        } else {
            (k.critical_depth + 1) as u32
        },
        ..k
    }
}

/// The kernel one critical section less deep.
pub open spec fn exited(k: KernelView) -> KernelView {
    KernelView {
        critical_depth: if k.critical_depth == 0 {
            0
        } else {
            (k.critical_depth - 1) as u32
        },
        ..k
    }
}

/// The kernel with its scheduler suspended once more.
pub open spec fn suspended(k: KernelView) -> KernelView {
    KernelView {
        suspend_depth: if k.suspend_depth == u32::MAX {
            u32::MAX
        } else {
            (k.suspend_depth + 1) as u32
        },
        ..k
    }
}

/// The kernel with one suspension of its scheduler undone.
pub open spec fn resumed(k: KernelView) -> KernelView {
    KernelView {
        suspend_depth: if k.suspend_depth == 0 {
            0
        } else {
            (k.suspend_depth - 1) as u32
        },
        ..k
    }
}

/// A critical section: entered when this is made, left when it is ended.
pub struct CriticalRegion;

impl CriticalRegion {
    pub fn enter(k: &mut Kernel) -> (region: Self)
        requires
            old(k).wf(),
        ensures
            final(k).wf(),
            final(k)@ == entered(old(k)@),
    {
        freertos_rs_enter_critical(k);
        CriticalRegion
    }

    /// Leaves the critical section.
    pub fn exit(self, k: &mut Kernel)
        requires
            old(k).wf(),
        ensures
            final(k).wf(),
            final(k)@ == exited(old(k)@),
    {
        freertos_rs_exit_critical(k);
    }
}

/// Data protected with a critical region. Lightweight version of a mutex,
/// intended for simple data structures.
pub struct ExclusiveData<T> {
    data: T,
}

impl<T> View for ExclusiveData<T> {
    type V = T;

    /// Seen as the value it protects.
    closed spec fn view(&self) -> T {
        self.data
    }
}

impl<T> ExclusiveData<T> {
    pub fn new(data: T) -> (d: Self)
        ensures
            d@ == data,
    {
        ExclusiveData { data }
    }

    /// Enters a critical section and lends the value out for as long as the
    /// guard lives. Never fails.
    pub fn lock<'a>(&'a mut self, k: &mut Kernel) -> (r: Result<
        ExclusiveDataGuard<'a, T>,
        FreeRtosError,
    >)
        requires
            old(k).wf(),
        ensures
            final(k).wf(),
            final(k)@ == entered(old(k)@),
            r matches Ok(guard) && *guard.__data == old(self)@ && final(self)@
                == *final(guard.__data),
    {
        Ok(ExclusiveDataGuard { __data: &mut self.data, __lock: CriticalRegion::enter(k) })
    }

    /// Lends the value out inside an interrupt handler, which nothing
    /// interrupts. Never fails.
    pub fn lock_from_isr<'a>(&'a mut self, _context: &mut InterruptContext) -> (r: Result<
        ExclusiveDataGuardIsr<'a, T>,
        FreeRtosError,
    >)
        ensures
            final(_context)@ == old(_context)@,
            r matches Ok(guard) && *guard.__data == old(self)@ && final(self)@
                == *final(guard.__data),
    {
        Ok(ExclusiveDataGuardIsr { __data: &mut self.data })
    }
}

/// Holds the critical section until it is unlocked.
pub struct ExclusiveDataGuard<'a, T> {
    pub __data: &'a mut T,
    pub __lock: CriticalRegion,
}

impl<'a, T> ExclusiveDataGuard<'a, T> {
    /// The protected value.
    pub fn deref(&self) -> (value: &T)
        ensures
            *value == *old(self.__data),
    {
        &*self.__data
    }

    /// The protected value, to change it.
    pub fn deref_mut(&mut self) -> (value: &mut T)
        ensures
            *value == *old(self).__data,
            *final(self).__data == *final(value),
            *final(final(self).__data) == *final(old(self).__data),
    {
        &mut *self.__data
    }

    /// Ends the guard: leaves the critical section; the value stays as the
    /// guard leaves it.
    pub fn unlock(self, k: &mut Kernel)
        requires
            old(k).wf(),
        ensures
            final(k).wf(),
            final(k)@ == exited(old(k)@),
            *final(self.__data) == *old(self.__data),
    {
        self.__lock.exit(k);
    }
}

/// Lends a protected value out inside an interrupt handler.
pub struct ExclusiveDataGuardIsr<'a, T> {
    pub __data: &'a mut T,
}

impl<'a, T> ExclusiveDataGuardIsr<'a, T> {
    /// The protected value.
    pub fn deref(&self) -> (value: &T)
        ensures
            *value == *old(self.__data),
    {
        &*self.__data
    }

    /// The protected value, to change it.
    pub fn deref_mut(&mut self) -> (value: &mut T)
        ensures
            *value == *old(self).__data,
            *final(self).__data == *final(value),
            *final(final(self).__data) == *final(old(self).__data),
    {
        &mut *self.__data
    }
}

/// Data protected with a critical region, implemented by suspending the
/// scheduler.
pub struct SuspendScheduler<T> {
    data: T,
}

impl<T> View for SuspendScheduler<T> {
    type V = T;

    /// Seen as the value it protects.
    closed spec fn view(&self) -> T {
        self.data
    }
}

impl<T> SuspendScheduler<T> {
    pub fn new(data: T) -> (d: Self)
        ensures
            d@ == data,
    {
        SuspendScheduler { data }
    }

    /// Suspends the scheduler and lends the value out for as long as the guard
    /// lives.
    pub fn lock<'a>(&'a mut self, k: &mut Kernel) -> (guard: SuspendSchedulerGuard<'a, T>)
        requires
            old(k).wf(),
        ensures
            final(k).wf(),
            final(k)@ == suspended(old(k)@),
            *guard.data == old(self)@,
            final(self)@ == *final(guard.data),
    {
        freertos_rs_vTaskSuspendAll(k);
        SuspendSchedulerGuard { data: &mut self.data }
    }

    pub fn get_mut(&mut self) -> (value: &mut T)
        ensures
            *value == old(self)@,
            final(self)@ == *final(value),
    {
        &mut self.data
    }

    pub fn into_inner(self) -> (value: T)
        ensures
            value == self@,
    {
        self.data
    }
}

/// Holds the scheduler suspended until it is unlocked.
pub struct SuspendSchedulerGuard<'a, T> {
    pub data: &'a mut T,
}

impl<'a, T> SuspendSchedulerGuard<'a, T> {
    /// The protected value.
    pub fn deref(&self) -> (value: &T)
        ensures
            *value == *old(self.data),
    {
        &*self.data
    }

    /// The protected value, to change it.
    pub fn deref_mut(&mut self) -> (value: &mut T)
        ensures
            *value == *old(self).data,
            *final(self).data == *final(value),
            *final(final(self).data) == *final(old(self).data),
    {
        &mut *self.data
    }

    /// Ends the guard: undoes the suspension of the scheduler; the value stays
    /// as the guard leaves it.
    pub fn unlock(self, k: &mut Kernel)
        requires
            old(k).wf(),
        ensures
            final(k).wf(),
            final(k)@ == resumed(old(k)@),
            *final(self.data) == *old(self.data),
    {
        freertos_rs_xTaskResumeAll(k);
    }
}

/// While a critical section is open or the scheduler is suspended, the
/// scheduler hands the processor to no task; and a section entered and left,
/// or a suspension made and undone, leaves the kernel as it was, unless the
/// nesting was at its largest count.
pub proof fn lemma_sections_exclude(k: KernelView, task: usize)
    requires
        k.wf(),
    ensures
        !entered(k).can_switch_to(task),
        !suspended(k).can_switch_to(task),
        k.critical_depth < u32::MAX ==> exited(entered(k)) == k,
        k.suspend_depth < u32::MAX ==> resumed(suspended(k)) == k,
{
}

} // verus!
