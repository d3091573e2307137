//! Counting and binary semaphores.

use vstd::prelude::*;
use crate::base::FreeRtosError;
use crate::base::FreeRtosSemaphoreHandle;
use crate::isr::InterruptContext;
use crate::shim::freertos_rs_vTaskDelay;
use crate::shim::Kernel;
use crate::shim::CONTROL_BLOCK_BYTES;
use crate::units::Duration;

verus! {

/// What a semaphore holds: how often it can be taken now, and at most.
pub struct SemaphoreView {
    pub handle: FreeRtosSemaphoreHandle,
    pub count: u32,
    pub max: u32,
}

impl SemaphoreView {
    /// What holds of every semaphore.
    pub open spec fn wf(self) -> bool {
        self.handle != 0 && self.count <= self.max && self.max > 0
    }

    /// Whether the semaphore can be taken.
    pub open spec fn can_take(self) -> bool {
        self.count > 0
    }

    /// The semaphore after an attempt to take it.
    pub open spec fn after_take(self) -> SemaphoreView {
        if self.can_take() {
            SemaphoreView { count: (self.count - 1) as u32, ..self }
        } else {
            self
        }
    }

    /// Whether the semaphore can be given.
    pub open spec fn can_give(self) -> bool {
        self.count < self.max
    }

    /// The semaphore after an attempt to give it.
    pub open spec fn after_give(self) -> SemaphoreView {
        if self.can_give() {
            SemaphoreView { count: (self.count + 1) as u32, ..self }
        } else {
            self
        }
    }
}

/// A counting or binary semaphore
pub struct Semaphore {
    semaphore: FreeRtosSemaphoreHandle,
    count: u32,
    max: u32,
}

impl View for Semaphore {
    type V = SemaphoreView;

    closed spec fn view(&self) -> SemaphoreView {
        SemaphoreView { handle: self.semaphore, count: self.count, max: self.max }
    }
}

impl Semaphore {
    /// Create a new binary semaphore, which cannot be taken until it is given.
    /// Fails with `OutOfMemory` exactly when the kernel has no room for it.
    pub fn new_binary(k: &mut Kernel) -> (r: Result<Semaphore, FreeRtosError>)
        requires
            old(k).wf(),
        ensures
            final(k).wf(),
            match r {
                Ok(s) => {
                    &&& old(k)@.can_allocate(CONTROL_BLOCK_BYTES)
                    &&& s@ == (SemaphoreView { handle: old(k)@.next_handle, count: 0, max: 1 })
                    &&& final(k)@ == old(k)@.after_allocate(CONTROL_BLOCK_BYTES)
                },
                Err(e) => {
                    &&& !old(k)@.can_allocate(CONTROL_BLOCK_BYTES)
                    &&& e == FreeRtosError::OutOfMemory
                    &&& final(k)@ == old(k)@
                },
            },
    {
        let semaphore = k.allocate(CONTROL_BLOCK_BYTES);
        if semaphore == 0 {
            return Err(FreeRtosError::OutOfMemory);
        }
        Ok(Semaphore { semaphore, count: 0, max: 1 })
    }

    /// Create a new counting semaphore. Fails with `OutOfMemory` exactly when
    /// the kernel does not create it: for a limit of zero, for an initial
    /// count over the limit, and for want of heap.
    pub fn new_counting(k: &mut Kernel, max: u32, initial: u32) -> (r: Result<
        Semaphore,
        FreeRtosError,
    >)
        requires
            old(k).wf(),
        ensures
            final(k).wf(),
            match r {
                Ok(s) => {
                    &&& max > 0 && initial <= max && old(k)@.can_allocate(CONTROL_BLOCK_BYTES)
                    &&& s@ == (SemaphoreView { handle: old(k)@.next_handle, count: initial, max })
                    &&& final(k)@ == old(k)@.after_allocate(CONTROL_BLOCK_BYTES)
                },
                Err(e) => {
                    &&& !(max > 0 && initial <= max && old(k)@.can_allocate(CONTROL_BLOCK_BYTES))
                    &&& e == FreeRtosError::OutOfMemory
                    &&& final(k)@ == old(k)@
                },
            },
    {
        if max == 0 || initial > max {
            return Err(FreeRtosError::OutOfMemory);
        }
        let semaphore = k.allocate(CONTROL_BLOCK_BYTES);
        if semaphore == 0 {
            return Err(FreeRtosError::OutOfMemory);
        }
        Ok(Semaphore { semaphore, count: initial, max })
    }

    #[inline]
    pub fn raw_handle(&self) -> (handle: FreeRtosSemaphoreHandle)
        ensures
            handle == self@.handle,
    {
        self.semaphore
    }

    /// Lock this semaphore in a RAII fashion: take it, and hold it until the
    /// guard is unlocked.
    pub fn lock<'a>(&'a mut self, k: &mut Kernel, max_wait: Duration) -> (r: Result<
        SemaphoreGuard<'a>,
        FreeRtosError,
    >)
        requires
            old(self)@.wf(),
            old(k).wf(),
            old(k)@.wait_ends(max_wait@, old(self)@.can_take()),
        ensures
            final(k).wf(),
            match r {
                Ok(guard) => {
                    &&& old(self)@.can_take()
                    &&& guard.owner@ == old(self)@.after_take()
                    &&& *final(self) == *final(guard.owner)
                    &&& final(k)@ == old(k)@
                },
                Err(e) => {
                    &&& !old(self)@.can_take()
                    &&& e == FreeRtosError::Timeout
                    &&& final(self)@ == old(self)@
                    &&& final(k)@ == old(k)@.after_wait(max_wait@)
                },
            },
    {
        match self.take(k, max_wait) {
            Ok(_) => Ok(SemaphoreGuard { owner: self }),
            Err(e) => Err(e),
        }
    }

    /// Returns `true` on success, `false` when semaphore count already reached its limit
    pub fn give(&mut self) -> (given: bool)
        requires
            old(self)@.wf(),
        ensures
            final(self)@.wf(),
            given == old(self)@.can_give(),
            final(self)@ == old(self)@.after_give(),
    {
        if self.count < self.max {
            self.count = self.count + 1;
            true
        } else {
            false
        }
    }

    /// Takes the semaphore. Where it cannot be taken, the whole wait passes and
    /// the call fails with `Timeout`. A wait without end for a semaphore that
    /// cannot be taken never returns, and is not to be made.
    pub fn take(&mut self, k: &mut Kernel, max_wait: Duration) -> (r: Result<(), FreeRtosError>)
        requires
            old(self)@.wf(),
            old(k).wf(),
            old(k)@.wait_ends(max_wait@, old(self)@.can_take()),
        ensures
            final(self)@.wf(),
            final(k).wf(),
            final(self)@ == old(self)@.after_take(),
            match r {
                Ok(_) => old(self)@.can_take() && final(k)@ == old(k)@,
                Err(e) => {
                    &&& !old(self)@.can_take()
                    &&& e == FreeRtosError::Timeout
                    &&& final(k)@ == old(k)@.after_wait(max_wait@)
                },
            },
    {
        if self.count > 0 {
            self.count = self.count - 1;
            Ok(())
        } else {
            freertos_rs_vTaskDelay(k, max_wait.ticks());
            Err(FreeRtosError::Timeout)
        }
    }

    /// Returns `true` on success, `false` when semaphore count already reached
    /// its limit. No task waits inside the kernel, so none is woken and the
    /// context is left as it is.
    pub fn give_from_isr(&mut self, context: &mut InterruptContext) -> (given: bool)
        requires
            old(self)@.wf(),
        ensures
            final(self)@.wf(),
            given == old(self)@.can_give(),
            final(self)@ == old(self)@.after_give(),
            final(context)@ == old(context)@,
    {
        self.give()
    }

    /// Returns `true` on success, `false` if the semaphore was not successfully
    /// taken because it was not available. The context is left as it is.
    pub fn take_from_isr(&mut self, context: &mut InterruptContext) -> (taken: bool)
        requires
            old(self)@.wf(),
        ensures
            final(self)@.wf(),
            taken == old(self)@.can_take(),
            final(self)@ == old(self)@.after_take(),
            final(context)@ == old(context)@,
    {
        if self.count > 0 {
            self.count = self.count - 1;
            true
        } else {
            false
        }
    }

    /// Deletes the semaphore: its memory goes back to the kernel.
    pub fn delete(self, k: &mut Kernel)
        requires
            old(k).wf(),
        ensures
            final(k).wf(),
            final(k)@ == old(k)@.after_release(CONTROL_BLOCK_BYTES),
    {
        k.release(CONTROL_BLOCK_BYTES);
    }
}

/// Holds the lock to the semaphore until it is unlocked.
pub struct SemaphoreGuard<'a> {
    pub owner: &'a mut Semaphore,
}

impl<'a> SemaphoreGuard<'a> {
    /// Ends the guard: the semaphore is given back.
    pub fn unlock(self)
        requires
            self.owner@.wf(),
        ensures
            final(self.owner)@ == old(self.owner)@.after_give(),
    {
        self.owner.give();
    }
}

/// A semaphore counts: what is taken can be given back, and then taken again;
/// it never goes below zero nor above its limit.
pub proof fn lemma_semaphore_counts(s: SemaphoreView)
    requires
        s.wf(),
    ensures
        s.after_take().wf(),
        s.after_give().wf(),
        s.can_take() ==> s.after_take().can_give() && s.after_take().after_give() == s,
        s.can_give() ==> s.after_give().can_take() && s.after_give().after_take() == s,
{
}

} // verus!
