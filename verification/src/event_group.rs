//! Event groups: a word of bits that tasks set, clear and wait for.

use vstd::prelude::*;
use crate::base::FreeRtosBaseType;
use crate::base::FreeRtosError;
use crate::base::FreeRtosEventBitsType;
use crate::base::FreeRtosEventGroupHandle;
use crate::shim::freertos_rs_vTaskDelay;
use crate::shim::Kernel;
use crate::shim::CONTROL_BLOCK_BYTES;
use crate::units::DurationTicks;

verus! {

/// Whether a wait for the bits of `mask` is over when the group holds `bits`:
/// with all of them set if all are waited for, with any of them set if not.
pub open spec fn wait_satisfied(
    bits: FreeRtosEventBitsType,
    mask: FreeRtosEventBitsType,
    wait_for_all: bool,
) -> bool {
    if wait_for_all {
        bits & mask == mask
    } else {
        bits & mask != 0
    }
}

/// The bits of a group that held `bits` after a wait for the bits of `mask`:
/// the bits of the mask are cleared where the wait was satisfied and asked to
/// clear them, and nothing changes otherwise.
pub open spec fn after_wait_bits(
    bits: FreeRtosEventBitsType,
    mask: FreeRtosEventBitsType,
    clear_on_exit: bool,
    wait_for_all: bool,
) -> FreeRtosEventBitsType {
    if wait_satisfied(bits, mask, wait_for_all) && clear_on_exit {
        bits & !mask
    } else {
        bits
    }
}

/// The bits of a group that held `bits` after a task set the bits of `set` and
/// waited for those of `mask` at a rendezvous: where all of the mask are then
/// set, they are cleared; otherwise the bits set stay.
pub open spec fn after_sync(
    bits: FreeRtosEventBitsType,
    set: FreeRtosEventBitsType,
    mask: FreeRtosEventBitsType,
) -> FreeRtosEventBitsType {
    if (bits | set) & mask == mask {
        (bits | set) & !mask
    } else {
        bits | set
    }
}

/// An event group
pub struct EventGroup {
    event_group: FreeRtosEventGroupHandle,
    bits: FreeRtosEventBitsType,
}

impl View for EventGroup {
    type V = FreeRtosEventBitsType;

    /// An event group is the bits it holds.
    closed spec fn view(&self) -> FreeRtosEventBitsType {
        self.bits
    }
}

impl EventGroup {
    /// The handle of the group.
    pub closed spec fn handle(&self) -> FreeRtosEventGroupHandle {
        self.event_group
    }

    /// Create a new event group, with no bit set. Fails with `OutOfMemory`
    /// exactly when the kernel has no room for it.
    pub fn new(k: &mut Kernel) -> (r: Result<EventGroup, FreeRtosError>)
        requires
            old(k).wf(),
        ensures
            final(k).wf(),
            match r {
                Ok(g) => {
                    &&& old(k)@.can_allocate(CONTROL_BLOCK_BYTES)
                    &&& g@ == 0
                    &&& g.handle() == old(k)@.next_handle
                    &&& final(k)@ == old(k)@.after_allocate(CONTROL_BLOCK_BYTES)
                },
                Err(e) => {
                    &&& !old(k)@.can_allocate(CONTROL_BLOCK_BYTES)
                    &&& e == FreeRtosError::OutOfMemory
                    &&& final(k)@ == old(k)@
                },
            },
    {
        let s = k.allocate(CONTROL_BLOCK_BYTES);
        if s == 0 {
            return Err(FreeRtosError::OutOfMemory);
        }
        Ok(EventGroup { event_group: s, bits: 0 })
    }

    #[inline]
    pub fn raw_handle(&self) -> (handle: FreeRtosEventGroupHandle)
        ensures
            handle == self.handle(),
    {
        self.event_group
    }

    /// Sets the bits of `bits_to_set`. Returns the bits of the group after
    /// that.
    pub fn set_bits(&mut self, bits_to_set: FreeRtosEventBitsType) -> (bits: FreeRtosEventBitsType)
        ensures
            final(self)@ == old(self)@ | bits_to_set,
            bits == final(self)@,
            final(self).handle() == old(self).handle(),
    {
        self.bits = self.bits | bits_to_set;
        self.bits
    }

    pub fn get_bits(&self) -> (bits: FreeRtosEventBitsType)
        ensures
            bits == self@,
    {
        self.bits
    }

    /// Clears the bits of `bits_to_clear`. Returns the bits of the group as
    /// they were before.
    pub fn clear_bits(&mut self, bits_to_clear: FreeRtosEventBitsType) -> (bits:
        FreeRtosEventBitsType)
        ensures
            final(self)@ == old(self)@ & !bits_to_clear,
            bits == old(self)@,
            final(self).handle() == old(self).handle(),
    {
        let before = self.bits;
        self.bits = before & !bits_to_clear;
        before
    }

    /// Waits until all bits of `bits_to_wait_for` are set, where
    /// `wait_for_all_bits` is not 0, or until any of them is, where it is 0.
    /// Returns the bits of the group as they were when the wait ended: at once
    /// where the wait is satisfied, and then the bits waited for are cleared
    /// where `clear_on_exit` is not 0; after the whole wait where it is not,
    /// and then nothing is cleared. A wait without end returns only with the
    /// wait satisfied: one that is not satisfied never returns, and is not to
    /// be made.
    pub fn wait_bits<D: DurationTicks>(
        &mut self,
        k: &mut Kernel,
        bits_to_wait_for: FreeRtosEventBitsType,
        clear_on_exit: FreeRtosBaseType,
        wait_for_all_bits: FreeRtosBaseType,
        duration: D,
    ) -> (bits: FreeRtosEventBitsType)
        requires
            old(k).wf(),
            old(k)@.wait_ends(
                duration.ticks_of(),
                wait_satisfied(old(self)@, bits_to_wait_for, wait_for_all_bits != 0),
            ),
        ensures
            final(k).wf(),
            duration.ticks_of() == old(k)@.max_wait ==> wait_satisfied(
                bits,
                bits_to_wait_for,
                wait_for_all_bits != 0,
            ) && final(k)@ == old(k)@,
            duration.ticks_of() == old(k)@.max_wait && clear_on_exit != 0 ==> final(self)@
                & bits_to_wait_for == 0 && final(self)@ & !bits_to_wait_for == old(self)@
                & !bits_to_wait_for,
            bits == old(self)@,
            final(self)@ == after_wait_bits(
                old(self)@,
                bits_to_wait_for,
                clear_on_exit != 0,
                wait_for_all_bits != 0,
            ),
            final(self).handle() == old(self).handle(),
            wait_satisfied(old(self)@, bits_to_wait_for, wait_for_all_bits != 0) ==> final(k)@
                == old(k)@,
            !wait_satisfied(old(self)@, bits_to_wait_for, wait_for_all_bits != 0) ==> final(k)@
                == old(k)@.after_wait(duration.ticks_of()),
    {
        let bits = self.bits;
        assert((bits & !bits_to_wait_for) & bits_to_wait_for == 0) by (bit_vector);
        assert((bits & !bits_to_wait_for) & !bits_to_wait_for == bits & !bits_to_wait_for)
            by (bit_vector);
        let satisfied = if wait_for_all_bits != 0 {
            bits & bits_to_wait_for == bits_to_wait_for
        } else {
            bits & bits_to_wait_for != 0
        };
        if satisfied {
            if clear_on_exit != 0 {
                self.bits = bits & !bits_to_wait_for;
            }
        } else {
            freertos_rs_vTaskDelay(k, duration.to_ticks());
        }
        bits
    }

    /// Sets the bits of `bits_to_set`, then waits until all bits of
    /// `bits_to_wait_for` are set. Returns the bits of the group as they were
    /// when the wait ended: at once where all are set, and then the bits
    /// waited for are cleared; after the whole wait where they are not. A
    /// wait without end that is not satisfied never returns, and is not to be
    /// made.
    pub fn sync<D: DurationTicks>(
        &mut self,
        k: &mut Kernel,
        bits_to_set: FreeRtosEventBitsType,
        bits_to_wait_for: FreeRtosEventBitsType,
        duration: D,
    ) -> (bits: FreeRtosEventBitsType)
        requires
            old(k).wf(),
            old(k)@.wait_ends(
                duration.ticks_of(),
                wait_satisfied(old(self)@ | bits_to_set, bits_to_wait_for, true),
            ),
        ensures
            final(k).wf(),
            duration.ticks_of() == old(k)@.max_wait ==> bits & bits_to_wait_for
                == bits_to_wait_for && final(self)@ & bits_to_wait_for == 0,
            bits == old(self)@ | bits_to_set,
            final(self)@ == after_sync(old(self)@, bits_to_set, bits_to_wait_for),
            final(self).handle() == old(self).handle(),
            wait_satisfied(old(self)@ | bits_to_set, bits_to_wait_for, true) ==> final(k)@
                == old(k)@,
            !wait_satisfied(old(self)@ | bits_to_set, bits_to_wait_for, true) ==> final(k)@
                == old(k)@.after_wait(duration.ticks_of()),
    {
        let bits = self.bits | bits_to_set;
        assert((bits & !bits_to_wait_for) & bits_to_wait_for == 0) by (bit_vector);
        if bits & bits_to_wait_for == bits_to_wait_for {
            self.bits = bits & !bits_to_wait_for;
        } else {
            self.bits = bits;
            freertos_rs_vTaskDelay(k, duration.to_ticks());
        }
        bits
    }

    /// Deletes the group: its memory goes back to the kernel.
    pub fn delete(self, k: &mut Kernel)
        requires
            old(k).wf(),
        ensures
            final(k).wf(),
            final(k)@ == old(k)@.after_release(CONTROL_BLOCK_BYTES),
    {
        k.release(CONTROL_BLOCK_BYTES);
    }
}

/// A wait for all bits of a mask that asks to clear them on exit returns with
/// all of them set exactly when all of them were set, and then leaves none of
/// them set and every other bit as it was. A wait that was not satisfied
/// leaves the group as it was.
pub proof fn lemma_wait_for_all_clears(bits: FreeRtosEventBitsType, mask: FreeRtosEventBitsType)
    ensures
        wait_satisfied(bits, mask, true) <==> bits & mask == mask,
        wait_satisfied(bits, mask, true) ==> after_wait_bits(bits, mask, true, true) & mask == 0,
        wait_satisfied(bits, mask, true) ==> after_wait_bits(bits, mask, true, true) & !mask == bits
            & !mask,
        !wait_satisfied(bits, mask, true) ==> after_wait_bits(bits, mask, true, true) == bits,
{
    assert((bits & !mask) & mask == 0) by (bit_vector);
    assert((bits & !mask) & !mask == bits & !mask) by (bit_vector);
}

/// A wait for any bit of a mask is satisfied by every group that satisfies
/// the wait for all of them, unless the mask is empty; and setting the bits of
/// the mask satisfies both.
pub proof fn lemma_any_and_all(bits: FreeRtosEventBitsType, mask: FreeRtosEventBitsType)
    ensures
        mask != 0 && wait_satisfied(bits, mask, true) ==> wait_satisfied(bits, mask, false),
        wait_satisfied(bits | mask, mask, true),
        mask != 0 ==> wait_satisfied(bits | mask, mask, false),
{
    assert((bits | mask) & mask == mask) by (bit_vector);
}

} // verus!
