//! Bounded first-in first-out queues of items.

use vstd::prelude::*;
use crate::base::FreeRtosError;
use crate::base::FreeRtosQueueHandle;
use crate::base::FreeRtosUBaseType;
use crate::isr::InterruptContext;
use crate::shim::freertos_rs_queue_create;
use crate::shim::freertos_rs_queue_delete;
use crate::shim::freertos_rs_vTaskDelay;
use crate::shim::queue_bytes;
use crate::shim::Kernel;
use crate::shim::KernelView;
use crate::units::DurationTicks;

verus! {

/// An item that a queue did not take, with the reason.
#[derive(Debug)]
pub struct SendError<T> {
    err: FreeRtosError,
    item: T,
}

impl<T> View for SendError<T> {
    type V = (FreeRtosError, T);

    /// A send error is the reason and the item that comes back.
    closed spec fn view(&self) -> (FreeRtosError, T) {
        (self.err, self.item)
    }
}

impl<T> SendError<T> {
    /// The error for `item` that a queue did not take for the reason `err`.
    pub fn new(err: FreeRtosError, item: T) -> (e: Self)
        ensures
            e@ == (err, item),
    {
        SendError { err, item }
    }

    pub fn error(&self) -> (err: FreeRtosError)
        ensures
            err == self@.0,
    {
        self.err
    }

    pub fn into_item(self) -> (item: T)
        ensures
            item == self@.1,
    {
        self.item
    }
}

/// Whether a queue of `capacity` slots that holds `items` takes one more.
pub open spec fn send_accepted<T>(items: Seq<T>, capacity: nat) -> bool {
    items.len() < capacity
}

/// What a queue of `capacity` slots that holds `items` holds after `item` was
/// sent to it: the item goes to the back if there is room, and nowhere if not.
pub open spec fn after_send<T>(items: Seq<T>, capacity: nat, item: T) -> Seq<T> {
    if send_accepted(items, capacity) {
        items.push(item)
    } else {
        items
    }
}

/// What a queue that holds `items` holds after a receive: all but the front.
pub open spec fn after_receive<T>(items: Seq<T>) -> Seq<T> {
    if items.len() > 0 {
        items.drop_first()
    } else {
        items
    }
}

/// What a queue of `capacity` slots that holds `items` holds after each of
/// `sent` was sent to it, in order.
pub open spec fn after_sends<T>(items: Seq<T>, capacity: nat, sent: Seq<T>) -> Seq<T>
    decreases sent.len(),
{
    if sent.len() == 0 {
        items
    } else {
        after_send(after_sends(items, capacity, sent.drop_last()), capacity, sent.last())
    }
}

/// Whether the kernel creates a queue of `max_size` items of type `T`: the
/// queue has at least one slot, the number of slots and the size of an item
/// fit in 32 bits each, and the heap has the room.
pub open spec fn queue_fits<T>(k: KernelView, max_size: usize) -> bool {
    &&& 0 < max_size <= u32::MAX
    &&& vstd::layout::size_of::<T>() <= u32::MAX
    &&& k.can_create(queue_bytes(max_size as u32, vstd::layout::size_of::<T>() as u32))
}

/// A queue with a finite size.
#[derive(Debug)]
pub struct Queue<T> {
    queue: FreeRtosQueueHandle,
    capacity: FreeRtosUBaseType,
    item_size: FreeRtosUBaseType,
    slots: Vec<T>,
}

impl<T> View for Queue<T> {
    type V = Seq<T>;

    /// A queue is the items it holds, the front one first.
    closed spec fn view(&self) -> Seq<T> {
        self.slots@
    }
}

impl<T> Queue<T> {
    /// The number of items the queue has room for.
    pub closed spec fn capacity(&self) -> nat {
        self.capacity as nat
    }

    /// The size in bytes of a slot.
    pub closed spec fn item_size(&self) -> FreeRtosUBaseType {
        self.item_size
    }

    /// The queue's handle.
    pub closed spec fn handle(&self) -> FreeRtosQueueHandle {
        self.queue
    }

    /// What holds of every queue: it has a handle, at least one slot, and no
    /// more items than slots.
    pub closed spec fn wf(&self) -> bool {
        &&& self.queue != 0
        &&& self.capacity > 0
        &&& self.slots@.len() <= self.capacity
    }

    /// A queue that is well formed holds no more items than it has room for.
    pub proof fn lemma_bounded(&self)
        requires
            self.wf(),
        ensures
            self@.len() <= self.capacity(),
            self.capacity() > 0,
            self.capacity() <= u32::MAX,
            self.handle() != 0,
    {
    }

    /// A new, empty queue with room for `max_size` items. Fails with
    /// `OutOfMemory` exactly when the kernel does not create the queue: for no
    /// room at all, for a number of slots or a size of item beyond 32 bits,
    /// and for want of heap.
    pub fn new(k: &mut Kernel, max_size: usize) -> (r: Result<Queue<T>, FreeRtosError>)
        requires
            old(k).wf(),
        ensures
            final(k).wf(),
            match r {
                Ok(q) => {
                    &&& queue_fits::<T>(old(k)@, max_size)
                    &&& q.wf()
                    &&& q@ == Seq::<T>::empty()
                    &&& q.capacity() == max_size
                    &&& q.item_size() == vstd::layout::size_of::<T>() as u32
                    &&& q.handle() == old(k)@.next_handle
                    &&& final(k)@ == old(k)@.after_create(
                        queue_bytes(max_size as u32, vstd::layout::size_of::<T>() as u32),
                    )
                },
                Err(e) => {
                    &&& !queue_fits::<T>(old(k)@, max_size)
                    &&& e == FreeRtosError::OutOfMemory
                    &&& final(k)@ == old(k)@
                },
            },
    {
        let item_size: usize = core::mem::size_of::<T>();
        if max_size > u32::MAX as usize || item_size > u32::MAX as usize {
            return Err(FreeRtosError::OutOfMemory);
        }
        let length = max_size as u32;
        let size = item_size as u32;
        let handle = freertos_rs_queue_create(k, length, size);
        if handle == 0 {
            return Err(FreeRtosError::OutOfMemory);
        }
        Ok(Queue { queue: handle, capacity: length, item_size: size, slots: Vec::new() })
    }

    #[inline]
    pub fn raw_handle(&self) -> (handle: FreeRtosQueueHandle)
        ensures
            handle == self.handle(),
    {
        self.queue
    }

    /// Send an item to the end of the queue. Wait for the queue to have empty
    /// space for it. With room, the item is queued at once. Without, the whole
    /// wait passes, and the item comes back in the error, `QueueSendTimeout`.
    /// A send without end to a queue without room never returns, and is not
    /// to be made.
    pub fn send<D: DurationTicks>(&mut self, k: &mut Kernel, item: T, max_wait: D) -> (r: Result<
        (),
        SendError<T>,
    >)
        requires
            old(self).wf(),
            old(k).wf(),
            old(k)@.wait_ends(
                max_wait.ticks_of(),
                send_accepted(old(self)@, old(self).capacity()),
            ),
        ensures
            final(self).wf(),
            final(k).wf(),
            final(self).capacity() == old(self).capacity(),
            final(self).item_size() == old(self).item_size(),
            final(self).handle() == old(self).handle(),
            final(self)@ == after_send(old(self)@, old(self).capacity(), item),
            match r {
                Ok(_) => send_accepted(old(self)@, old(self).capacity()) && final(k)@ == old(k)@,
                Err(e) => {
                    &&& !send_accepted(old(self)@, old(self).capacity())
                    &&& e@ == (FreeRtosError::QueueSendTimeout, item)
                    &&& final(k)@ == old(k)@.after_wait(max_wait.ticks_of())
                },
            },
    {
        if self.slots.len() < self.capacity as usize {
            self.slots.push(item);
            Ok(())
        } else {
            freertos_rs_vTaskDelay(k, max_wait.to_ticks());
            Err(SendError { err: FreeRtosError::QueueSendTimeout, item })
        }
    }

    /// Send an item to the end of the queue, from an interrupt. With room, the
    /// item is queued. Without, it comes back in the error, `QueueFull`. No
    /// task waits inside the kernel, so none is woken and the context is left
    /// as it is.
    pub fn send_from_isr(&mut self, context: &mut InterruptContext, item: T) -> (r: Result<
        (),
        SendError<T>,
    >)
        requires
            old(self).wf(),
        ensures
            final(self).wf(),
            final(self).capacity() == old(self).capacity(),
            final(self).item_size() == old(self).item_size(),
            final(self).handle() == old(self).handle(),
            final(self)@ == after_send(old(self)@, old(self).capacity(), item),
            final(context)@ == old(context)@,
            match r {
                Ok(_) => send_accepted(old(self)@, old(self).capacity()),
                Err(e) => !send_accepted(old(self)@, old(self).capacity()) && e@ == (
                    FreeRtosError::QueueFull,
                    item,
                ),
            },
    {
        if self.slots.len() < self.capacity as usize {
            self.slots.push(item);
            Ok(())
        } else {
            Err(SendError { err: FreeRtosError::QueueFull, item })
        }
    }

    /// Wait for an item to be available on the queue. Gives the front item at
    /// once where there is one. Where there is none, the whole wait passes and
    /// the call fails with `QueueReceiveTimeout`. A receive without end from an
    /// empty queue never returns, and is not to be made.
    pub fn receive<D: DurationTicks>(&mut self, k: &mut Kernel, max_wait: D) -> (r: Result<
        T,
        FreeRtosError,
    >)
        requires
            old(self).wf(),
            old(k).wf(),
            old(k)@.wait_ends(max_wait.ticks_of(), old(self)@.len() > 0),
        ensures
            final(self).wf(),
            final(k).wf(),
            final(self).capacity() == old(self).capacity(),
            final(self).item_size() == old(self).item_size(),
            final(self).handle() == old(self).handle(),
            final(self)@ == after_receive(old(self)@),
            match r {
                Ok(item) => old(self)@.len() > 0 && item == old(self)@[0] && final(k)@ == old(k)@,
                Err(e) => {
                    &&& old(self)@.len() == 0
                    &&& e == FreeRtosError::QueueReceiveTimeout
                    &&& final(k)@ == old(k)@.after_wait(max_wait.ticks_of())
                },
            },
    {
        if self.slots.len() > 0 {
            let item = self.slots.remove(0);
            assert(self.slots@ =~= old(self).slots@.drop_first());
            Ok(item)
        } else {
            freertos_rs_vTaskDelay(k, max_wait.to_ticks());
            Err(FreeRtosError::QueueReceiveTimeout)
        }
    }

    /// Get the number of messages in the queue.
    pub fn len(&self) -> (n: u32)
        requires
            self.wf(),
        ensures
            n == self@.len(),
    {
        self.slots.len() as u32
    }

    /// Deletes the queue: the items still in it are dropped, and its memory
    /// goes back to the kernel.
    pub fn delete(self, k: &mut Kernel)
        requires
            old(k).wf(),
        ensures
            final(k).wf(),
            final(k)@ == old(k)@.after_delete(queue_bytes(self.capacity() as u32, self.item_size())),
    {
        freertos_rs_queue_delete(k, self.capacity, self.item_size);
    }
}

/// A queue that starts empty takes as many sends as it has slots, holds what
/// was sent in the order sent, and takes no more after that: one more send
/// leaves it as it is.
pub proof fn lemma_full_after_capacity_sends<T>(capacity: nat, sent: Seq<T>, extra: T)
    requires
        sent.len() == capacity,
    ensures
        forall|i: int|
            0 <= i < capacity ==> send_accepted(
                #[trigger] after_sends(Seq::<T>::empty(), capacity, sent.take(i)),
                capacity,
            ),
        after_sends(Seq::<T>::empty(), capacity, sent) == sent,
        !send_accepted(after_sends(Seq::<T>::empty(), capacity, sent), capacity),
        after_send(after_sends(Seq::<T>::empty(), capacity, sent), capacity, extra) == sent,
{
    assert forall|i: int| 0 <= i <= capacity implies #[trigger] after_sends(
        Seq::<T>::empty(),
        capacity,
        sent.take(i),
    ) == sent.take(i) by {
        lemma_sends_within_capacity(capacity, sent.take(i));
    }
    assert(sent.take(capacity as int) =~= sent);
}

/// Sends that fit are all taken: a queue that starts empty then holds what was
/// sent.
pub proof fn lemma_sends_within_capacity<T>(capacity: nat, sent: Seq<T>)
    requires
        sent.len() <= capacity,
    ensures
        after_sends(Seq::<T>::empty(), capacity, sent) == sent,
    decreases sent.len(),
{
    if sent.len() > 0 {
        lemma_sends_within_capacity(capacity, sent.drop_last());
        assert(sent.drop_last().push(sent.last()) =~= sent);
    }
}

/// What goes into an empty queue of one slot comes out of it again, and the
/// queue is empty afterwards.
pub proof fn lemma_round_trip<T>(v: T)
    ensures
        send_accepted(Seq::<T>::empty(), 1),
        after_send(Seq::<T>::empty(), 1, v).len() > 0,
        after_send(Seq::<T>::empty(), 1, v)[0] == v,
        after_receive(after_send(Seq::<T>::empty(), 1, v)) == Seq::<T>::empty(),
{
    assert(after_receive(after_send(Seq::<T>::empty(), 1, v)) =~= Seq::<T>::empty());
}

/// Items leave a queue in the order in which they entered it: after a send to
/// a queue that is not empty, the front item is the one that was in front, and
/// after a receive from a queue that had room, the item sent last is still the
/// last.
pub proof fn lemma_first_in_first_out<T>(items: Seq<T>, capacity: nat, item: T)
    requires
        items.len() > 0,
        items.len() < capacity,
    ensures
        after_send(items, capacity, item)[0] == items[0],
        after_receive(after_send(items, capacity, item)) == after_send(
            after_receive(items),
            capacity,
            item,
        ),
{
    assert(after_receive(after_send(items, capacity, item)) =~= after_send(
        after_receive(items),
        capacity,
        item,
    ));
}

} // verus!
