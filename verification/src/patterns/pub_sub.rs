//! Publish and subscribe: an item sent to the publisher is sent to every
//! subscriber.

use vstd::prelude::*;
use core::marker::PhantomData;
use crate::base::FreeRtosError;
use crate::mutex::Mutex;
use crate::mutex::MutexInnerImpl;
use crate::mutex::MutexState;
use crate::patterns::registry::after_broadcast;
use crate::patterns::registry::after_clear;
use crate::patterns::registry::after_waits;
use crate::patterns::registry::collected;
use crate::patterns::registry::count_with_room;
use crate::patterns::registry::lemma_count_bounded;
use crate::patterns::registry::no_box;
use crate::patterns::registry::nothing_waits;
use crate::patterns::registry::removed;
use crate::patterns::registry::MailboxView;
use crate::patterns::registry::Registry;
use crate::shim::queue_bytes;
use crate::shim::Kernel;
use crate::shim::CONTROL_BLOCK_BYTES;
use crate::units::Duration;

verus! {

/// A pub-sub queue. An item sent to the publisher is sent to every subscriber.
pub struct QueuePublisher<T: Copy> {
    inner: Mutex<Registry<T>>,
}

/// A subscribtion to the publisher.
pub struct QueueSubscriber<T: Copy> {
    id: usize,
    _item: PhantomData<T>,
}

impl<T: Copy> QueueSubscriber<T> {
    /// The number of the subscription.
    pub closed spec fn id(&self) -> usize {
        self.id
    }
}

impl<T: Copy> QueuePublisher<T> {
    /// The subscribers, each with the items that wait for it, in the order in
    /// which they subscribed.
    pub closed spec fn subscribers(&self) -> Seq<MailboxView<T>> {
        self.inner@@
    }

    /// The number that the next subscription will get.
    pub closed spec fn next_id(&self) -> usize {
        self.inner@.next_id()
    }

    /// What holds of every publisher: nobody holds its list of subscribers,
    /// and the subscriptions have different numbers, all below the next
    /// number.
    pub closed spec fn wf(&self) -> bool {
        &&& self.inner.inner().inv()
        &&& self.inner.inner().state() == MutexState::free()
        &&& self.inner@.wf()
    }

    /// The subscriptions of a publisher have different numbers, all below the
    /// next number, and for none wait more items than there is room for.
    pub proof fn lemma_subscribers_distinct(&self)
        requires
            self.wf(),
        ensures
            self.next_id() >= 1,
            forall|i: int|
                0 <= i < self.subscribers().len() ==> (#[trigger] self.subscribers()[i]).id
                    < self.next_id() && self.subscribers()[i].items.len()
                    <= self.subscribers()[i].capacity,
            forall|i: int, j: int|
                0 <= i < j < self.subscribers().len() ==> (#[trigger] self.subscribers()[i]).id != (
                #[trigger] self.subscribers()[j]).id,
    {
        self.inner@.lemma_distinct();
    }

    /// Create a new publisher, without subscribers. Fails with `OutOfMemory`
    /// exactly when the kernel has no room for it.
    pub fn new(k: &mut Kernel) -> (r: Result<QueuePublisher<T>, FreeRtosError>)
        requires
            old(k).wf(),
        ensures
            final(k).wf(),
            match r {
                Ok(p) => {
                    &&& old(k)@.can_allocate(CONTROL_BLOCK_BYTES)
                    &&& p.wf()
                    &&& p.subscribers() == Seq::<MailboxView<T>>::empty()
                    &&& p.next_id() == 1
                    &&& final(k)@ == old(k)@.after_allocate(CONTROL_BLOCK_BYTES)
                },
                Err(e) => {
                    &&& !old(k)@.can_allocate(CONTROL_BLOCK_BYTES)
                    &&& e == FreeRtosError::OutOfMemory
                    &&& final(k)@ == old(k)@
                },
            },
    {
        match Mutex::new(k, Registry::new()) {
            Ok(inner) => Ok(QueuePublisher { inner }),
            Err(e) => Err(e),
        }
    }

    /// Send an item to every subscriber. Returns the number of
    /// subscribers that have received the item: those whose queue had room.
    /// For each of the others the whole wait passes; a wait without end is
    /// not to be made unless every subscriber has room.
    pub fn send(&mut self, k: &mut Kernel, item: T, max_wait: Duration) -> (sent_to: usize)
        requires
            old(self).wf(),
            old(k).wf(),
            old(k)@.wait_ends(
                max_wait@,
                count_with_room(old(self).subscribers(), old(self).subscribers().len() as int)
                    == old(self).subscribers().len(),
            ),
        ensures
            final(self).wf(),
            final(k).wf(),
            final(self).next_id() == old(self).next_id(),
            sent_to == count_with_room(old(self).subscribers(), old(self).subscribers().len() as int),
            final(self).subscribers() == after_broadcast(old(self).subscribers(), item),
            final(k)@ == after_waits(
                old(k)@,
                (old(self).subscribers().len() - sent_to) as nat,
                max_wait@,
            ),
    {
        let mut sent_to: usize = 0;
        if let Ok(mut m) = self.inner.lock(k, max_wait) {
            sent_to = m.deref_mut().broadcast(k, item, max_wait);
            m.unlock();
        }
        sent_to
    }

    /// Subscribe to this publisher. Can accept a fixed amount of items. Fails
    /// with `OutOfMemory` exactly when the kernel does not create the queue of
    /// the subscription: for no room at all, and for want of heap. The number
    /// of subscriptions ever made must stay below the largest word.
    pub fn subscribe(&mut self, k: &mut Kernel, max_size: usize, create_max_wait: Duration) -> (r:
        Result<QueueSubscriber<T>, FreeRtosError>)
        requires
            old(self).wf(),
            old(k).wf(),
            old(self).next_id() < usize::MAX,
        ensures
            final(self).wf(),
            final(k).wf(),
            match r {
                Ok(s) => {
                    &&& Registry::<T>::can_add(old(k)@, max_size)
                    &&& s.id() == old(self).next_id()
                    &&& final(self).subscribers() == old(self).subscribers().push(
                        MailboxView {
                            id: old(self).next_id(),
                            items: Seq::empty(),
                            capacity: max_size as nat,
                        },
                    )
                    &&& final(self).next_id() == old(self).next_id() + 1
                    &&& final(k)@ == old(k)@.after_create(
                        queue_bytes(max_size as u32, vstd::layout::size_of::<T>() as u32),
                    )
                },
                Err(e) => {
                    &&& !Registry::<T>::can_add(old(k)@, max_size)
                    &&& e == FreeRtosError::OutOfMemory
                    &&& final(self).subscribers() == old(self).subscribers()
                    &&& final(self).next_id() == old(self).next_id()
                    &&& final(k)@ == old(k)@
                },
            },
    {
        match self.inner.lock(k, create_max_wait) {
            Ok(mut inner) => {
                let added = inner.deref_mut().add(k, max_size);
                inner.unlock();
                match added {
                    Ok(id) => Ok(QueueSubscriber { id, _item: PhantomData }),
                    Err(e) => Err(e),
                }
            },
            Err(e) => Err(e),
        }
    }

    /// Deletes the publisher, and with it the queues of the subscriptions
    /// that are left, the last first.
    pub fn delete(self, k: &mut Kernel)
        requires
            self.wf(),
            old(k).wf(),
        ensures
            final(k).wf(),
            final(k)@ == after_clear(
                old(k)@.after_release(CONTROL_BLOCK_BYTES),
                self.subscribers(),
            ),
    {
        let mut subscribers = self.inner.into_inner(k);
        subscribers.clear(k);
    }
}

impl<T: Copy> QueueSubscriber<T> {
    /// Wait for an item to be posted from the publisher. Gives the oldest item
    /// that waits for the subscriber. Where none waits, the whole wait passes
    /// and the call fails with `QueueReceiveTimeout`; a wait without end for
    /// an item is not to be made.
    pub fn receive(&self, publisher: &mut QueuePublisher<T>, k: &mut Kernel, max_wait: Duration) -> (r:
        Result<T, FreeRtosError>)
        requires
            old(publisher).wf(),
            old(k).wf(),
            old(k)@.wait_ends(max_wait@, !nothing_waits(old(publisher).subscribers(), self.id())),
        ensures
            final(publisher).wf(),
            final(k).wf(),
            final(publisher).next_id() == old(publisher).next_id(),
            match r {
                Ok(item) => final(k)@ == old(k)@ && collected(
                    old(publisher).subscribers(),
                    final(publisher).subscribers(),
                    self.id(),
                    item,
                ),
                Err(e) => {
                    &&& e == FreeRtosError::QueueReceiveTimeout
                    &&& final(publisher).subscribers() == old(publisher).subscribers()
                    &&& final(k)@ == old(k)@.after_wait(max_wait@)
                    &&& nothing_waits(old(publisher).subscribers(), self.id())
                },
            },
    {
        match publisher.inner.lock(k, max_wait) {
            Ok(mut inner) => {
                let r = inner.deref_mut().collect(k, self.id, max_wait);
                inner.unlock();
                r
            },
            Err(e) => Err(e),
        }
    }

    /// Ends the subscription: the publisher forgets it, and the queue of its
    /// items is deleted with what is in it. Returns whether the publisher
    /// still knew the subscription.
    pub fn unsubscribe(self, publisher: &mut QueuePublisher<T>, k: &mut Kernel) -> (known: bool)
        requires
            old(publisher).wf(),
            old(k).wf(),
        ensures
            final(publisher).wf(),
            final(k).wf(),
            final(publisher).next_id() == old(publisher).next_id(),
            !known ==> final(publisher).subscribers() == old(publisher).subscribers() && final(k)@
                == old(k)@ && no_box(old(publisher).subscribers(), self.id()),
            known ==> removed(
                old(publisher).subscribers(),
                final(publisher).subscribers(),
                self.id(),
                old(k)@,
                final(k)@,
            ),
    {
        let wait = Duration::infinite(k);
        match publisher.inner.lock(k, wait) {
            Ok(mut l) => {
                let known = l.deref_mut().remove(k, self.id);
                l.unlock();
                known
            },
            Err(_) => false,
        }
    }
}

/// An item published reaches every subscriber with room, behind what waits
/// there already, and leaves the others as they are; the publisher counts
/// exactly those it reached, and no more than there are.
pub proof fn lemma_broadcast_reaches<T>(boxes: Seq<MailboxView<T>>, item: T, i: int)
    requires
        0 <= i < boxes.len(),
    ensures
        after_broadcast(boxes, item).len() == boxes.len(),
        after_broadcast(boxes, item)[i].id == boxes[i].id,
        boxes[i].has_room() ==> after_broadcast(boxes, item)[i].items == boxes[i].items.push(item),
        !boxes[i].has_room() ==> after_broadcast(boxes, item)[i] == boxes[i],
        count_with_room(boxes, boxes.len() as int) <= boxes.len(),
{
    lemma_count_bounded(boxes, boxes.len() as int);
}


} // verus!
