//! A registry of numbered mailboxes: what a processor keeps of its clients,
//! and a publisher of its subscribers.

use vstd::prelude::*;
use crate::base::FreeRtosError;
use crate::queue::after_receive;
use crate::queue::after_send;
use crate::queue::queue_fits;
use crate::queue::send_accepted;
use crate::queue::Queue;
use crate::shim::queue_bytes;
use crate::shim::Kernel;
use crate::shim::KernelView;
use crate::units::DurationTicks;

verus! {

/// What a mailbox holds, as plain values.
pub struct MailboxView<T> {
    pub id: usize,
    /// The items that wait in the mailbox, the oldest first.
    pub items: Seq<T>,
    /// How many items can wait.
    pub capacity: nat,
}

impl<T> MailboxView<T> {
    /// Whether the mailbox has room for one more item.
    pub open spec fn has_room(self) -> bool {
        send_accepted(self.items, self.capacity)
    }

    /// The mailbox after `item` was sent to it: with the item last if there
    /// was room, and as it was if not.
    pub open spec fn with_item(self, item: T) -> MailboxView<T> {
        MailboxView { items: after_send(self.items, self.capacity, item), ..self }
    }

    /// The mailbox without its oldest item.
    pub open spec fn without_first(self) -> MailboxView<T> {
        MailboxView { items: after_receive(self.items), ..self }
    }

    /// The heap that the queue of the mailbox takes.
    pub open spec fn bytes(self) -> int {
        queue_bytes(self.capacity as u32, vstd::layout::size_of::<T>() as u32)
    }
}

/// A numbered queue.
pub struct Mailbox<T> {
    id: usize,
    queue: Queue<T>,
}

impl<T> View for Mailbox<T> {
    type V = MailboxView<T>;

    closed spec fn view(&self) -> MailboxView<T> {
        MailboxView { id: self.id, items: self.queue@, capacity: self.queue.capacity() }
    }
}

impl<T> Mailbox<T> {
    /// What holds of every mailbox in a registry.
    pub closed spec fn wf(&self) -> bool {
        self.queue.wf() && self.queue.item_size() == vstd::layout::size_of::<T>() as u32
    }
}

/// Whether `i` is the place in `boxes` of the mailbox with number `id`: no
/// mailbox before it has the number.
pub open spec fn is_box_at<T>(boxes: Seq<MailboxView<T>>, id: usize, i: int) -> bool {
    &&& 0 <= i < boxes.len()
    &&& boxes[i].id == id
    &&& forall|j: int| 0 <= j < i ==> (#[trigger] boxes[j]).id != id
}

/// Whether no mailbox in `boxes` has the number `id`.
pub open spec fn no_box<T>(boxes: Seq<MailboxView<T>>, id: usize) -> bool {
    forall|j: int| 0 <= j < boxes.len() ==> (#[trigger] boxes[j]).id != id
}

/// Whether `after` is `before` with `item` put into the mailbox with number
/// `id`, which had room for it.
pub open spec fn delivered<T>(
    before: Seq<MailboxView<T>>,
    after: Seq<MailboxView<T>>,
    id: usize,
    item: T,
) -> bool {
    exists|i: int|
        {
            &&& #[trigger] is_box_at(before, id, i)
            &&& before[i].has_room()
            &&& after == before.update(i, before[i].with_item(item))
        }
}

/// Whether the mailbox with number `id` is there and has no room.
pub open spec fn box_full<T>(boxes: Seq<MailboxView<T>>, id: usize) -> bool {
    exists|i: int| #[trigger] is_box_at(boxes, id, i) && !boxes[i].has_room()
}

/// Whether `after` is `before` with `item`, the oldest in the mailbox with
/// number `id`, taken out.
pub open spec fn collected<T>(
    before: Seq<MailboxView<T>>,
    after: Seq<MailboxView<T>>,
    id: usize,
    item: T,
) -> bool {
    exists|i: int|
        {
            &&& #[trigger] is_box_at(before, id, i)
            &&& before[i].items.len() > 0
            &&& item == before[i].items[0]
            &&& after == before.update(i, before[i].without_first())
        }
}

/// Whether `queue` is the queue of the mailbox with number `id` in `before`,
/// and `after` is `before` with that mailbox holding what the queue holds
/// when it comes back as `returned`.
pub open spec fn lent<T>(
    before: Seq<MailboxView<T>>,
    after: Seq<MailboxView<T>>,
    id: usize,
    queue: Queue<T>,
    returned: Queue<T>,
) -> bool {
    exists|i: int|
        {
            &&& #[trigger] is_box_at(before, id, i)
            &&& queue.wf()
            &&& queue@ == before[i].items
            &&& queue.capacity() == before[i].capacity
            &&& queue.item_size() == vstd::layout::size_of::<T>() as u32
            &&& after.len() == before.len()
            &&& forall|j: int|
                0 <= j < after.len() ==> #[trigger] after[j] == (if j == i {
                    MailboxView { id, items: returned@, capacity: returned.capacity() }
                } else {
                    before[j]
                })
        }
}

/// Whether there is nothing to take out of a mailbox with number `id`: none
/// has the number, or the one that has it is empty.
pub open spec fn nothing_waits<T>(boxes: Seq<MailboxView<T>>, id: usize) -> bool {
    no_box(boxes, id) || exists|i: int| #[trigger]
        is_box_at(boxes, id, i) && boxes[i].items.len() == 0
}

/// Whether `after` is `before` without the mailbox with number `id`, and
/// `k_after` is `k_before` with the heap of its queue given back.
pub open spec fn removed<T>(
    before: Seq<MailboxView<T>>,
    after: Seq<MailboxView<T>>,
    id: usize,
    k_before: KernelView,
    k_after: KernelView,
) -> bool {
    exists|i: int|
        {
            &&& #[trigger] is_box_at(before, id, i)
            &&& after == before.remove(i)
            &&& k_after == k_before.after_delete(before[i].bytes())
        }
}

/// The mailboxes after `item` was sent to each of them.
pub open spec fn after_broadcast<T>(boxes: Seq<MailboxView<T>>, item: T) -> Seq<MailboxView<T>> {
    Seq::new(boxes.len(), |i: int| boxes[i].with_item(item))
}

/// How many of the first `n` mailboxes have room for one more item.
pub open spec fn count_with_room<T>(boxes: Seq<MailboxView<T>>, n: int) -> nat
    decreases n,
{
    if n <= 0 {
        0
    } else {
        count_with_room(boxes, n - 1) + (if boxes[n - 1].has_room() {
            1nat
        } else {
            0nat
        })
    }
}

/// The kernel after the running task has waited `ticks` ticks `n` times.
pub open spec fn after_waits(k: KernelView, n: nat, ticks: u32) -> KernelView
    decreases n,
{
    if n == 0 {
        k
    } else {
        after_waits(k, (n - 1) as nat, ticks).after_wait(ticks)
    }
}

/// The kernel after the queues of all `boxes` were deleted, the last first.
pub open spec fn after_clear<T>(k: KernelView, boxes: Seq<MailboxView<T>>) -> KernelView
    decreases boxes.len(),
{
    if boxes.len() == 0 {
        k
    } else {
        after_clear(k.after_delete(boxes.last().bytes()), boxes.drop_last())
    }
}

/// No more of the first `n` mailboxes have room than there are.
pub proof fn lemma_count_bounded<T>(boxes: Seq<MailboxView<T>>, n: int)
    requires
        0 <= n,
    ensures
        count_with_room(boxes, n) <= n,
    decreases n,
{
    if n > 0 {
        lemma_count_bounded(boxes, n - 1);
    }
}

/// Where all of the first `n` mailboxes count as having room, each of them
/// has.
pub proof fn lemma_all_have_room<T>(boxes: Seq<MailboxView<T>>, n: int, i: int)
    requires
        0 <= i < n,
        count_with_room(boxes, n) == n,
    ensures
        boxes[i].has_room(),
    decreases n,
{
    lemma_count_bounded(boxes, n - 1);
    if i < n - 1 {
        lemma_all_have_room(boxes, n - 1, i);
    }
}

/// Mailboxes with numbers given out in rising order.
pub struct Registry<T> {
    boxes: Vec<Mailbox<T>>,
    next_id: usize,
}

impl<T> View for Registry<T> {
    type V = Seq<MailboxView<T>>;

    /// A registry is its mailboxes, in the order in which they were added.
    closed spec fn view(&self) -> Seq<MailboxView<T>> {
        Seq::new(self.boxes@.len(), |i: int| self.boxes@[i]@)
    }
}

impl<T> Registry<T> {
    /// The number that the next mailbox will get.
    pub closed spec fn next_id(&self) -> usize {
        self.next_id
    }

    /// What holds of every registry: the next number is at least one, the
    /// mailboxes are well formed, and their numbers are all different and
    /// below the next number.
    pub closed spec fn wf(&self) -> bool {
        &&& self.next_id >= 1
        &&& forall|i: int| 0 <= i < self.boxes@.len() ==> (#[trigger] self.boxes@[i]).wf()
        &&& forall|i: int|
            0 <= i < self.boxes@.len() ==> (#[trigger] self.boxes@[i]).id < self.next_id
        &&& forall|i: int, j: int|
            0 <= i < j < self.boxes@.len() ==> (#[trigger] self.boxes@[i]).id != (
            #[trigger] self.boxes@[j]).id
    }

    /// The mailboxes of a registry have different numbers, all below the next
    /// number, and none holds more than it has room for.
    pub proof fn lemma_distinct(&self)
        requires
            self.wf(),
        ensures
            self.next_id() >= 1,
            forall|i: int|
                0 <= i < self@.len() ==> (#[trigger] self@[i]).id < self.next_id()
                    && self@[i].items.len() <= self@[i].capacity,
            forall|i: int, j: int|
                0 <= i < j < self@.len() ==> (#[trigger] self@[i]).id != (#[trigger] self@[j]).id,
    {
        assert forall|i: int| 0 <= i < self@.len() implies (#[trigger] self@[i]).id < self.next_id()
            && self@[i].items.len() <= self@[i].capacity by {
            assert(self.boxes@[i].wf());
            self.boxes@[i].queue.lemma_bounded();
        }
        assert forall|i: int, j: int| 0 <= i < j < self@.len() implies (#[trigger] self@[i]).id != (
        #[trigger] self@[j]).id by {
            assert(self.boxes@[i].id != self.boxes@[j].id);
        }
    }

    /// A registry without mailboxes, whose first mailbox will get number 1.
    pub fn new() -> (r: Self)
        ensures
            r.wf(),
            r@ == Seq::<MailboxView<T>>::empty(),
            r.next_id() == 1,
    {
        let r = Registry { boxes: Vec::new(), next_id: 1 };
        assert(r@ =~= Seq::<MailboxView<T>>::empty());
        r
    }

    /// The place of the mailbox with number `id`, or the number of mailboxes
    /// where there is none.
    fn find(&self, id: usize) -> (i: usize)
        ensures
            i <= self@.len(),
            i < self@.len() ==> is_box_at(self@, id, i as int),
            i == self@.len() ==> no_box(self@, id),
    {
        let mut i: usize = 0;
        while i < self.boxes.len() && self.boxes[i].id != id
            invariant
                i <= self.boxes@.len(),
                forall|j: int| 0 <= j < i ==> (#[trigger] self@[j]).id != id,
            decreases self.boxes@.len() - i,
        {
            i += 1;
        }
        i
    }

    /// Adds an empty mailbox with room for `size` items, under the next
    /// number, and returns that number. Fails
    /// with `OutOfMemory` exactly when the kernel does not create the queue.
    /// The number of mailboxes ever added must stay below the largest word.
    pub fn add(&mut self, k: &mut Kernel, size: usize) -> (r: Result<usize, FreeRtosError>)
        requires
            old(self).wf(),
            old(k).wf(),
            old(self).next_id() < usize::MAX,
        ensures
            final(self).wf(),
            final(k).wf(),
            match r {
                Ok(id) => {
                    &&& Self::can_add(old(k)@, size)
                    &&& id == old(self).next_id()
                    &&& final(self)@ == old(self)@.push(
                        MailboxView { id, items: Seq::empty(), capacity: size as nat },
                    )
                    &&& final(self).next_id() == old(self).next_id() + 1
                    &&& final(k)@ == old(k)@.after_create(
                        queue_bytes(size as u32, vstd::layout::size_of::<T>() as u32),
                    )
                },
                Err(e) => {
                    &&& !Self::can_add(old(k)@, size)
                    &&& e == FreeRtosError::OutOfMemory
                    &&& final(self)@ == old(self)@
                    &&& final(self).next_id() == old(self).next_id()
                    &&& final(k)@ == old(k)@
                },
            },
    {
        match Queue::new(k, size) {
            Ok(queue) => {
                let ghost before = self@;
                let id = self.next_id;
                self.boxes.push(Mailbox { id, queue });
                self.next_id = id + 1;
                assert(self@ =~= before.push(
                    MailboxView { id, items: Seq::empty(), capacity: size as nat },
                ));
                Ok(id)
            },
            Err(e) => Err(e),
        }
    }

    /// Whether the kernel creates a queue of `size` items of type `T`.
    pub open spec fn can_add(k: KernelView, size: usize) -> bool {
        queue_fits::<T>(k, size)
    }

    /// Sends `item` to the mailbox with number `id`. Returns whether there is
    /// such a mailbox. Where it has no room, the whole wait passes and the
    /// call fails with `QueueSendTimeout`; a wait without end for room is not
    /// to be made.
    pub fn deliver<D: DurationTicks>(&mut self, k: &mut Kernel, id: usize, item: T, max_wait: D) -> (r:
        Result<bool, FreeRtosError>)
        requires
            old(self).wf(),
            old(k).wf(),
            old(k)@.wait_ends(max_wait.ticks_of(), !box_full(old(self)@, id)),
        ensures
            final(self).wf(),
            final(k).wf(),
            final(self).next_id() == old(self).next_id(),
            match r {
                Ok(found) => {
                    &&& final(k)@ == old(k)@
                    &&& !found ==> final(self)@ == old(self)@ && no_box(old(self)@, id)
                    &&& found ==> delivered(old(self)@, final(self)@, id, item)
                },
                Err(e) => {
                    &&& e == FreeRtosError::QueueSendTimeout
                    &&& final(self)@ == old(self)@
                    &&& final(k)@ == old(k)@.after_wait(max_wait.ticks_of())
                    &&& box_full(old(self)@, id)
                },
            },
    {
        let i = self.find(id);
        if i < self.boxes.len() {
            let ghost before = self@;
            let ghost entries = self.boxes@;
            assert(is_box_at(before, id, i as int));
            assert(!before[i as int].has_room() ==> box_full(before, id));
            let sent = self.boxes[i].queue.send(k, item, max_wait);
            assert(forall|j: int|
                0 <= j < self.boxes@.len() && j != i ==> self.boxes@[j] == entries[j]);
            assert(self@ =~= before.update(i as int, before[i as int].with_item(item)));
            match sent {
                Ok(_) => Ok(true),
                Err(err) => {
                    assert(before[i as int].with_item(item) == before[i as int]);
                    assert(before.update(i as int, before[i as int]) =~= before);
                    Err(err.error())
                },
            }
        } else {
            Ok(false)
        }
    }

    /// Takes the oldest item out of the mailbox with number `id`. Where
    /// nothing waits there, the whole wait passes and the call fails with
    /// `QueueReceiveTimeout`; a wait without end for an item is not to be
    /// made.
    pub fn collect<D: DurationTicks>(&mut self, k: &mut Kernel, id: usize, max_wait: D) -> (r: Result<
        T,
        FreeRtosError,
    >)
        requires
            old(self).wf(),
            old(k).wf(),
            old(k)@.wait_ends(max_wait.ticks_of(), !nothing_waits(old(self)@, id)),
        ensures
            final(self).wf(),
            final(k).wf(),
            final(self).next_id() == old(self).next_id(),
            match r {
                Ok(item) => final(k)@ == old(k)@ && collected(old(self)@, final(self)@, id, item),
                Err(e) => {
                    &&& e == FreeRtosError::QueueReceiveTimeout
                    &&& final(self)@ == old(self)@
                    &&& final(k)@ == old(k)@.after_wait(max_wait.ticks_of())
                    &&& nothing_waits(old(self)@, id)
                },
            },
    {
        let i = self.find(id);
        if i < self.boxes.len() {
            let ghost before = self@;
            let ghost entries = self.boxes@;
            assert(is_box_at(before, id, i as int));
            assert(before[i as int].items.len() == 0 ==> nothing_waits(before, id));
            let got = self.boxes[i].queue.receive(k, max_wait);
            assert(forall|j: int|
                0 <= j < self.boxes@.len() && j != i ==> self.boxes@[j] == entries[j]);
            assert(self@ =~= before.update(i as int, before[i as int].without_first()));
            match got {
                Ok(item) => Ok(item),
                Err(e) => {
                    assert(before[i as int].without_first() == before[i as int]);
                    assert(before.update(i as int, before[i as int]) =~= before);
                    Err(e)
                },
            }
        } else {
            crate::shim::freertos_rs_vTaskDelay(k, max_wait.to_ticks());
            Err(FreeRtosError::QueueReceiveTimeout)
        }
    }

    /// The queue of the mailbox with number `id`, to use directly; none where
    /// there is no such mailbox. The registry stays well formed as long as
    /// the queue does.
    pub fn queue_mut(&mut self, id: usize) -> (queue: Option<&mut Queue<T>>)
        requires
            old(self).wf(),
        ensures
            queue is None <==> no_box(old(self)@, id),
            queue is None ==> *final(self) == *old(self),
            queue matches Some(q) ==> lent(old(self)@, final(self)@, id, *q, *final(q)),
            queue matches Some(q) ==> final(self).next_id() == old(self).next_id() && (final(q).wf() && final(q).item_size() == q.item_size() ==> final(self).wf()),
    {
        let i = self.find(id);
        if i < self.boxes.len() {
            let ghost before = self.boxes@;
            assert(is_box_at(self@, id, i as int));
            assert(before[i as int].wf());
            let q = &mut self.boxes[i].queue;
            Some(q)
        } else {
            None
        }
    }

    /// Removes the mailbox with number `id` and deletes its queue. Returns
    /// whether there was such a mailbox.
    pub fn remove(&mut self, k: &mut Kernel, id: usize) -> (found: bool)
        requires
            old(self).wf(),
            old(k).wf(),
        ensures
            final(self).wf(),
            final(k).wf(),
            final(self).next_id() == old(self).next_id(),
            !found ==> final(self)@ == old(self)@ && final(k)@ == old(k)@ && no_box(old(self)@, id),
            found ==> removed(old(self)@, final(self)@, id, old(k)@, final(k)@),
    {
        let i = self.find(id);
        if i < self.boxes.len() {
            let ghost before = self.boxes@;
            let gone = self.boxes.remove(i);
            assert(self@ =~= old(self)@.remove(i as int));
            assert forall|a: int, b: int| 0 <= a < b < self.boxes@.len() implies (
            #[trigger] self.boxes@[a]).id != (#[trigger] self.boxes@[b]).id by {
                let a0 = if a < i {
                    a
                } else {
                    a + 1
                };
                let b0 = if b < i {
                    b
                } else {
                    b + 1
                };
                assert(self.boxes@[a] == before[a0]);
                assert(self.boxes@[b] == before[b0]);
            }
            assert(gone.wf());
            gone.queue.delete(k);
            assert(is_box_at(old(self)@, id, i as int));
            assert(removed(old(self)@, self@, id, old(k)@, k@));
            true
        } else {
            false
        }
    }

    /// Removes all mailboxes and deletes their queues, the last first.
    pub fn clear(&mut self, k: &mut Kernel)
        requires
            old(self).wf(),
            old(k).wf(),
        ensures
            final(self).wf(),
            final(k).wf(),
            final(self)@ == Seq::<MailboxView<T>>::empty(),
            final(self).next_id() == old(self).next_id(),
            final(k)@ == after_clear(old(k)@, old(self)@),
    {
        while self.boxes.len() > 0
            invariant
                self.wf(),
                k.wf(),
                self.next_id() == old(self).next_id(),
                after_clear(k@, self@) == after_clear(old(k)@, old(self)@),
            decreases self.boxes@.len(),
        {
            let ghost before = self@;
            let ghost entries = self.boxes@;
            match self.boxes.pop() {
                Some(gone) => {
                    assert(gone == entries.last());
                    assert(gone.wf());
                    assert(self@ =~= before.drop_last());
                    assert(gone@ == before.last());
                    gone.queue.delete(k);
                },
                None => {},
            }
        }
        assert(self@ =~= Seq::<MailboxView<T>>::empty());
    }

    /// Sends `item` to every mailbox, in order. Returns how many took it. For
    /// each mailbox without room the whole wait passes; a wait without end
    /// is not to be made unless every mailbox has room.
    pub fn broadcast<D: DurationTicks>(&mut self, k: &mut Kernel, item: T, max_wait: D) -> (sent_to:
        usize) where T: Copy
        requires
            old(self).wf(),
            old(k).wf(),
            old(k)@.wait_ends(
                max_wait.ticks_of(),
                count_with_room(old(self)@, old(self)@.len() as int) == old(self)@.len(),
            ),
        ensures
            final(self).wf(),
            final(k).wf(),
            final(self).next_id() == old(self).next_id(),
            sent_to == count_with_room(old(self)@, old(self)@.len() as int),
            final(self)@ == after_broadcast(old(self)@, item),
            final(k)@ == after_waits(
                old(k)@,
                (old(self)@.len() - sent_to) as nat,
                max_wait.ticks_of(),
            ),
    {
        let mut sent_to: usize = 0;
        let mut i: usize = 0;
        let ghost before = self@;
        while i < self.boxes.len()
            invariant
                self.wf(),
                k.wf(),
                self.next_id() == old(self).next_id(),
                before == old(self)@,
                i <= self.boxes@.len(),
                self@.len() == before.len(),
                sent_to == count_with_room(before, i as int),
                sent_to <= i,
                forall|j: int| 0 <= j < i ==> self@[j] == (#[trigger] before[j]).with_item(item),
                forall|j: int| i <= j < before.len() ==> self@[j] == #[trigger] before[j],
                k@ == after_waits(old(k)@, (i - sent_to) as nat, max_wait.ticks_of()),
                k@.max_wait == old(k)@.max_wait,
                old(k)@.wait_ends(
                    max_wait.ticks_of(),
                    count_with_room(before, before.len() as int) == before.len(),
                ),
            decreases self.boxes@.len() - i,
        {
            let ghost entries = self.boxes@;
            let ghost now = self@;
            let ghost next_id = self.next_id;
            assert(entries[i as int].wf());
            proof {
                if max_wait.ticks_of() == k@.max_wait {
                    lemma_all_have_room(before, before.len() as int, i as int);
                }
            }
            let sent = self.boxes[i].queue.send(k, item, max_wait);
            assert(forall|j: int|
                0 <= j < self.boxes@.len() && j != i ==> self.boxes@[j] == entries[j]);
            assert(self@ =~= now.update(i as int, before[i as int].with_item(item)));
            if sent.is_ok() {
                sent_to += 1;
            }
            i += 1;
        }
        assert(self@ =~= after_broadcast(before, item));
        sent_to
    }
}

} // verus!
