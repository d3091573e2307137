//! A processor of requests: clients send messages to its queue, and those
//! that ask for it get a reply on a queue of their own.

use vstd::prelude::*;
use core::marker::PhantomData;
use crate::base::FreeRtosError;
use crate::base::FreeRtosQueueHandle;
use crate::isr::InterruptContext;
use crate::mutex::Mutex;
use crate::mutex::MutexInnerImpl;
use crate::mutex::MutexState;
use crate::patterns::registry::after_clear;
use crate::patterns::registry::box_full;
use crate::patterns::registry::collected;
use crate::patterns::registry::delivered;
use crate::patterns::registry::lent;
use crate::patterns::registry::no_box;
use crate::patterns::registry::nothing_waits;
use crate::patterns::registry::removed;
use crate::patterns::registry::Mailbox;
use crate::patterns::registry::MailboxView;
use crate::patterns::registry::Registry;
use crate::queue::after_send;
use crate::queue::queue_fits;
use crate::queue::send_accepted;
use crate::queue::Queue;
use crate::shim::queue_bytes;
use crate::shim::Kernel;
use crate::shim::KernelView;
use crate::shim::CONTROL_BLOCK_BYTES;
use crate::units::Duration;
use crate::units::DurationTicks;

verus! {

pub type Client<I> = ProcessorClient<I, ()>;

pub type ClientWithReplies<I, O> = ProcessorClient<I, SharedClientWithReplyQueue<O>>;

/// What the processor keeps of a client that gets replies: its number and the
/// queue of its replies.
pub type ClientWithReplyQueue<O> = Mailbox<O>;

/// A message that may name the client to reply to.
pub trait ReplyableMessage {
    /// The client that the message asks a reply for, if it asks for one.
    spec fn reply_to(&self) -> Option<usize>;

    fn reply_to_client_id(&self) -> (id: Option<usize>)
        ensures
            id == self.reply_to(),
    ;
}

/// A value for the processor, with the client to reply to where a reply is
/// asked for.
#[derive(Copy, Clone)]
pub struct InputMessage<I> where I: Copy {
    val: I,
    reply_to_client_id: Option<usize>,
}

impl<I> View for InputMessage<I> where I: Copy {
    type V = (I, Option<usize>);

    /// A message is its value and the client to reply to.
    closed spec fn view(&self) -> (I, Option<usize>) {
        (self.val, self.reply_to_client_id)
    }
}

impl<I> InputMessage<I> where I: Copy {
    pub fn request(val: I) -> (message: Self)
        ensures
            message@ == (val, None::<usize>),
    {
        InputMessage { val: val, reply_to_client_id: None }
    }

    pub fn request_with_reply(val: I, client_id: usize) -> (message: Self)
        ensures
            message@ == (val, Some(client_id)),
    {
        InputMessage { val: val, reply_to_client_id: Some(client_id) }
    }

    pub fn get_val(&self) -> (val: I)
        ensures
            val == self@.0,
    {
        self.val
    }
}

impl<I> ReplyableMessage for InputMessage<I> where I: Copy {
    open spec fn reply_to(&self) -> Option<usize> {
        self@.1
    }

    fn reply_to_client_id(&self) -> (id: Option<usize>) {
        self.reply_to_client_id
    }
}

/// The handle by which a client with replies is known to its processor.
pub struct SharedClientWithReplyQueue<O> {
    id: usize,
    _reply: PhantomData<O>,
}

impl<O> Clone for SharedClientWithReplyQueue<O> {
    fn clone(&self) -> (c: Self)
        ensures
            c.id() == self.id(),
    {
        SharedClientWithReplyQueue { id: self.id, _reply: PhantomData }
    }
}

impl<O> SharedClientWithReplyQueue<O> {
    /// The number of the client.
    pub closed spec fn id(&self) -> usize {
        self.id
    }
}

/// A processor of requests of type `I` that replies with values of type `O`.
pub struct Processor<I, O> where I: ReplyableMessage + Copy, O: Copy {
    queue: Option<Queue<I>>,
    inner: Mutex<Registry<O>>,
}

impl<I, O> Processor<I, O> where I: ReplyableMessage + Copy, O: Copy {
    /// Whether the processor still takes requests.
    pub closed spec fn running(&self) -> bool {
        self.queue is Some
    }

    /// The requests that wait for the processor, the oldest first.
    pub closed spec fn pending(&self) -> Seq<I> {
        self.queue->0@
    }

    /// How many requests can wait.
    pub closed spec fn capacity(&self) -> nat {
        self.queue->0.capacity()
    }

    /// The handle of the queue of requests.
    pub closed spec fn queue_handle(&self) -> FreeRtosQueueHandle {
        self.queue->0.handle()
    }

    /// The clients that get replies, each with the replies that wait for it,
    /// in the order in which the clients came.
    pub closed spec fn clients(&self) -> Seq<MailboxView<O>> {
        self.inner@@
    }

    /// The number that the next client with replies will get.
    pub closed spec fn next_client_id(&self) -> usize {
        self.inner@.next_id()
    }

    /// What holds of every processor: its queues are well formed, nobody
    /// holds its registry of clients, and the clients have different numbers,
    /// all below the next number.
    pub closed spec fn wf(&self) -> bool {
        &&& self.queue matches Some(q) ==> q.wf() && q.item_size() == vstd::layout::size_of::<
            I,
        >() as u32
        &&& self.inner.inner().inv()
        &&& self.inner.inner().state() == MutexState::free()
        &&& self.inner@.wf()
    }

    /// The clients of a processor have different numbers, all below the next
    /// number, and for none wait more replies than there is room for.
    pub proof fn lemma_clients_distinct(&self)
        requires
            self.wf(),
        ensures
            self.next_client_id() >= 1,
            forall|i: int|
                0 <= i < self.clients().len() ==> (#[trigger] self.clients()[i]).id
                    < self.next_client_id() && self.clients()[i].items.len()
                    <= self.clients()[i].capacity,
            forall|i: int, j: int|
                0 <= i < j < self.clients().len() ==> (#[trigger] self.clients()[i]).id != (
                #[trigger] self.clients()[j]).id,
    {
        self.inner@.lemma_distinct();
    }

    /// Whether the kernel has room for a processor with room for `queue_size`
    /// requests.
    pub open spec fn can_create(k: KernelView, queue_size: usize) -> bool {
        &&& k.can_allocate(CONTROL_BLOCK_BYTES)
        &&& queue_fits::<I>(k.after_allocate(CONTROL_BLOCK_BYTES), queue_size)
    }

    /// A new processor with room for `queue_size` requests and no clients.
    /// Fails with `OutOfMemory` exactly when the kernel has no room for the
    /// registry of clients, or none for the queue after that; what was
    /// created before the failure is deleted again.
    pub fn new(k: &mut Kernel, queue_size: usize) -> (r: Result<Self, FreeRtosError>)
        requires
            old(k).wf(),
        ensures
            final(k).wf(),
            match r {
                Ok(p) => {
                    &&& Self::can_create(old(k)@, queue_size)
                    &&& p.wf()
                    &&& p.running()
                    &&& p.pending() == Seq::<I>::empty()
                    &&& p.capacity() == queue_size
                    &&& p.queue_handle() == old(k)@.next_handle + 1
                    &&& p.clients() == Seq::<MailboxView<O>>::empty()
                    &&& p.next_client_id() == 1
                    &&& final(k)@ == old(k)@.after_allocate(CONTROL_BLOCK_BYTES).after_create(
                        queue_bytes(queue_size as u32, vstd::layout::size_of::<I>() as u32),
                    )
                },
                Err(e) => {
                    &&& !Self::can_create(old(k)@, queue_size)
                    &&& e == FreeRtosError::OutOfMemory
                    &&& !old(k)@.can_allocate(CONTROL_BLOCK_BYTES) ==> final(k)@ == old(k)@
                    &&& old(k)@.can_allocate(CONTROL_BLOCK_BYTES) ==> final(k)@ == old(k)@.after_allocate(CONTROL_BLOCK_BYTES).after_release(CONTROL_BLOCK_BYTES)
                },
            },
    {
        let p = match Mutex::new(k, Registry::new()) {
            Ok(p) => p,
            Err(e) => {
                return Err(e);
            },
        };
        match Queue::new(k, queue_size) {
            Ok(queue) => Ok(Processor { queue: Some(queue), inner: p }),
            Err(e) => {
                p.into_inner(k);
                Err(e)
            },
        }
    }

    /// A client that sends requests and gets no replies.
    pub fn new_client(&self) -> (r: Result<Client<I>, FreeRtosError>)
        requires
            self.wf(),
        ensures
            r matches Ok(c) && c.processor_queue() == self.weak_handle(),
    {
        let c = ProcessorClient {
            processor_queue: self.weak_queue(),
            client_reply: (),
            _message: PhantomData,
        };
        Ok(c)
    }

    /// The handle by which clients know the processor: that of its queue of
    /// requests, and the null handle once it has shut down.
    pub open spec fn weak_handle(&self) -> FreeRtosQueueHandle {
        if self.running() {
            self.queue_handle()
        } else {
            0
        }
    }

    fn weak_queue(&self) -> (handle: FreeRtosQueueHandle)
        requires
            self.wf(),
        ensures
            handle == self.weak_handle(),
            self.running() ==> handle != 0,
    {
        match &self.queue {
            Some(q) => {
                proof {
                    q.lemma_bounded();
                }
                q.raw_handle()
            },
            None => 0,
        }
    }

    /// Whether `after` is `before` but for the clients with replies.
    pub open spec fn same_requests(before: &Self, after: &Self) -> bool {
        &&& after.running() == before.running()
        &&& after.running() ==> {
            &&& after.pending() == before.pending()
            &&& after.capacity() == before.capacity()
            &&& after.queue_handle() == before.queue_handle()
        }
    }

    /// A client that sends requests and gets replies, on a queue with room for
    /// `client_receive_queue_size` of them. The client gets the next number.
    /// Fails with `InvalidQueueSize` for a queue size of zero, and otherwise
    /// with `OutOfMemory` exactly when the kernel does not create the queue.
    /// The number of clients ever made must stay below the largest word.
    pub fn new_client_with_reply<D: DurationTicks>(
        &mut self,
        k: &mut Kernel,
        client_receive_queue_size: usize,
        max_wait: D,
    ) -> (r: Result<ClientWithReplies<I, O>, FreeRtosError>)
        requires
            old(self).wf(),
            old(k).wf(),
            old(self).next_client_id() < usize::MAX,
        ensures
            final(self).wf(),
            final(k).wf(),
            Self::same_requests(old(self), final(self)),
            match r {
                Ok(c) => {
                    &&& client_receive_queue_size != 0
                    &&& Registry::<O>::can_add(old(k)@, client_receive_queue_size)
                    &&& c.client_reply().id() == old(self).next_client_id()
                    &&& c.processor_queue() == old(self).weak_handle()
                    &&& final(self).clients() == old(self).clients().push(
                        MailboxView {
                            id: old(self).next_client_id(),
                            items: Seq::empty(),
                            capacity: client_receive_queue_size as nat,
                        },
                    )
                    &&& final(self).next_client_id() == old(self).next_client_id() + 1
                    &&& final(k)@ == old(k)@.after_create(
                        queue_bytes(
                            client_receive_queue_size as u32,
                            vstd::layout::size_of::<O>() as u32,
                        ),
                    )
                },
                Err(e) => {
                    &&& final(self).clients() == old(self).clients()
                    &&& final(self).next_client_id() == old(self).next_client_id()
                    &&& final(k)@ == old(k)@
                    &&& client_receive_queue_size == 0 ==> e == FreeRtosError::InvalidQueueSize
                    &&& client_receive_queue_size != 0 ==> e == FreeRtosError::OutOfMemory
                        && !Registry::<O>::can_add(old(k)@, client_receive_queue_size)
                },
            },
    {
        if client_receive_queue_size == 0 {
            return Err(FreeRtosError::InvalidQueueSize);
        }
        let processor_queue = self.weak_queue();
        let client_reply = match self.inner.lock(k, max_wait) {
            Ok(mut processor) => {
                let added = processor.deref_mut().add(k, client_receive_queue_size);
                processor.unlock();
                match added {
                    Ok(id) => SharedClientWithReplyQueue { id, _reply: PhantomData },
                    Err(e) => {
                        return Err(e);
                    },
                }
            },
            Err(e) => {
                return Err(e);
            },
        };
        let c = ProcessorClient {
            processor_queue,
            client_reply: client_reply,
            _message: PhantomData,
        };
        Ok(c)
    }

    /// The queue of requests, to receive from; none once the processor has
    /// shut down.
    pub fn get_receive_queue(&mut self) -> (queue: Option<&mut Queue<I>>)
        requires
            old(self).wf(),
        ensures
            old(self).running() == (queue is Some),
            !old(self).running() ==> *final(self) == *old(self),
            queue matches Some(q) ==> {
                &&& q.wf()
                &&& q@ == old(self).pending()
                &&& q.capacity() == old(self).capacity()
                &&& q.handle() == old(self).queue_handle()
                &&& final(self).running()
                &&& final(self).pending() == final(q)@
                &&& final(self).capacity() == final(q).capacity()
                &&& final(self).queue_handle() == final(q).handle()
                &&& final(self).clients() == old(self).clients()
                &&& final(self).next_client_id() == old(self).next_client_id()
                &&& q.item_size() == vstd::layout::size_of::<I>() as u32
                &&& (final(q).wf() && final(q).item_size() == q.item_size() ==> final(self).wf())
            },
    {
        self.queue.as_mut()
    }

    /// Sends `reply` to the client that `received_message` asks a reply for.
    /// Returns whether there was such a client: `false` for a message that
    /// asks for no reply, and for a client that is gone. Where the client's
    /// queue has no room, the whole wait passes and the call fails with
    /// `QueueSendTimeout`.
    pub fn reply<D: DurationTicks>(
        &mut self,
        k: &mut Kernel,
        received_message: I,
        reply: O,
        max_wait: D,
    ) -> (r: Result<bool, FreeRtosError>)
        requires
            old(self).wf(),
            old(k).wf(),
            old(k)@.wait_ends(
                max_wait.ticks_of(),
                received_message.reply_to() matches Some(id) ==> !box_full(old(self).clients(), id),
            ),
        ensures
            final(self).wf(),
            final(k).wf(),
            Self::same_requests(old(self), final(self)),
            final(self).next_client_id() == old(self).next_client_id(),
            match r {
                Ok(found) => {
                    &&& final(k)@ == old(k)@
                    &&& !found ==> final(self).clients() == old(self).clients() && (
                    received_message.reply_to() matches Some(id) ==> no_box(
                        old(self).clients(),
                        id,
                    ))
                    &&& found ==> received_message.reply_to() is Some && delivered(
                        old(self).clients(),
                        final(self).clients(),
                        received_message.reply_to()->0,
                        reply,
                    )
                },
                Err(e) => {
                    &&& e == FreeRtosError::QueueSendTimeout
                    &&& final(self).clients() == old(self).clients()
                    &&& final(k)@ == old(k)@.after_wait(max_wait.ticks_of())
                    &&& received_message.reply_to() is Some && box_full(
                        old(self).clients(),
                        received_message.reply_to()->0,
                    )
                },
            },
    {
        if let Some(client_id) = received_message.reply_to_client_id() {
            match self.inner.lock(k, max_wait) {
                Ok(mut inner) => {
                    let r = inner.deref_mut().deliver(k, client_id, reply, max_wait);
                    inner.unlock();
                    r
                },
                Err(e) => Err(e),
            }
        } else {
            Ok(false)
        }
    }

    /// Shuts the processor down: its queue of requests is deleted with what is
    /// in it, and clients that send to it are told so from then on.
    pub fn shut_down(&mut self, k: &mut Kernel)
        requires
            old(self).wf(),
            old(k).wf(),
        ensures
            final(self).wf(),
            final(k).wf(),
            !final(self).running(),
            final(self).clients() == old(self).clients(),
            final(self).next_client_id() == old(self).next_client_id(),
            !old(self).running() ==> final(k)@ == old(k)@,
            old(self).running() ==> final(k)@ == old(k)@.after_delete(
                queue_bytes(old(self).capacity() as u32, vstd::layout::size_of::<I>() as u32),
            ),
    {
        match self.queue.take() {
            Some(q) => {
                q.delete(k);
            },
            None => {},
        }
    }
}

impl<I, O> Processor<I, O> where I: ReplyableMessage + Copy, O: Copy {
    /// The kernel after the processor's queue of requests was deleted, if it
    /// still had one.
    pub open spec fn after_shut_down(&self, k: KernelView) -> KernelView {
        if self.running() {
            k.after_delete(
                queue_bytes(self.capacity() as u32, vstd::layout::size_of::<I>() as u32),
            )
        } else {
            k
        }
    }

    /// Deletes the processor: its queue of requests, its registry of clients,
    /// and the queues of the clients that are left, the last first.
    pub fn delete(self, k: &mut Kernel)
        requires
            self.wf(),
            old(k).wf(),
        ensures
            final(k).wf(),
            final(k)@ == after_clear(
                self.after_shut_down(old(k)@).after_release(CONTROL_BLOCK_BYTES),
                self.clients(),
            ),
    {
        let mut this = self;
        this.shut_down(k);
        let Processor { queue, inner } = this;
        let mut clients = inner.into_inner(k);
        clients.clear(k);
    }
}

impl<I, O> Processor<InputMessage<I>, O> where I: Copy, O: Copy {
    /// Sends `reply` to the client that `received_message` asks a reply for.
    /// Returns whether there was such a client.
    pub fn reply_val<D: DurationTicks>(
        &mut self,
        k: &mut Kernel,
        received_message: InputMessage<I>,
        reply: O,
        max_wait: D,
    ) -> (r: Result<bool, FreeRtosError>)
        requires
            old(self).wf(),
            old(k).wf(),
            old(k)@.wait_ends(
                max_wait.ticks_of(),
                received_message@.1 matches Some(id) ==> !box_full(old(self).clients(), id),
            ),
        ensures
            final(self).wf(),
            final(k).wf(),
            Self::same_requests(old(self), final(self)),
            final(self).next_client_id() == old(self).next_client_id(),
            match r {
                Ok(found) => {
                    &&& final(k)@ == old(k)@
                    &&& !found ==> final(self).clients() == old(self).clients() && (
                    received_message@.1 matches Some(id) ==> no_box(old(self).clients(), id))
                    &&& found ==> received_message@.1 is Some && delivered(
                        old(self).clients(),
                        final(self).clients(),
                        received_message@.1->0,
                        reply,
                    )
                },
                Err(e) => {
                    &&& e == FreeRtosError::QueueSendTimeout
                    &&& final(self).clients() == old(self).clients()
                    &&& final(k)@ == old(k)@.after_wait(max_wait.ticks_of())
                    &&& received_message@.1 is Some && box_full(
                        old(self).clients(),
                        received_message@.1->0,
                    )
                },
            },
    {
        self.reply(k, received_message, reply, max_wait)
    }
}

/// A client of a processor: it knows the processor's queue by its handle.
pub struct ProcessorClient<I, C> {
    processor_queue: FreeRtosQueueHandle,
    client_reply: C,
    _message: PhantomData<I>,
}

impl<I, C> Clone for ProcessorClient<I, C> where C: Clone {
    fn clone(&self) -> (c: Self)
        ensures
            c.processor_queue() == self.processor_queue(),
            call_ensures(C::clone, (&self.client_reply(),), c.client_reply()),
    {
        ProcessorClient {
            processor_queue: self.processor_queue,
            client_reply: self.client_reply.clone(),
            _message: PhantomData,
        }
    }
}

impl<I, C> ProcessorClient<I, C> {
    /// The handle of the queue of the processor that the client belongs to;
    /// the null handle where that processor had shut down already.
    pub closed spec fn processor_queue(&self) -> FreeRtosQueueHandle {
        self.processor_queue
    }

    /// What the client gets its replies by.
    pub closed spec fn client_reply(&self) -> C {
        self.client_reply
    }
}

impl<I, C> ProcessorClient<I, C> where I: ReplyableMessage + Copy {
    /// Whether the processor `p` is the one the client belongs to, and still
    /// takes requests.
    pub open spec fn reaches<O: Copy>(&self, p: &Processor<I, O>) -> bool {
        p.running() && self.processor_queue() == p.queue_handle()
    }

    /// Whether `r` and the processor after are what sending `message` comes
    /// to, `timeout` being the error for a queue without room.
    pub open spec fn sent<O: Copy>(
        &self,
        before: &Processor<I, O>,
        after: &Processor<I, O>,
        message: I,
        timeout: FreeRtosError,
        r: Result<(), FreeRtosError>,
    ) -> bool {
        &&& after.running() == before.running()
        &&& after.running() ==> after.capacity() == before.capacity() && after.queue_handle()
            == before.queue_handle()
        &&& after.clients() == before.clients()
        &&& after.next_client_id() == before.next_client_id()
        &&& if !self.reaches(before) {
            &&& r == Err::<(), FreeRtosError>(FreeRtosError::ProcessorHasShutDown)
            &&& after.running() ==> after.pending() == before.pending()
        } else if send_accepted(before.pending(), before.capacity()) {
            &&& r == Ok::<(), FreeRtosError>(())
            &&& after.pending() == before.pending().push(message)
        } else {
            &&& r == Err::<(), FreeRtosError>(timeout)
            &&& after.pending() == before.pending()
        }
    }

    /// Whether a send to the processor `p` has to wait: the client reaches the
    /// processor, and its queue has no room.
    pub open spec fn must_wait<O: Copy>(&self, p: &Processor<I, O>) -> bool {
        self.reaches(p) && !send_accepted(p.pending(), p.capacity())
    }

    /// Sends a message to the processor. Fails with `ProcessorHasShutDown`
    /// where the client's processor takes no requests any more, and with
    /// `QueueSendTimeout`, after the whole wait, where its queue has no room.
    pub fn send<O: Copy, D: DurationTicks>(
        &self,
        processor: &mut Processor<I, O>,
        k: &mut Kernel,
        message: I,
        max_wait: D,
    ) -> (r: Result<(), FreeRtosError>)
        requires
            old(processor).wf(),
            old(k).wf(),
            old(k)@.wait_ends(max_wait.ticks_of(), !self.must_wait(old(processor))),
        ensures
            final(processor).wf(),
            final(k).wf(),
            self.sent(
                old(processor),
                final(processor),
                message,
                FreeRtosError::QueueSendTimeout,
                r,
            ),
            self.must_wait(old(processor)) ==> final(k)@ == old(k)@.after_wait(
                max_wait.ticks_of(),
            ),
            !self.must_wait(old(processor)) ==> final(k)@ == old(k)@,
    {
        let known = self.processor_queue;
        match processor.get_receive_queue() {
            Some(queue) => {
                if queue.raw_handle() != known {
                    return Err(FreeRtosError::ProcessorHasShutDown);
                }
                match queue.send(k, message, max_wait) {
                    Ok(_) => Ok(()),
                    Err(err) => Err(err.error()),
                }
            },
            None => Err(FreeRtosError::ProcessorHasShutDown),
        }
    }

    /// Sends a message to the processor from an interrupt. Fails with
    /// `ProcessorHasShutDown` where the client's processor takes no requests
    /// any more, and with `QueueFull` where its queue has no room.
    pub fn send_from_isr<O: Copy>(
        &self,
        processor: &mut Processor<I, O>,
        context: &mut InterruptContext,
        message: I,
    ) -> (r: Result<(), FreeRtosError>)
        requires
            old(processor).wf(),
        ensures
            final(processor).wf(),
            final(context)@ == old(context)@,
            self.sent(old(processor), final(processor), message, FreeRtosError::QueueFull, r),
    {
        let known = self.processor_queue;
        match processor.get_receive_queue() {
            Some(queue) => {
                if queue.raw_handle() != known {
                    return Err(FreeRtosError::ProcessorHasShutDown);
                }
                match queue.send_from_isr(context, message) {
                    Ok(_) => Ok(()),
                    Err(err) => Err(err.error()),
                }
            },
            None => Err(FreeRtosError::ProcessorHasShutDown),
        }
    }
}

impl<I> ProcessorClient<InputMessage<I>, ()> where I: Copy {
    /// Sends a value to the processor, asking for no reply.
    pub fn send_val<O: Copy, D: DurationTicks>(
        &self,
        processor: &mut Processor<InputMessage<I>, O>,
        k: &mut Kernel,
        val: I,
        max_wait: D,
    ) -> (r: Result<(), FreeRtosError>)
        requires
            old(processor).wf(),
            old(k).wf(),
            old(k)@.wait_ends(max_wait.ticks_of(), !self.must_wait(old(processor))),
        ensures
            final(processor).wf(),
            final(k).wf(),
            exists|message: InputMessage<I>|
                message@ == (val, None::<usize>) && #[trigger] self.sent(
                    old(processor),
                    final(processor),
                    message,
                    FreeRtosError::QueueSendTimeout,
                    r,
                ),
            self.must_wait(old(processor)) ==> final(k)@ == old(k)@.after_wait(
                max_wait.ticks_of(),
            ),
            !self.must_wait(old(processor)) ==> final(k)@ == old(k)@,
    {
        self.send(processor, k, InputMessage::request(val), max_wait)
    }

    /// Sends a value to the processor from an interrupt, asking for no reply.
    pub fn send_val_from_isr<O: Copy>(
        &self,
        processor: &mut Processor<InputMessage<I>, O>,
        context: &mut InterruptContext,
        val: I,
    ) -> (r: Result<(), FreeRtosError>)
        requires
            old(processor).wf(),
        ensures
            final(processor).wf(),
            final(context)@ == old(context)@,
            exists|message: InputMessage<I>|
                message@ == (val, None::<usize>) && #[trigger] self.sent(
                    old(processor),
                    final(processor),
                    message,
                    FreeRtosError::QueueFull,
                    r,
                ),
    {
        self.send_from_isr(processor, context, InputMessage::request(val))
    }
}

impl<I, O> ProcessorClient<I, SharedClientWithReplyQueue<O>> where
    I: ReplyableMessage + Copy,
    O: Copy,
 {
    /// Takes the oldest reply that waits for the client. Where none waits,
    /// the whole wait passes and the call fails with `QueueReceiveTimeout`.
    pub fn receive<D: DurationTicks>(
        &self,
        processor: &mut Processor<I, O>,
        k: &mut Kernel,
        max_wait: D,
    ) -> (r: Result<O, FreeRtosError>)
        requires
            old(processor).wf(),
            old(k).wf(),
            old(k)@.wait_ends(
                max_wait.ticks_of(),
                !nothing_waits(old(processor).clients(), self.client_reply().id()),
            ),
        ensures
            final(processor).wf(),
            final(k).wf(),
            Processor::same_requests(old(processor), final(processor)),
            final(processor).next_client_id() == old(processor).next_client_id(),
            match r {
                Ok(reply) => final(k)@ == old(k)@ && collected(
                    old(processor).clients(),
                    final(processor).clients(),
                    self.client_reply().id(),
                    reply,
                ),
                Err(e) => {
                    &&& e == FreeRtosError::QueueReceiveTimeout
                    &&& final(processor).clients() == old(processor).clients()
                    &&& final(k)@ == old(k)@.after_wait(max_wait.ticks_of())
                    &&& nothing_waits(old(processor).clients(), self.client_reply().id())
                },
            },
    {
        let id = self.client_reply.id;
        match processor.inner.lock(k, max_wait) {
            Ok(mut inner) => {
                let r = inner.deref_mut().collect(k, id, max_wait);
                inner.unlock();
                r
            },
            Err(e) => Err(e),
        }
    }

    /// The queue of the replies that wait for the client, to receive from
    /// directly; none once the processor has forgotten the client. The
    /// processor stays well formed as long as the queue does.
    pub fn get_receive_queue<'a>(&self, processor: &'a mut Processor<I, O>) -> (queue: Option<
        &'a mut Queue<O>,
    >)
        requires
            old(processor).wf(),
        ensures
            queue is None <==> no_box(old(processor).clients(), self.client_reply().id()),
            queue is None ==> {
                &&& final(processor).wf()
                &&& final(processor).clients() == old(processor).clients()
                &&& final(processor).next_client_id() == old(processor).next_client_id()
                &&& Processor::same_requests(old(processor), final(processor))
            },
            queue matches Some(q) ==> {
                &&& lent(
                    old(processor).clients(),
                    final(processor).clients(),
                    self.client_reply().id(),
                    *q,
                    *final(q),
                )
                &&& Processor::same_requests(old(processor), final(processor))
                &&& final(processor).next_client_id() == old(processor).next_client_id()
                &&& (final(q).wf() && final(q).item_size() == q.item_size() ==> final(processor).wf())
            },
    {
        processor.inner.get_mut().queue_mut(self.client_reply.id)
    }

    /// Sends a message to the processor, then waits for a reply. Fails as
    /// [`ProcessorClient::send`] does where the message is not sent, and as
    /// [`ProcessorClient::receive`] does where no reply waits after that.
    pub fn call<D: DurationTicks>(
        &self,
        processor: &mut Processor<I, O>,
        k: &mut Kernel,
        message: I,
        max_wait: D,
    ) -> (r: Result<O, FreeRtosError>)
        requires
            old(processor).wf(),
            old(k).wf(),
            old(k)@.wait_ends(
                max_wait.ticks_of(),
                !self.must_wait(old(processor)) && (self.reaches(old(processor))
                    ==> !nothing_waits(old(processor).clients(), self.client_reply().id())),
            ),
        ensures
            final(processor).wf(),
            final(k).wf(),
            final(processor).next_client_id() == old(processor).next_client_id(),
            Self::called(
                self,
                old(processor),
                final(processor),
                old(k)@,
                final(k)@,
                message,
                max_wait.ticks_of(),
                r,
            ),
    {
        match self.send(processor, k, message, max_wait) {
            Ok(_) => {},
            Err(e) => {
                return Err(e);
            },
        }
        self.receive(processor, k, max_wait)
    }

    /// Whether `r` and the state after are what a call with `message` and a
    /// wait of `ticks` comes to.
    pub open spec fn called(
        &self,
        before: &Processor<I, O>,
        after: &Processor<I, O>,
        k_before: KernelView,
        k_after: KernelView,
        message: I,
        ticks: u32,
        r: Result<O, FreeRtosError>,
    ) -> bool {
        if !self.reaches(before) {
            &&& r == Err::<O, FreeRtosError>(FreeRtosError::ProcessorHasShutDown)
            &&& k_after == k_before
            &&& after.clients() == before.clients()
            &&& Processor::same_requests(before, after)
        } else if !send_accepted(before.pending(), before.capacity()) {
            &&& r == Err::<O, FreeRtosError>(FreeRtosError::QueueSendTimeout)
            &&& k_after == k_before.after_wait(ticks)
            &&& after.clients() == before.clients()
            &&& Processor::same_requests(before, after)
        } else {
            &&& after.running()
            &&& after.pending() == before.pending().push(message)
            &&& after.capacity() == before.capacity()
            &&& after.queue_handle() == before.queue_handle()
            &&& match r {
                Ok(reply) => k_after == k_before && collected(
                    before.clients(),
                    after.clients(),
                    self.client_reply().id(),
                    reply,
                ),
                Err(e) => {
                    &&& e == FreeRtosError::QueueReceiveTimeout
                    &&& after.clients() == before.clients()
                    &&& k_after == k_before.after_wait(ticks)
                    &&& nothing_waits(before.clients(), self.client_reply().id())
                },
            }
        }
    }

    /// Ends the client: the processor forgets it, and the queue of its replies
    /// is deleted with what is in it. Returns whether the processor still
    /// knew the client. The kernel's tick period must not be zero.
    pub fn disconnect(self, processor: &mut Processor<I, O>, k: &mut Kernel) -> (known: bool)
        requires
            old(processor).wf(),
            old(k).wf(),
            old(k)@.tick_period_ms > 0,
        ensures
            final(processor).wf(),
            final(k).wf(),
            Processor::same_requests(old(processor), final(processor)),
            final(processor).next_client_id() == old(processor).next_client_id(),
            !known ==> final(processor).clients() == old(processor).clients() && final(k)@ == old(k)@ && no_box(old(processor).clients(), self.client_reply().id()),
            known ==> removed(
                old(processor).clients(),
                final(processor).clients(),
                self.client_reply().id(),
                old(k)@,
                final(k)@,
            ),
    {
        let wait = Duration::from_ms(k, 1000);
        match processor.inner.lock(k, wait) {
            Ok(mut p) => {
                let known = p.deref_mut().remove(k, self.client_reply.id);
                p.unlock();
                known
            },
            Err(_) => false,
        }
    }
}

impl<I, O> ProcessorClient<InputMessage<I>, SharedClientWithReplyQueue<O>> where
    I: Copy,
    O: Copy,
 {
    /// Sends a value to the processor, asking for no reply.
    pub fn send_val<D: DurationTicks>(
        &self,
        processor: &mut Processor<InputMessage<I>, O>,
        k: &mut Kernel,
        val: I,
        max_wait: D,
    ) -> (r: Result<(), FreeRtosError>)
        requires
            old(processor).wf(),
            old(k).wf(),
            old(k)@.wait_ends(max_wait.ticks_of(), !self.must_wait(old(processor))),
        ensures
            final(processor).wf(),
            final(k).wf(),
            exists|message: InputMessage<I>|
                message@ == (val, None::<usize>) && #[trigger] self.sent(
                    old(processor),
                    final(processor),
                    message,
                    FreeRtosError::QueueSendTimeout,
                    r,
                ),
            self.must_wait(old(processor)) ==> final(k)@ == old(k)@.after_wait(
                max_wait.ticks_of(),
            ),
            !self.must_wait(old(processor)) ==> final(k)@ == old(k)@,
    {
        self.send(processor, k, InputMessage::request(val), max_wait)
    }

    /// Sends a value to the processor with the client's own number to reply
    /// to, then waits for a reply.
    pub fn call_val<D: DurationTicks>(
        &self,
        processor: &mut Processor<InputMessage<I>, O>,
        k: &mut Kernel,
        val: I,
        max_wait: D,
    ) -> (r: Result<O, FreeRtosError>)
        requires
            old(processor).wf(),
            old(k).wf(),
            old(k)@.wait_ends(
                max_wait.ticks_of(),
                !self.must_wait(old(processor)) && (self.reaches(old(processor))
                    ==> !nothing_waits(old(processor).clients(), self.client_reply().id())),
            ),
        ensures
            final(processor).wf(),
            final(k).wf(),
            final(processor).next_client_id() == old(processor).next_client_id(),
            exists|message: InputMessage<I>|
                message@ == (val, Some(self.client_reply().id())) && #[trigger] Self::called(
                    self,
                    old(processor),
                    final(processor),
                    old(k)@,
                    final(k)@,
                    message,
                    max_wait.ticks_of(),
                    r,
                ),
    {
        let reply = self.call(
            processor,
            k,
            InputMessage::request_with_reply(val, self.client_reply.id),
            max_wait,
        );
        reply
    }
}

} // verus!
