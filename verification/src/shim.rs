//! The kernel boundary: a sequential reference model of the kernel, and the
//! entry points through which the wrappers reach it.
//!
//! The model keeps what belongs to the kernel as a whole: the clock, the heap
//! budget, the table of tasks with their notification words, the scheduler's
//! state and the nesting of critical sections. Objects with a single owner
//! (queues, semaphores, mutexes, timers, event groups) carry their own state in
//! their wrapper and come to the kernel for memory, for time and for the
//! identity of the running task.
//!
//! One task runs at a time. A call that the kernel would block can only be
//! ended by its timeout here, so it waits the timeout out: the clock moves on
//! by the wait and the call reports failure. A wait of `max_wait` ticks is the
//! wait without end: no timeout ends it, and with one task nothing else can.
//! So a call that would block is never made with that wait; each blocking
//! call asks so of its caller.
#![allow(non_snake_case)]

use vstd::prelude::*;
use crate::base::FreeRtosBaseType;
use crate::base::FreeRtosTaskHandle;
use crate::base::FreeRtosTaskState;
use crate::base::FreeRtosTaskStatusFfi;
use crate::base::FreeRtosTickType;
use crate::base::FreeRtosUBaseType;

verus! {

/// Bytes of kernel heap that the control block of any kernel object takes.
pub const CONTROL_BLOCK_BYTES: usize = 64;

/// Requests to the timer service that can wait for it at a time.
pub const TIMER_QUEUE_LENGTH: u32 = 10;

/// Bytes of a task name that the kernel keeps, the terminator not counted.
pub const MAX_TASK_NAME_LEN: usize = 15;

/// How a kernel is set up.
#[derive(Copy, Clone, Debug)]
pub struct KernelConfig {
    /// Milliseconds per tick.
    pub tick_period_ms: FreeRtosTickType,
    /// The longest wait, in ticks: the "wait forever" sentinel.
    pub max_wait: FreeRtosTickType,
    /// Bytes of heap the kernel manages.
    pub heap_size: usize,
    /// Bytes of a pointer on the target the kernel was built for.
    pub word_bytes: u8,
}

/// The kernel's record of one task.
pub struct TaskControl {
    name: Vec<u8>,
    stack_size: u16,
    priority: FreeRtosUBaseType,
    state: FreeRtosTaskState,
    number: FreeRtosUBaseType,
    notification: u32,
    notified: bool,
    run_time: u32,
}

/// What a [`TaskControl`] holds, as plain values.
pub struct TaskView {
    pub name: Seq<u8>,
    pub stack_size: u16,
    pub priority: FreeRtosUBaseType,
    pub state: FreeRtosTaskState,
    pub number: FreeRtosUBaseType,
    /// The task's notification word.
    pub notification: u32,
    /// Whether a notification is pending.
    pub notified: bool,
    pub run_time: u32,
}

impl View for TaskControl {
    type V = TaskView;

    closed spec fn view(&self) -> TaskView {
        TaskView {
            name: self.name@,
            stack_size: self.stack_size,
            priority: self.priority,
            state: self.state,
            number: self.number,
            notification: self.notification,
            notified: self.notified,
            run_time: self.run_time,
        }
    }
}

/// The reference model of the kernel.
pub struct Kernel {
    tick_period_ms: FreeRtosTickType,
    max_wait: FreeRtosTickType,
    word_bytes: u8,
    tick_count: FreeRtosTickType,
    total_run_time: u32,
    heap_size: usize,
    heap_free: usize,
    next_handle: usize,
    tasks: Vec<TaskControl>,
    current: FreeRtosTaskHandle,
    started: bool,
    suspend_depth: FreeRtosUBaseType,
    critical_depth: FreeRtosUBaseType,
    yield_pending: bool,
    timer_commands: u32,
}

/// What a [`Kernel`] holds, as plain values.
pub struct KernelView {
    pub tick_period_ms: FreeRtosTickType,
    pub max_wait: FreeRtosTickType,
    pub word_bytes: u8,
    pub tick_count: FreeRtosTickType,
    pub total_run_time: u32,
    pub heap_size: usize,
    pub heap_free: usize,
    /// The handle that the next object created will get.
    pub next_handle: usize,
    /// The task with handle `h` is `tasks[h - 1]`.
    pub tasks: Seq<TaskView>,
    /// The handle of the running task; zero while no task runs.
    pub current: FreeRtosTaskHandle,
    pub started: bool,
    pub suspend_depth: FreeRtosUBaseType,
    pub critical_depth: FreeRtosUBaseType,
    /// Whether an interrupt has asked for a context switch since the last one.
    pub yield_pending: bool,
    /// How many requests wait for the timer service, which takes them once
    /// the scheduler runs.
    pub timer_commands: u32,
}

/// The tick count `wait` ticks after `now`: the counter wraps.
pub open spec fn ticks_after(now: FreeRtosTickType, wait: FreeRtosTickType) -> FreeRtosTickType {
    ((now + wait) % 0x1_0000_0000) as u32
}

/// The ticks from `earlier` to `now` on the wrapping counter.
pub open spec fn ticks_between(earlier: FreeRtosTickType, now: FreeRtosTickType) -> FreeRtosTickType {
    ((now - earlier) % 0x1_0000_0000) as u32
}

/// A size as the kernel reports it, in one byte: 0 for a size that one byte
/// cannot hold.
pub open spec fn reported_size(size: nat) -> u8 {
    if size <= 255 {
        size as u8
    } else {
        0
    }
}

/// The size the kernel reports for the boundary type with the given number,
/// on a target whose pointers take `word_bytes` bytes. The record of a task's
/// status and the state of a task cross the boundary as the kernel keeps them,
/// so their sizes are those of the kernel's own types.
pub open spec fn spec_sizeof(word_bytes: u8, type_id: u8) -> u8 {
    if type_id == 0 || type_id == 1 || (20 <= type_id && type_id <= 25) {
        word_bytes
    } else if type_id == 2 {
        1
    } else if type_id == 10 || type_id == 11 || type_id == 12 || type_id == 32 {
        4
    } else if type_id == 30 {
        reported_size(vstd::layout::size_of::<FreeRtosTaskStatusFfi>())
    } else if type_id == 31 {
        reported_size(vstd::layout::size_of::<FreeRtosTaskState>())
    } else if type_id == 33 {
        2
    } else {
        0
    }
}

/// The task name the kernel keeps for `name` handed over with length
/// `name_len`: the first `name_len` bytes, at most [`MAX_TASK_NAME_LEN`], cut
/// before the first zero byte.
pub open spec fn stored_name(name: Seq<u8>, name_len: u8) -> Seq<u8> {
    c_string(
        name.take(
            if name_len as int > MAX_TASK_NAME_LEN as int {
                MAX_TASK_NAME_LEN as int
            } else {
                name_len as int
            },
        ),
    )
}

/// The index of the first zero byte of `buf`; its length if it has none.
pub open spec fn first_zero(buf: Seq<u8>) -> int
    decreases buf.len(),
{
    if buf.len() == 0 || buf[0] == 0 {
        0
    } else {
        1 + first_zero(buf.skip(1))
    }
}

/// The bytes of `buf` before its first zero byte; all of `buf` if it has none.
pub open spec fn c_string(buf: Seq<u8>) -> Seq<u8> {
    buf.take(first_zero(buf))
}

/// `n` is the index of the first zero byte of `buf` when no byte before it is
/// zero and the buffer ends there or holds zero there.
pub proof fn lemma_first_zero(buf: Seq<u8>, n: int)
    requires
        0 <= n <= buf.len(),
        forall|j: int| 0 <= j < n ==> buf[j] != 0,
        n == buf.len() || buf[n] == 0,
    ensures
        first_zero(buf) == n,
    decreases n,
{
    if n > 0 {
        let rest = buf.skip(1);
        assert forall|j: int| 0 <= j < n - 1 implies rest[j] != 0 by {
            assert(rest[j] == buf[j + 1]);
        }
        lemma_first_zero(rest, n - 1);
    }
}

/// The notification word after a notification with the given value and action
/// code reaches a task whose word is `word`.
pub open spec fn notified_word(word: u32, value: u32, action: u8) -> u32 {
    if action == 1 {
        word | value
    } else if action == 2 {
        ticks_after(word, 1)
    } else if action == 3 || action == 4 {
        value
    } else {
        word
    }
}

/// Whether the kernel takes a notification with the given action code for a
/// task with or without a notification pending.
pub open spec fn notification_accepted(notified: bool, action: u8) -> bool {
    action <= 4 && !(action == 4 && notified)
}

impl TaskView {
    /// The task as the kernel creates it.
    pub open spec fn created(name: Seq<u8>, stack_size: u16, priority: FreeRtosUBaseType) -> TaskView {
        TaskView {
            name,
            stack_size,
            priority,
            state: FreeRtosTaskState::Ready,
            number: 0,
            notification: 0,
            notified: false,
            run_time: 0,
        }
    }

    /// The task after a notification reached it.
    pub open spec fn after_notify(self, value: u32, action: u8) -> TaskView {
        if notification_accepted(self.notified, action) {
            TaskView {
                notification: notified_word(self.notification, value, action),
                notified: true,
                ..self
            }
        } else {
            self
        }
    }

    /// The task after it waited for a notification.
    pub open spec fn after_notify_wait(self, clear_on_entry: u32, clear_on_exit: u32) -> TaskView {
        if self.notified {
            TaskView { notification: self.notification & !clear_on_exit, notified: false, ..self }
        } else {
            TaskView { notification: self.notification & !clear_on_entry, notified: false, ..self }
        }
    }

    /// The task after it took its notification word as a counter.
    pub open spec fn after_notify_take(self, clear: bool) -> TaskView {
        TaskView {
            notification: if self.notification == 0 || clear {
                0
            } else {
                (self.notification - 1) as u32
            },
            notified: false,
            ..self
        }
    }

    /// The row of the kernel's snapshot for the task under handle `handle`.
    pub open spec fn status_row(self, handle: FreeRtosTaskHandle, row: FreeRtosTaskStatusFfi) -> bool {
        &&& row.handle == handle
        &&& row.task_name@ == self.name
        &&& row.task_number == self.number
        &&& row.task_state == self.state
        &&& row.current_priority == self.priority
        &&& row.base_priority == self.priority
        &&& row.run_time_counter == self.run_time
        &&& row.stack_high_water_mark == self.stack_size
    }
}

impl KernelView {
    /// The kernel as it is set up from `config`.
    pub open spec fn initial(config: KernelConfig) -> KernelView {
        KernelView {
            tick_period_ms: config.tick_period_ms,
            max_wait: config.max_wait,
            word_bytes: config.word_bytes,
            tick_count: 0,
            total_run_time: 0,
            heap_size: config.heap_size,
            heap_free: config.heap_size,
            next_handle: 1,
            tasks: Seq::empty(),
            current: 0,
            started: false,
            suspend_depth: 0,
            critical_depth: 0,
            yield_pending: false,
            timer_commands: 0,
        }
    }

    /// What holds of every kernel.
    pub open spec fn wf(self) -> bool {
        &&& self.timer_commands <= TIMER_QUEUE_LENGTH
        &&& self.started ==> self.timer_commands == 0
        &&& self.heap_free <= self.heap_size
        &&& self.next_handle >= 1
        &&& self.tasks.len() <= u32::MAX
        &&& self.current <= self.tasks.len()
        &&& forall|i: int|
            0 <= i < self.tasks.len() ==> ((#[trigger] self.tasks[i]).state
                == FreeRtosTaskState::Running <==> self.current == i + 1)
    }

    /// Whether `task` is the handle of a task.
    pub open spec fn is_task(self, task: FreeRtosTaskHandle) -> bool {
        1 <= task <= self.tasks.len()
    }

    /// The task with handle `task`.
    pub open spec fn task(self, task: FreeRtosTaskHandle) -> TaskView
        recommends
            self.is_task(task),
    {
        self.tasks[task - 1]
    }

    /// The kernel with `task` replaced by `t`.
    pub open spec fn with_task(self, task: FreeRtosTaskHandle, t: TaskView) -> KernelView
        recommends
            self.is_task(task),
    {
        KernelView { tasks: self.tasks.update(task - 1, t), ..self }
    }

    /// The task that a handle stands for where zero names the running task.
    pub open spec fn resolve(self, task: FreeRtosTaskHandle) -> FreeRtosTaskHandle {
        if task == 0 {
            self.current
        } else {
            task
        }
    }

    /// Whether the scheduler may switch tasks now.
    pub open spec fn may_switch(self) -> bool {
        self.started && self.suspend_depth == 0 && self.critical_depth == 0
    }

    /// The code the kernel reports for the scheduler's state.
    pub open spec fn scheduler_code(self) -> FreeRtosBaseType {
        if !self.started {
            1
        } else if self.suspend_depth == 0 {
            2
        } else {
            0
        }
    }

    /// Whether a call that waits up to `ticks` ticks for something comes to an
    /// end: it does where what it waits for is there, and where the wait is
    /// not the wait without end.
    pub open spec fn wait_ends(self, ticks: FreeRtosTickType, satisfied: bool) -> bool {
        satisfied || ticks != self.max_wait
    }

    /// The kernel after the running task has waited `ticks` ticks.
    pub open spec fn after_wait(self, ticks: FreeRtosTickType) -> KernelView {
        KernelView {
            tick_count: ticks_after(self.tick_count, ticks),
            total_run_time: ticks_after(self.total_run_time, ticks),
            ..self
        }
    }

    /// The kernel after the running task has computed for `ticks` ticks.
    pub open spec fn after_run(self, ticks: FreeRtosTickType) -> KernelView {
        let k = self.after_wait(ticks);
        if self.current == 0 {
            k
        } else {
            k.with_task(
                self.current,
                TaskView {
                    run_time: ticks_after(self.task(self.current).run_time, ticks),
                    ..self.task(self.current)
                },
            )
        }
    }

    /// Whether `bytes` bytes of heap can be had.
    pub open spec fn can_allocate(self, bytes: usize) -> bool {
        bytes <= self.heap_free && self.next_handle < usize::MAX
    }

    /// The kernel after it gave out `bytes` bytes of heap under a new handle.
    pub open spec fn after_allocate(self, bytes: usize) -> KernelView {
        KernelView {
            heap_free: (self.heap_free - bytes) as usize,
            next_handle: (self.next_handle + 1) as usize,
            ..self
        }
    }

    /// The kernel after `bytes` bytes of heap came back.
    pub open spec fn after_release(self, bytes: usize) -> KernelView {
        KernelView {
            heap_free: if self.heap_free + bytes > self.heap_size {
                self.heap_size
            } else {
                (self.heap_free + bytes) as usize
            },
            ..self
        }
    }

    /// Whether an object that takes `bytes` bytes of heap, control block
    /// included, can be created.
    pub open spec fn can_create(self, bytes: int) -> bool {
        0 <= bytes <= usize::MAX && self.can_allocate(bytes as usize)
    }

    /// The kernel after it created an object that takes `bytes` bytes of heap.
    pub open spec fn after_create(self, bytes: int) -> KernelView {
        self.after_allocate(bytes as usize)
    }

    /// The kernel after it deleted an object that took `bytes` bytes of heap.
    pub open spec fn after_delete(self, bytes: int) -> KernelView {
        if 0 <= bytes <= usize::MAX {
            self.after_release(bytes as usize)
        } else {
            self
        }
    }

    /// The heap a task with a stack of `stack_size` words takes.
    pub open spec fn task_bytes(self, stack_size: u16) -> usize {
        (stack_size * self.word_bytes + CONTROL_BLOCK_BYTES) as usize
    }

    /// Whether a task with a stack of `stack_size` words can be created.
    pub open spec fn can_spawn(self, stack_size: u16) -> bool {
        self.task_bytes(stack_size) <= self.heap_free && self.tasks.len() < u32::MAX
    }

    /// The kernel after it created a task.
    pub open spec fn after_spawn(self, name: Seq<u8>, stack_size: u16, priority: FreeRtosUBaseType) -> KernelView {
        KernelView {
            heap_free: (self.heap_free - self.task_bytes(stack_size)) as usize,
            tasks: self.tasks.push(TaskView::created(name, stack_size, priority)),
            ..self
        }
    }

    /// Whether the scheduler can hand the processor to `task`.
    pub open spec fn can_switch_to(self, task: FreeRtosTaskHandle) -> bool {
        &&& self.may_switch()
        &&& self.is_task(task)
        &&& (self.task(task).state == FreeRtosTaskState::Ready || self.current == task)
    }

    /// The kernel after the scheduler handed the processor to `task`.
    pub open spec fn after_switch_to(self, task: FreeRtosTaskHandle) -> KernelView {
        let parked = if self.current == 0 {
            self.tasks
        } else {
            self.tasks.update(
                self.current - 1,
                TaskView { state: FreeRtosTaskState::Ready, ..self.task(self.current) },
            )
        };
        KernelView {
            tasks: parked.update(
                task - 1,
                TaskView { state: FreeRtosTaskState::Running, ..self.task(task) },
            ),
            current: task,
            yield_pending: false,
            ..self
        }
    }

    /// Whether the timer service's queue takes a request: the service takes
    /// each at once while the scheduler runs, and until then the queue holds
    /// up to [`TIMER_QUEUE_LENGTH`] of them.
    pub open spec fn timer_request_accepted(self) -> bool {
        self.started || self.timer_commands < TIMER_QUEUE_LENGTH
    }

    /// The kernel after a request was made to the timer service.
    pub open spec fn after_timer_request(self) -> KernelView {
        if !self.started && self.timer_commands < TIMER_QUEUE_LENGTH {
            KernelView { timer_commands: (self.timer_commands + 1) as u32, ..self }
        } else {
            self
        }
    }

    /// The kernel after `task` was suspended, the null handle standing for the
    /// running task: the task is suspended, and no task runs if it was the
    /// running one.
    pub open spec fn after_suspend(self, task: FreeRtosTaskHandle) -> KernelView {
        let t = self.resolve(task);
        if self.is_task(t) {
            KernelView {
                tasks: self.tasks.update(
                    t - 1,
                    TaskView { state: FreeRtosTaskState::Suspended, ..self.task(t) },
                ),
                current: if self.current == t {
                    0
                } else {
                    self.current
                },
                ..self
            }
        } else {
            self
        }
    }

    /// The kernel after `task` was resumed: a suspended task is ready again,
    /// and nothing changes for any other handle.
    pub open spec fn after_resume(self, task: FreeRtosTaskHandle) -> KernelView {
        if self.is_task(task) && self.task(task).state == FreeRtosTaskState::Suspended {
            self.with_task(task, TaskView { state: FreeRtosTaskState::Ready, ..self.task(task) })
        } else {
            self
        }
    }

    /// The kernel after `task` was sent a notification.
    pub open spec fn after_notify(self, task: FreeRtosTaskHandle, value: u32, action: u8) -> KernelView {
        if self.is_task(task) {
            self.with_task(task, self.task(task).after_notify(value, action))
        } else {
            self
        }
    }

    /// Whether the kernel takes a notification for `task`.
    pub open spec fn notify_accepted(self, task: FreeRtosTaskHandle, action: u8) -> bool {
        self.is_task(task) && notification_accepted(self.task(task).notified, action)
    }

    /// Whether a wait of the running task for a notification ends at once.
    pub open spec fn notification_ready(self) -> bool {
        self.current != 0 && self.task(self.current).notified
    }

    /// The kernel after the running task waited up to `wait` ticks for a
    /// notification.
    pub open spec fn after_notify_wait(
        self,
        clear_on_entry: u32,
        clear_on_exit: u32,
        wait: FreeRtosTickType,
    ) -> KernelView {
        if self.current == 0 {
            self.after_wait(wait)
        } else if self.task(self.current).notified {
            self.with_task(
                self.current,
                self.task(self.current).after_notify_wait(clear_on_entry, clear_on_exit),
            )
        } else {
            self.with_task(
                self.current,
                self.task(self.current).after_notify_wait(clear_on_entry, clear_on_exit),
            ).after_wait(wait)
        }
    }

    /// The value that the running task's take of its notification word gives.
    pub open spec fn notify_take_value(self) -> u32 {
        if self.current == 0 {
            0
        } else {
            self.task(self.current).notification
        }
    }

    /// The kernel after the running task took its notification word, waiting up
    /// to `wait` ticks for it to be other than zero.
    pub open spec fn after_notify_take(self, clear: bool, wait: FreeRtosTickType) -> KernelView {
        if self.current == 0 {
            self.after_wait(wait)
        } else if self.task(self.current).notification != 0 {
            self.with_task(self.current, self.task(self.current).after_notify_take(clear))
        } else {
            self.with_task(self.current, self.task(self.current).after_notify_take(clear)).after_wait(
                wait,
            )
        }
    }
}

/// The heap a queue of `length` items of `item_size` bytes takes.
pub open spec fn queue_bytes(length: FreeRtosUBaseType, item_size: FreeRtosUBaseType) -> int {
    length * item_size + CONTROL_BLOCK_BYTES
}

/// A wait of no ticks changes nothing in the kernel: a call that does not
/// wait takes no time.
pub proof fn lemma_no_wait(k: KernelView)
    ensures
        k.after_wait(0) == k,
{
}

/// What the kernel gives out comes back whole: creating an object and
/// deleting it again leaves the heap as it was, and uses up one handle.
pub proof fn lemma_heap_comes_back(k: KernelView, bytes: int)
    requires
        k.wf(),
        k.can_create(bytes),
    ensures
        k.after_create(bytes).wf(),
        k.after_create(bytes).heap_free == k.heap_free - bytes,
        k.after_create(bytes).after_delete(bytes).heap_free == k.heap_free,
        k.after_create(bytes).after_delete(bytes) == (KernelView {
            next_handle: (k.next_handle + 1) as usize,
            ..k
        }),
{
}

/// Waits add up on the wrapping clock: a wait of `a` ticks and then one of `b`
/// ticks leave the kernel as one wait of both together does.
pub proof fn lemma_waits_add_up(k: KernelView, a: FreeRtosTickType, b: FreeRtosTickType)
    ensures
        k.after_wait(a).after_wait(b) == k.after_wait(ticks_after(a, b)),
{
    lemma_ticks_add_up(k.tick_count, a, b);
    lemma_ticks_add_up(k.total_run_time, a, b);
}

/// Ticks add up on the wrapping counter.
pub proof fn lemma_ticks_add_up(now: FreeRtosTickType, a: FreeRtosTickType, b: FreeRtosTickType)
    ensures
        ticks_after(ticks_after(now, a), b) == ticks_after(now, ticks_after(a, b)),
{
    let m = 0x1_0000_0000int;
    let first = if now + a >= m {
        now + a - m
    } else {
        now + a
    };
    assert(ticks_after(now, a) == first);
    let both = if a + b >= m {
        a + b - m
    } else {
        a + b
    };
    assert(ticks_after(a, b) == both);
    let left = if first + b >= m {
        first + b - m
    } else {
        first + b
    };
    assert(ticks_after(first as u32, b) == left);
    let right = if now + both >= m {
        now + both - m
    } else {
        now + both
    };
    assert(ticks_after(now, both as u32) == right);
}

/// A task has one notification word and no queue of notifications: a
/// notification leaves one pending whatever was pending before, two that set
/// bits leave the bits of both, an overwrite leaves its own value, a
/// set-if-clear is refused while one is pending, and a wait that finds one
/// pending leaves none.
pub proof fn lemma_notification_merges(t: TaskView, a: u32, b: u32)
    ensures
        t.after_notify(a, 1).notified,
        t.after_notify(a, 1).after_notify(b, 1).notified,
        t.after_notify(a, 1).after_notify(b, 1).notification == t.notification | a | b,
        t.after_notify(a, 3).after_notify(b, 3).notification == b,
        !notification_accepted(t.after_notify(a, 1).notified, 4),
        t.after_notify(a, 1).after_notify(b, 4) == t.after_notify(a, 1),
        !t.after_notify(a, 1).after_notify_wait(0, 0).notified,
        t.after_notify(a, 1).after_notify_wait(0, 0).notification == t.notification | a,
{
    let w = t.notification;
    assert((w | a) | b == w | a | b) by (bit_vector);
    assert((w | a) & !0u32 == w | a) by (bit_vector);
}

/// Whether a task that last woke at `previous` and asks to wake `increment`
/// ticks later has to wait at all when the clock shows `now`.
pub open spec fn must_delay_until(
    now: FreeRtosTickType,
    previous: FreeRtosTickType,
    increment: FreeRtosTickType,
) -> bool {
    let wake = ticks_after(previous, increment);
    if now < previous {
        wake < previous && wake > now
    } else {
        wake < previous || wake > now
    }
}

impl View for Kernel {
    type V = KernelView;

    closed spec fn view(&self) -> KernelView {
        KernelView {
            tick_period_ms: self.tick_period_ms,
            max_wait: self.max_wait,
            word_bytes: self.word_bytes,
            tick_count: self.tick_count,
            total_run_time: self.total_run_time,
            heap_size: self.heap_size,
            heap_free: self.heap_free,
            next_handle: self.next_handle,
            tasks: Seq::new(self.tasks.len() as nat, |i: int| self.tasks[i]@),
            current: self.current,
            started: self.started,
            suspend_depth: self.suspend_depth,
            critical_depth: self.critical_depth,
            yield_pending: self.yield_pending,
            timer_commands: self.timer_commands,
        }
    }
}

impl Kernel {
    /// What holds of every kernel that this module hands out.
    pub open spec fn wf(&self) -> bool {
        self@.wf()
    }

    /// Sets up a kernel: the clock at zero, the heap free, no task, the
    /// scheduler not started.
    pub fn new(config: KernelConfig) -> (k: Kernel)
        ensures
            k.wf(),
            k@ == KernelView::initial(config),
    {
        let k = Kernel {
            tick_period_ms: config.tick_period_ms,
            max_wait: config.max_wait,
            word_bytes: config.word_bytes,
            tick_count: 0,
            total_run_time: 0,
            heap_size: config.heap_size,
            heap_free: config.heap_size,
            next_handle: 1,
            tasks: Vec::new(),
            current: 0,
            started: false,
            suspend_depth: 0,
            critical_depth: 0,
            yield_pending: false,
            timer_commands: 0,
        };
        assert(k@.tasks =~= Seq::empty());
        k
    }

    /// Starts the scheduler. No task runs until the scheduler is handed one.
    /// The timer service takes the requests that waited for it.
    pub fn start(&mut self)
        requires
            old(self).wf(),
        ensures
            final(self).wf(),
            final(self)@ == (KernelView { started: true, timer_commands: 0, ..old(self)@ }),
    {
        let ghost before = self@;
        self.timer_commands = 0;
        self.started = true;
        assert(self@.tasks =~= before.tasks);
    }

    /// How many requests wait for the timer service.
    pub fn timer_commands(&self) -> (waiting: u32)
        ensures
            waiting == self@.timer_commands,
    {
        self.timer_commands
    }

    /// Hands the processor to `task`, as the scheduler does at a context
    /// switch. Returns whether it did: the scheduler switches only while it
    /// runs unsuspended outside every critical section, and only to a task that
    /// is ready.
    pub fn switch_to(&mut self, task: FreeRtosTaskHandle) -> (switched: bool)
        requires
            old(self).wf(),
        ensures
            final(self).wf(),
            switched == old(self)@.can_switch_to(task),
            switched ==> final(self)@ == old(self)@.after_switch_to(task),
            !switched ==> final(self)@ == old(self)@,
    {
        if !self.started || self.suspend_depth != 0 || self.critical_depth != 0 {
            return false;
        }
        if task == 0 || task > self.tasks.len() {
            return false;
        }
        let ghost before = self@;
        assert(before.task(task) == self.tasks[task - 1]@);
        if self.current == task {
            self.yield_pending = false;
            assert(self@.tasks =~= before.after_switch_to(task).tasks);
            return true;
        }
        match self.tasks[task - 1].state {
            FreeRtosTaskState::Ready => {},
            _ => {
                return false;
            },
        }
        if self.current != 0 {
            let c = self.current;
            self.tasks[c - 1].state = FreeRtosTaskState::Ready;
        }
        self.tasks[task - 1].state = FreeRtosTaskState::Running;
        self.current = task;
        self.yield_pending = false;
        assert(self@.tasks =~= before.after_switch_to(task).tasks);
        true
    }

    /// Resumes `task`, as another task or an interrupt does for a task that is
    /// suspended: the task is ready again. Nothing changes for a task that is
    /// not suspended, and for a handle that is none.
    pub fn resume(&mut self, task: FreeRtosTaskHandle)
        requires
            old(self).wf(),
        ensures
            final(self).wf(),
            final(self)@ == old(self)@.after_resume(task),
    {
        if task == 0 || task > self.tasks.len() {
            return ;
        }
        let ghost before = self@;
        assert(before.task(task) == self.tasks[task - 1]@);
        match self.tasks[task - 1].state {
            FreeRtosTaskState::Suspended => {
                self.tasks[task - 1].state = FreeRtosTaskState::Ready;
                assert(self@.tasks =~= before.after_resume(task).tasks);
            },
            _ => {},
        }
    }

    /// Lets the running task compute for `ticks` ticks.
    pub fn run_for(&mut self, ticks: FreeRtosTickType)
        requires
            old(self).wf(),
        ensures
            final(self).wf(),
            final(self)@ == old(self)@.after_run(ticks),
    {
        let ghost before = self@;
        self.tick_count = self.tick_count.wrapping_add(ticks);
        self.total_run_time = self.total_run_time.wrapping_add(ticks);
        if self.current != 0 {
            let c = self.current;
            let spent = self.tasks[c - 1].run_time.wrapping_add(ticks);
            self.tasks[c - 1].run_time = spent;
        }
        assert(self@.tasks =~= before.after_run(ticks).tasks);
    }

    /// Whether an interrupt has asked for a context switch since the last one.
    pub fn yield_pending(&self) -> (pending: bool)
        ensures
            pending == self@.yield_pending,
    {
        self.yield_pending
    }

    /// Bytes of heap that are free.
    pub fn heap_free(&self) -> (bytes: usize)
        ensures
            bytes == self@.heap_free,
    {
        self.heap_free
    }

    /// How deep the running code is inside critical sections.
    pub fn critical_depth(&self) -> (depth: FreeRtosUBaseType)
        ensures
            depth == self@.critical_depth,
    {
        self.critical_depth
    }

    /// Gives out `bytes` bytes of heap under a new handle. Returns the handle,
    /// or the null handle where the heap has not that much left.
    pub fn allocate(&mut self, bytes: usize) -> (handle: usize)
        requires
            old(self).wf(),
        ensures
            final(self).wf(),
            old(self)@.can_allocate(bytes) ==> handle == old(self)@.next_handle && final(self)@
                == old(self)@.after_allocate(bytes),
            !old(self)@.can_allocate(bytes) ==> handle == 0 && final(self)@ == old(self)@,
    {
        if bytes > self.heap_free || self.next_handle == usize::MAX {
            return 0;
        }
        let ghost before = self@;
        let handle = self.next_handle;
        self.heap_free = self.heap_free - bytes;
        self.next_handle = handle + 1;
        assert(self@.tasks =~= before.tasks);
        handle
    }

    /// Takes back `bytes` bytes of heap.
    pub fn release(&mut self, bytes: usize)
        requires
            old(self).wf(),
        ensures
            final(self).wf(),
            final(self)@ == old(self)@.after_release(bytes),
    {
        let ghost before = self@;
        let room = self.heap_size - self.heap_free;
        if bytes > room {
            self.heap_free = self.heap_size;
        } else {
            self.heap_free = self.heap_free + bytes;
        }
        assert(self@.tasks =~= before.tasks);
    }
}

/// A copy of `bytes`.
fn copy_bytes(bytes: &Vec<u8>) -> (copy: Vec<u8>)
    ensures
        copy@ == bytes@,
{
    let mut copy: Vec<u8> = Vec::new();
    let mut i: usize = 0;
    while i < bytes.len()
        invariant
            i <= bytes.len(),
            copy@ == bytes@.take(i as int),
        decreases bytes.len() - i,
    {
        copy.push(bytes[i]);
        i += 1;
        assert(copy@ =~= bytes@.take(i as int));
    }
    assert(bytes@.take(bytes.len() as int) =~= bytes@);
    copy
}

/// A size in one byte: 0 for a size that one byte cannot hold.
fn one_byte(size: usize) -> (byte: u8)
    ensures
        byte == reported_size(size as nat),
{
    if size <= 255 {
        size as u8
    } else {
        0
    }
}

/// The size in bytes that the kernel has for the boundary type `_type`.
pub fn freertos_rs_sizeof(k: &Kernel, _type: u8) -> (size: u8)
    ensures
        size == spec_sizeof(k@.word_bytes, _type),
{
    if _type == 0 || _type == 1 || (20 <= _type && _type <= 25) {
        k.word_bytes
    } else if _type == 2 {
        1
    } else if _type == 10 || _type == 11 || _type == 12 || _type == 32 {
        4
    } else if _type == 30 {
        one_byte(core::mem::size_of::<FreeRtosTaskStatusFfi>())
    } else if _type == 31 {
        one_byte(core::mem::size_of::<FreeRtosTaskState>())
    } else if _type == 33 {
        2
    } else {
        0
    }
}

/// Delays the running task until `xTimeIncrement` ticks after the tick at
/// which it last woke, and notes that tick as the new wake time. Where that
/// tick has passed already, the task does not wait.
pub fn freertos_rs_vTaskDelayUntil(
    k: &mut Kernel,
    pxPreviousWakeTime: &mut FreeRtosTickType,
    xTimeIncrement: FreeRtosTickType,
)
    requires
        old(k).wf(),
    ensures
        final(k).wf(),
        *final(pxPreviousWakeTime) == ticks_after(*old(pxPreviousWakeTime), xTimeIncrement),
        must_delay_until(old(k)@.tick_count, *old(pxPreviousWakeTime), xTimeIncrement)
            ==> final(k)@ == old(k)@.after_wait(
            ticks_between(old(k)@.tick_count, ticks_after(*old(pxPreviousWakeTime), xTimeIncrement)),
        ),
        !must_delay_until(old(k)@.tick_count, *old(pxPreviousWakeTime), xTimeIncrement)
            ==> final(k)@ == old(k)@,
{
    let now = k.tick_count;
    let previous = *pxPreviousWakeTime;
    let wake = previous.wrapping_add(xTimeIncrement);
    let must_delay = if now < previous {
        wake < previous && wake > now
    } else {
        wake < previous || wake > now
    };
    *pxPreviousWakeTime = wake;
    if must_delay {
        freertos_rs_vTaskDelay(k, wake.wrapping_sub(now));
    }
}

/// Delays the running task for `xTicksToDelay` ticks.
pub fn freertos_rs_vTaskDelay(k: &mut Kernel, xTicksToDelay: FreeRtosTickType)
    requires
        old(k).wf(),
    ensures
        final(k).wf(),
        final(k)@ == old(k)@.after_wait(xTicksToDelay),
{
    let ghost before = k@;
    k.tick_count = k.tick_count.wrapping_add(xTicksToDelay);
    k.total_run_time = k.total_run_time.wrapping_add(xTicksToDelay);
    assert(k@.tasks =~= before.tasks);
}

/// The tick period in milliseconds.
pub fn freertos_rs_get_portTICK_PERIOD_MS(k: &Kernel) -> (period: FreeRtosTickType)
    ensures
        period == k@.tick_period_ms,
{
    k.tick_period_ms
}

/// The number of tasks the kernel knows.
pub fn freertos_rs_get_number_of_tasks(k: &Kernel) -> (n: FreeRtosUBaseType)
    requires
        k.wf(),
    ensures
        n == k@.tasks.len(),
{
    k.tasks.len() as u32
}

/// The kernel's tick count.
pub fn freertos_rs_xTaskGetTickCount(k: &Kernel) -> (ticks: FreeRtosTickType)
    ensures
        ticks == k@.tick_count,
{
    k.tick_count
}

/// The longest wait, in ticks.
pub fn freertos_rs_max_wait(k: &Kernel) -> (ticks: FreeRtosTickType)
    ensures
        ticks == k@.max_wait,
{
    k.max_wait
}

/// Asks the kernel, from an interrupt, for a context switch on return.
pub fn freertos_rs_isr_yield(k: &mut Kernel)
    requires
        old(k).wf(),
    ensures
        final(k).wf(),
        final(k)@ == (KernelView { yield_pending: true, ..old(k)@ }),
{
    let ghost before = k@;
    k.yield_pending = true;
    assert(k@.tasks =~= before.tasks);
}

/// Enters a critical section. Sections nest; the nesting stops counting at the
/// largest count.
pub fn freertos_rs_enter_critical(k: &mut Kernel)
    requires
        old(k).wf(),
    ensures
        final(k).wf(),
        final(k)@ == (KernelView {
            critical_depth: if old(k)@.critical_depth == u32::MAX {
                u32::MAX
            } else {
                (old(k)@.critical_depth + 1) as u32
            },
            ..old(k)@
        }),
{
    let ghost before = k@;
    if k.critical_depth < u32::MAX {
        k.critical_depth = k.critical_depth + 1;
    }
    assert(k@.tasks =~= before.tasks);
}

/// Leaves the innermost critical section; outside any section it does nothing.
pub fn freertos_rs_exit_critical(k: &mut Kernel)
    requires
        old(k).wf(),
    ensures
        final(k).wf(),
        final(k)@ == (KernelView {
            critical_depth: if old(k)@.critical_depth == 0 {
                0
            } else {
                (old(k)@.critical_depth - 1) as u32
            },
            ..old(k)@
        }),
{
    let ghost before = k@;
    if k.critical_depth > 0 {
        k.critical_depth = k.critical_depth - 1;
    }
    assert(k@.tasks =~= before.tasks);
}

/// Suspends the scheduler. Suspensions nest; the nesting stops counting at the
/// largest count.
pub fn freertos_rs_vTaskSuspendAll(k: &mut Kernel)
    requires
        old(k).wf(),
    ensures
        final(k).wf(),
        final(k)@ == (KernelView {
            suspend_depth: if old(k)@.suspend_depth == u32::MAX {
                u32::MAX
            } else {
                (old(k)@.suspend_depth + 1) as u32
            },
            ..old(k)@
        }),
{
    let ghost before = k@;
    if k.suspend_depth < u32::MAX {
        k.suspend_depth = k.suspend_depth + 1;
    }
    assert(k@.tasks =~= before.tasks);
}

/// Undoes one suspension of the scheduler; without one it does nothing.
/// Returns whether resuming caused a context switch, which it never does here.
pub fn freertos_rs_xTaskResumeAll(k: &mut Kernel) -> (switched: FreeRtosBaseType)
    requires
        old(k).wf(),
    ensures
        final(k).wf(),
        switched == 0,
        final(k)@ == (KernelView {
            suspend_depth: if old(k)@.suspend_depth == 0 {
                0
            } else {
                (old(k)@.suspend_depth - 1) as u32
            },
            ..old(k)@
        }),
{
    let ghost before = k@;
    if k.suspend_depth > 0 {
        k.suspend_depth = k.suspend_depth - 1;
    }
    assert(k@.tasks =~= before.tasks);
    0
}

/// The scheduler's state as a code: 0 suspended, 1 not started, 2 running.
pub fn freertos_rt_xTaskGetSchedulerState(k: &Kernel) -> (code: FreeRtosBaseType)
    ensures
        code == k@.scheduler_code(),
        0 <= code <= 2,
{
    if !k.started {
        1
    } else if k.suspend_depth == 0 {
        2
    } else {
        0
    }
}

/// Creates a task named by the first `name_len` bytes of `name`, with a stack
/// of `stack_size` words. Returns 0 and stores the task's handle where the
/// kernel has the memory; returns 1 and stores nothing where it has not.
pub fn freertos_rs_spawn_task(
    k: &mut Kernel,
    name: &[u8],
    name_len: u8,
    stack_size: u16,
    priority: FreeRtosUBaseType,
    task_handle: &mut FreeRtosTaskHandle,
) -> (status: FreeRtosUBaseType)
    requires
        old(k).wf(),
        name_len <= name@.len(),
    ensures
        final(k).wf(),
        old(k)@.can_spawn(stack_size) ==> status == 0 && *final(task_handle) == old(k)@.tasks.len()
            + 1 && final(k)@ == old(k)@.after_spawn(
            stored_name(name@, name_len),
            stack_size,
            priority,
        ),
        !old(k)@.can_spawn(stack_size) ==> status == 1 && *final(task_handle) == *old(task_handle)
            && final(k)@ == old(k)@,
{
    let ghost before = k@;
    let word_bytes = k.word_bytes;
    assert(stack_size * word_bytes <= 65535 * 255) by (nonlinear_arith)
        requires
            stack_size <= 65535,
            word_bytes <= 255,
    ;
    let bytes: usize = stack_size as usize * word_bytes as usize + CONTROL_BLOCK_BYTES;
    if bytes > k.heap_free || k.tasks.len() >= u32::MAX as usize {
        return 1;
    }
    let limit: usize = if name_len as usize > MAX_TASK_NAME_LEN {
        MAX_TASK_NAME_LEN
    } else {
        name_len as usize
    };
    let mut stored: Vec<u8> = Vec::new();
    let mut i: usize = 0;
    while i < limit && name[i] != 0
        invariant
            i <= limit <= name@.len(),
            stored@ == name@.take(i as int),
            forall|j: int| 0 <= j < i ==> name@[j] != 0,
        decreases limit - i,
    {
        stored.push(name[i]);
        i += 1;
        assert(stored@ =~= name@.take(i as int));
    }
    proof {
        let cut = name@.take(limit as int);
        lemma_first_zero(cut, i as int);
        assert(cut.take(i as int) =~= name@.take(i as int));
    }
    k.heap_free = k.heap_free - bytes;
    k.tasks.push(
        TaskControl {
            name: stored,
            stack_size,
            priority,
            state: FreeRtosTaskState::Ready,
            number: 0,
            notification: 0,
            notified: false,
            run_time: 0,
        },
    );
    *task_handle = k.tasks.len();
    assert(k@.tasks =~= before.after_spawn(stored_name(name@, name_len), stack_size, priority).tasks);
    0
}

/// Suspends `task`, the null handle standing for the running task; nothing
/// for a handle that is none. A task that suspends itself gives the processor
/// up: no task runs until the scheduler hands the processor to one.
pub fn freertos_rs_suspend_task(k: &mut Kernel, task: FreeRtosTaskHandle)
    requires
        old(k).wf(),
    ensures
        final(k).wf(),
        final(k)@ == old(k)@.after_suspend(task),
{
    let t = if task == 0 {
        k.current
    } else {
        task
    };
    if t == 0 || t > k.tasks.len() {
        return ;
    }
    let ghost before = k@;
    assert(before.task(t) == k.tasks[t - 1]@);
    k.tasks[t - 1].state = FreeRtosTaskState::Suspended;
    if k.current == t {
        k.current = 0;
    }
    assert(k@.tasks =~= before.after_suspend(task).tasks);
}

/// Makes a request to the timer service: to start, stop, change or delete a
/// timer. Returns 0 where the service's queue took it and 1 where the queue
/// had no room. The kernel does not wait for room before the scheduler runs,
/// and there is always room once it does, so the time to wait is never spent.
pub fn freertos_rs_timer_request(k: &mut Kernel, block_time: FreeRtosTickType) -> (status:
    FreeRtosBaseType)
    requires
        old(k).wf(),
    ensures
        final(k).wf(),
        status == (if old(k)@.timer_request_accepted() {
            0i32
        } else {
            1i32
        }),
        final(k)@ == old(k)@.after_timer_request(),
{
    let ghost before = k@;
    if k.started {
        0
    } else if k.timer_commands < TIMER_QUEUE_LENGTH {
        k.timer_commands = k.timer_commands + 1;
        assert(k@.tasks =~= before.tasks);
        0
    } else {
        1
    }
}

/// The handle of the running task; the null handle while no task runs.
pub fn freertos_rs_get_current_task(k: &Kernel) -> (task: FreeRtosTaskHandle)
    ensures
        task == k@.current,
{
    k.current
}

/// The name the kernel keeps for `task`; no bytes for a handle that is none.
pub fn freertos_rs_task_get_name(k: &Kernel, task: FreeRtosTaskHandle) -> (name: Vec<u8>)
    requires
        k.wf(),
    ensures
        k@.is_task(k@.resolve(task)) ==> name@ == k@.task(k@.resolve(task)).name,
        !k@.is_task(k@.resolve(task)) ==> name@ == Seq::<u8>::empty(),
{
    let t = if task == 0 {
        k.current
    } else {
        task
    };
    if t == 0 || t > k.tasks.len() {
        return Vec::new();
    }
    assert(k@.task(t) == k.tasks[t - 1]@);
    copy_bytes(&k.tasks[t - 1].name)
}

/// The least stack, in words, that `task` ever had left, the null handle
/// standing for the running task; 0 for a handle that is none. No task has
/// used any of its stack here.
pub fn freertos_rs_get_stack_high_water_mark(k: &Kernel, task: FreeRtosTaskHandle) -> (words:
    FreeRtosBaseType)
    requires
        k.wf(),
    ensures
        k@.is_task(k@.resolve(task)) ==> words == k@.task(k@.resolve(task)).stack_size,
        !k@.is_task(k@.resolve(task)) ==> words == 0,
{
    let t = if task == 0 {
        k.current
    } else {
        task
    };
    if t == 0 || t > k.tasks.len() {
        return 0;
    }
    assert(k@.task(t) == k.tasks[t - 1]@);
    k.tasks[t - 1].stack_size as i32
}

/// The number set for `task`, as a signed word; 0 for a handle that is none.
pub fn freertos_rs_uxTaskGetTaskNumber(k: &Kernel, task_handle: FreeRtosTaskHandle) -> (number:
    FreeRtosBaseType)
    requires
        k.wf(),
    ensures
        k@.is_task(task_handle) ==> number == k@.task(task_handle).number as i32,
        !k@.is_task(task_handle) ==> number == 0,
{
    if task_handle == 0 || task_handle > k.tasks.len() {
        return 0;
    }
    assert(k@.task(task_handle) == k.tasks[task_handle - 1]@);
    #[verifier::truncate]
    (k.tasks[task_handle - 1].number as i32)
}

/// Sets the number of `task`; nothing for a handle that is none.
pub fn freertos_rs_vTaskSetTaskNumber(
    k: &mut Kernel,
    task_handle: FreeRtosTaskHandle,
    value: FreeRtosUBaseType,
)
    requires
        old(k).wf(),
    ensures
        final(k).wf(),
        old(k)@.is_task(task_handle) ==> final(k)@ == old(k)@.with_task(
            task_handle,
            TaskView { number: value, ..old(k)@.task(task_handle) },
        ),
        !old(k)@.is_task(task_handle) ==> final(k)@ == old(k)@,
{
    if task_handle == 0 || task_handle > k.tasks.len() {
        return ;
    }
    let ghost before = k@;
    assert(before.task(task_handle) == k.tasks[task_handle - 1]@);
    k.tasks[task_handle - 1].number = value;
    assert(k@.tasks =~= before.tasks.update(
        task_handle - 1,
        TaskView { number: value, ..before.task(task_handle) },
    ));
}

/// Sends `task` a notification. Returns 0 where the kernel took it, 1 where it
/// did not: for a handle that is none, for an action code it does not know, and
/// for a set-if-clear while a notification is pending.
pub fn freertos_rs_task_notify(
    k: &mut Kernel,
    task: FreeRtosTaskHandle,
    value: u32,
    action: u8,
) -> (status: FreeRtosBaseType)
    requires
        old(k).wf(),
    ensures
        final(k).wf(),
        status == (if old(k)@.notify_accepted(task, action) {
            0i32
        } else {
            1i32
        }),
        final(k)@ == old(k)@.after_notify(task, value, action),
{
    if task == 0 || task > k.tasks.len() {
        return 1;
    }
    let ghost before = k@;
    assert(before.task(task) == k.tasks[task - 1]@);
    if action > 4 || (action == 4 && k.tasks[task - 1].notified) {
        assert(k@.tasks =~= before.after_notify(task, value, action).tasks);
        return 1;
    }
    let word = k.tasks[task - 1].notification;
    let new_word = if action == 1 {
        word | value
    } else if action == 2 {
        word.wrapping_add(1)
    } else if action == 3 || action == 4 {
        value
    } else {
        word
    };
    k.tasks[task - 1].notification = new_word;
    k.tasks[task - 1].notified = true;
    assert(k@.tasks =~= before.after_notify(task, value, action).tasks);
    0
}

/// Sends `task` a notification from an interrupt. As no task waits inside the
/// kernel, none is woken and the flag is left as it is.
pub fn freertos_rs_task_notify_isr(
    k: &mut Kernel,
    task: FreeRtosTaskHandle,
    value: u32,
    action: u8,
    xHigherPriorityTaskWoken: &mut FreeRtosBaseType,
) -> (status: FreeRtosBaseType)
    requires
        old(k).wf(),
    ensures
        final(k).wf(),
        status == (if old(k)@.notify_accepted(task, action) {
            0i32
        } else {
            1i32
        }),
        final(k)@ == old(k)@.after_notify(task, value, action),
        *final(xHigherPriorityTaskWoken) == *old(xHigherPriorityTaskWoken),
{
    freertos_rs_task_notify(k, task, value, action)
}

/// Takes the running task's notification word as a counter, waiting up to
/// `wait` ticks for it to be other than zero. Returns the word as it was; the
/// word is then cleared where `clear_count` is not 0, and one less otherwise.
pub fn freertos_rs_task_notify_take(k: &mut Kernel, clear_count: u8, wait: FreeRtosTickType) -> (value:
    u32)
    requires
        old(k).wf(),
        old(k)@.wait_ends(wait, old(k)@.notify_take_value() != 0),
    ensures
        final(k).wf(),
        value == old(k)@.notify_take_value(),
        final(k)@ == old(k)@.after_notify_take(clear_count != 0, wait),
{
    let ghost before = k@;
    if k.current == 0 {
        freertos_rs_vTaskDelay(k, wait);
        return 0;
    }
    let c = k.current;
    assert(before.task(c) == k.tasks[c - 1]@);
    let value = k.tasks[c - 1].notification;
    if value != 0 {
        k.tasks[c - 1].notification = if clear_count != 0 {
            0
        } else {
            value - 1
        };
    }
    k.tasks[c - 1].notified = false;
    assert(k@.tasks =~= before.with_task(c, before.task(c).after_notify_take(clear_count != 0)).tasks);
    if value == 0 {
        freertos_rs_vTaskDelay(k, wait);
    }
    value
}

/// Waits up to `xTicksToWait` ticks for a notification of the running task.
/// Returns 0 and stores the notification word where one was pending, clearing
/// the bits of `ulBitsToClearOnExit` in the word afterwards. Otherwise the
/// bits of `ulBitsToClearOnEntry` are cleared, the wait runs out, and it
/// returns 1; the word is stored then too, unless no task runs.
pub fn freertos_rs_task_notify_wait(
    k: &mut Kernel,
    ulBitsToClearOnEntry: u32,
    ulBitsToClearOnExit: u32,
    pulNotificationValue: &mut u32,
    xTicksToWait: FreeRtosTickType,
) -> (status: FreeRtosBaseType)
    requires
        old(k).wf(),
        old(k)@.wait_ends(xTicksToWait, old(k)@.notification_ready()),
    ensures
        final(k).wf(),
        status == (if old(k)@.notification_ready() {
            0i32
        } else {
            1i32
        }),
        final(k)@ == old(k)@.after_notify_wait(
            ulBitsToClearOnEntry,
            ulBitsToClearOnExit,
            xTicksToWait,
        ),
        old(k)@.current != 0 ==> *final(pulNotificationValue) == (if old(k)@.notification_ready() {
            old(k)@.task(old(k)@.current).notification
        } else {
            old(k)@.task(old(k)@.current).notification & !ulBitsToClearOnEntry
        }),
        old(k)@.current == 0 ==> *final(pulNotificationValue) == *old(pulNotificationValue),
{
    let ghost before = k@;
    if k.current == 0 {
        freertos_rs_vTaskDelay(k, xTicksToWait);
        return 1;
    }
    let c = k.current;
    assert(before.task(c) == k.tasks[c - 1]@);
    let word = k.tasks[c - 1].notification;
    if k.tasks[c - 1].notified {
        *pulNotificationValue = word;
        k.tasks[c - 1].notification = word & !ulBitsToClearOnExit;
        k.tasks[c - 1].notified = false;
        assert(k@.tasks =~= before.after_notify_wait(
            ulBitsToClearOnEntry,
            ulBitsToClearOnExit,
            xTicksToWait,
        ).tasks);
        0
    } else {
        let cleared = word & !ulBitsToClearOnEntry;
        k.tasks[c - 1].notification = cleared;
        *pulNotificationValue = cleared;
        assert(k@.tasks =~= before.with_task(
            c,
            before.task(c).after_notify_wait(ulBitsToClearOnEntry, ulBitsToClearOnExit),
        ).tasks);
        freertos_rs_vTaskDelay(k, xTicksToWait);
        1
    }
}

/// Fills a snapshot of all tasks, one row each in the order of their handles,
/// and stores the total run time, where `tasks_len` rows are enough for them.
/// Where they are not, it fills no row and stores nothing.
pub fn freertos_rs_get_system_state(
    k: &Kernel,
    tasks_len: FreeRtosUBaseType,
    total_run_time: &mut u32,
) -> (tasks: Vec<FreeRtosTaskStatusFfi>)
    requires
        k.wf(),
    ensures
        tasks_len >= k@.tasks.len() ==> {
            &&& tasks@.len() == k@.tasks.len()
            &&& forall|i: int|
                0 <= i < tasks@.len() ==> k@.tasks[i].status_row((i + 1) as usize, #[trigger] tasks@[i])
            &&& *final(total_run_time) == k@.total_run_time
        },
        tasks_len < k@.tasks.len() ==> tasks@.len() == 0 && *final(total_run_time) == *old(total_run_time),
{
    let mut rows: Vec<FreeRtosTaskStatusFfi> = Vec::new();
    if (tasks_len as usize) < k.tasks.len() {
        return rows;
    }
    let mut i: usize = 0;
    while i < k.tasks.len()
        invariant
            k.wf(),
            i <= k.tasks.len(),
            rows@.len() == i,
            forall|j: int| 0 <= j < i ==> k@.tasks[j].status_row((j + 1) as usize, #[trigger] rows@[j]),
        decreases k.tasks.len() - i,
    {
        assert(k@.tasks[i as int] == k.tasks[i as int]@);
        let t = &k.tasks[i];
        rows.push(
            FreeRtosTaskStatusFfi {
                handle: i + 1,
                task_name: copy_bytes(&t.name),
                task_number: t.number,
                task_state: t.state,
                current_priority: t.priority,
                base_priority: t.priority,
                run_time_counter: t.run_time,
                stack_high_water_mark: t.stack_size,
            },
        );
        i += 1;
    }
    *total_run_time = k.total_run_time;
    rows
}

/// The heap a queue of `length` items of `item_size` bytes takes, where a
/// word can hold that number.
fn queue_cost(length: FreeRtosUBaseType, item_size: FreeRtosUBaseType) -> (bytes: Option<usize>)
    ensures
        match bytes {
            Some(b) => b == queue_bytes(length, item_size),
            None => queue_bytes(length, item_size) > usize::MAX,
        },
{
    assert(length * item_size <= 0xffff_ffff * 0xffff_ffff) by (nonlinear_arith)
        requires
            length <= 0xffff_ffff,
            item_size <= 0xffff_ffff,
    ;
    let wide: u64 = length as u64 * item_size as u64;
    if wide > (usize::MAX - CONTROL_BLOCK_BYTES) as u64 {
        None
    } else {
        Some(wide as usize + CONTROL_BLOCK_BYTES)
    }
}

/// Creates a queue of `length` items of `item_size` bytes each. Returns its
/// handle, or the null handle: for a queue of no items, and where the heap has
/// not the room.
pub fn freertos_rs_queue_create(
    k: &mut Kernel,
    length: FreeRtosUBaseType,
    item_size: FreeRtosUBaseType,
) -> (queue: usize)
    requires
        old(k).wf(),
    ensures
        final(k).wf(),
        length > 0 && old(k)@.can_create(queue_bytes(length, item_size)) ==> queue
            == old(k)@.next_handle && final(k)@ == old(k)@.after_create(queue_bytes(length, item_size)),
        !(length > 0 && old(k)@.can_create(queue_bytes(length, item_size))) ==> queue == 0
            && final(k)@ == old(k)@,
{
    if length == 0 {
        return 0;
    }
    match queue_cost(length, item_size) {
        Some(bytes) => k.allocate(bytes),
        None => 0,
    }
}

/// Deletes a queue of `length` items of `item_size` bytes each: its memory
/// goes back to the heap.
pub fn freertos_rs_queue_delete(k: &mut Kernel, length: FreeRtosUBaseType, item_size: FreeRtosUBaseType)
    requires
        old(k).wf(),
    ensures
        final(k).wf(),
        final(k)@ == old(k)@.after_delete(queue_bytes(length, item_size)),
{
    match queue_cost(length, item_size) {
        Some(bytes) => k.release(bytes),
        None => {},
    }
}

} // verus!
