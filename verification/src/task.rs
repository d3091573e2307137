//! Tasks: spawning them, notifying them, and looking at them.

use vstd::prelude::*;
use vstd::string::StringExecFns;
use vstd::string::StringSliceAdditionalSpecFns;
use vstd::utf8::decode_utf8;
use vstd::utf8::encode_utf8;
use vstd::utf8::valid_utf8;
use crate::base::status_to_result;
use crate::base::FreeRtosBaseType;
use crate::base::FreeRtosError;
use crate::base::FreeRtosTaskHandle;
use crate::base::FreeRtosTaskState;
use crate::base::FreeRtosTaskStatusFfi;
use crate::base::FreeRtosTickType;
use crate::base::FreeRtosUBaseType;
use crate::base::FreeRtosUnsignedLong;
use crate::base::FreeRtosUnsignedShort;
use crate::isr::InterruptContext;
use crate::shim::c_string;
use crate::shim::freertos_rs_get_current_task;
use crate::shim::freertos_rs_get_number_of_tasks;
use crate::shim::freertos_rs_get_stack_high_water_mark;
use crate::shim::freertos_rs_get_system_state;
use crate::shim::freertos_rs_spawn_task;
use crate::shim::freertos_rs_suspend_task;
use crate::shim::freertos_rs_task_get_name;
use crate::shim::freertos_rs_task_notify;
use crate::shim::freertos_rs_task_notify_isr;
use crate::shim::freertos_rs_task_notify_take;
use crate::shim::freertos_rs_task_notify_wait;
use crate::shim::freertos_rs_uxTaskGetTaskNumber;
use crate::shim::freertos_rs_vTaskDelay;
use crate::shim::freertos_rs_vTaskSetTaskNumber;
use crate::shim::freertos_rs_vTaskSuspendAll;
use crate::shim::freertos_rs_xTaskGetTickCount;
use crate::shim::freertos_rs_xTaskResumeAll;
use crate::shim::freertos_rt_xTaskGetSchedulerState;
use crate::shim::stored_name;
use crate::shim::Kernel;
use crate::shim::KernelView;
use crate::shim::TaskView;
use crate::text::decimal;
use crate::text::decimal_string;
use crate::text::pad_end;
use crate::text::pad_start;
use crate::text::push_padded_end;
use crate::text::push_padded_start;
use crate::units::Duration;
use crate::units::DurationTicks;
use crate::utils::str_from_c_string;

verus! {

/// Handle for a task
#[derive(Debug)]
pub struct Task {
    task_handle: FreeRtosTaskHandle,
}

impl View for Task {
    type V = FreeRtosTaskHandle;

    /// A task is its handle.
    closed spec fn view(&self) -> FreeRtosTaskHandle {
        self.task_handle
    }
}

impl Clone for Task {
    fn clone(&self) -> (task: Self)
        ensures
            task@ == self@,
    {
        Task { task_handle: self.task_handle }
    }
}

/// Task's execution priority. Low priority numbers denote low priority tasks.
#[derive(Debug, Copy, Clone)]
pub struct TaskPriority(pub u8);

/// Notification to be sent to a task.
#[derive(Debug, Copy, Clone)]
pub enum TaskNotification {
    /// Send the event, unblock the task, the task's notification value isn't changed.
    NoAction,
    /// Perform a logical or with the task's notification value.
    SetBits(u32),
    /// Increment the task's notification value by one.
    Increment,
    /// Set the task's notification value to this value.
    OverwriteValue(u32),
    /// Try to set the task's notification value to this value. Succeeds
    /// only if the task has no pending notifications. Otherwise, the
    /// notification call will fail.
    SetValue(u32),
}

impl TaskNotification {
    /// The value and the action code that stand for this notification at the
    /// kernel boundary.
    pub open spec fn code(self) -> (u32, u8) {
        match self {
            TaskNotification::NoAction => (0, 0),
            TaskNotification::SetBits(v) => (v, 1),
            TaskNotification::Increment => (0, 2),
            TaskNotification::OverwriteValue(v) => (v, 3),
            TaskNotification::SetValue(v) => (v, 4),
        }
    }

    pub fn to_freertos(&self) -> (code: (u32, u8))
        ensures
            code == self.code(),
    {
        match *self {
            TaskNotification::NoAction => (0, 0),
            TaskNotification::SetBits(v) => (v, 1),
            TaskNotification::Increment => (0, 2),
            TaskNotification::OverwriteValue(v) => (v, 3),
            TaskNotification::SetValue(v) => (v, 4),
        }
    }
}

impl TaskPriority {
    pub fn to_freertos(&self) -> (priority: FreeRtosUBaseType)
        ensures
            priority == self.0,
    {
        self.0 as FreeRtosUBaseType
    }
}

/// Helper for spawning a new task. Instantiate with [`Task::new()`].
///
/// [`Task::new()`]: struct.Task.html#method.new
pub struct TaskBuilder {
    task_name: String,
    task_stack_size: u16,
    task_priority: TaskPriority,
}

/// What a [`TaskBuilder`] holds, as plain values.
pub struct TaskBuilderView {
    pub name: Seq<char>,
    pub stack_size: u16,
    pub priority: u8,
}

impl View for TaskBuilder {
    type V = TaskBuilderView;

    closed spec fn view(&self) -> TaskBuilderView {
        TaskBuilderView {
            name: self.task_name@,
            stack_size: self.task_stack_size,
            priority: self.task_priority.0,
        }
    }
}

/// The length handed to the kernel with a name of `len` bytes: the length
/// itself, and 255 for a longer name.
pub open spec fn handed_len(len: nat) -> u8 {
    if len > 255 {
        255
    } else {
        len as u8
    }
}

impl TaskBuilderView {
    /// The name that the kernel keeps for a task built from this: the name's
    /// UTF-8 bytes, of which the boundary hands over no more than the 255 that
    /// it can count.
    pub open spec fn kernel_name(self) -> Seq<u8> {
        stored_name(encode_utf8(self.name), handed_len(encode_utf8(self.name).len()))
    }
}

impl TaskBuilder {
    /// Set the task's name.
    pub fn name(&mut self, name: &str) -> (builder: &mut Self)
        ensures
            builder@ == (TaskBuilderView { name: name@, ..old(self)@ }),
            *final(self) == *final(builder),
    {
        self.task_name = name.to_owned();
        self
    }

    /// Set the stack size, in words.
    pub fn stack_size(&mut self, stack_size: u16) -> (builder: &mut Self)
        ensures
            builder@ == (TaskBuilderView { stack_size, ..old(self)@ }),
            *final(self) == *final(builder),
    {
        self.task_stack_size = stack_size;
        self
    }

    /// Set the task's priority.
    pub fn priority(&mut self, priority: TaskPriority) -> (builder: &mut Self)
        ensures
            builder@ == (TaskBuilderView { priority: priority.0, ..old(self)@ }),
            *final(self) == *final(builder),
    {
        self.task_priority = priority;
        self
    }

    /// The name set for the task.
    pub fn get_name(&self) -> (name: &str)
        ensures
            name@ == self@.name,
    {
        self.task_name.as_str()
    }

    /// The stack size set for the task, in words.
    pub fn get_stack_size(&self) -> (stack_size: u16)
        ensures
            stack_size == self@.stack_size,
    {
        self.task_stack_size
    }

    /// The priority set for the task.
    pub fn get_priority(&self) -> (priority: TaskPriority)
        ensures
            priority.0 == self@.priority,
    {
        self.task_priority
    }

    /// Start a new task. The task is ready to run once the kernel has it; what
    /// it runs is for the caller to supply when the scheduler picks the task.
    /// Fails with `OutOfMemory` exactly when the kernel cannot take the task.
    pub fn start(&self, k: &mut Kernel) -> (r: Result<Task, FreeRtosError>)
        requires
            old(k).wf(),
        ensures
            final(k).wf(),
            match r {
                Ok(task) => {
                    &&& old(k)@.can_spawn(self@.stack_size)
                    &&& task@ == old(k)@.tasks.len() + 1
                    &&& final(k)@ == old(k)@.after_spawn(
                        self@.kernel_name(),
                        self@.stack_size,
                        self@.priority as u32,
                    )
                },
                Err(e) => {
                    &&& !old(k)@.can_spawn(self@.stack_size)
                    &&& e == FreeRtosError::OutOfMemory
                    &&& final(k)@ == old(k)@
                },
            },
    {
        Task::spawn(k, self.task_name.as_str(), self.task_stack_size, self.task_priority)
    }
}

impl Task {
    /// Prepare a builder object for the new task.
    pub fn new() -> (builder: TaskBuilder)
        ensures
            builder@ == (TaskBuilderView { name: "rust_task"@, stack_size: 1024, priority: 1 }),
    {
        TaskBuilder {
            task_name: "rust_task".to_owned(),
            task_stack_size: 1024,
            task_priority: TaskPriority(1),
        }
    }

    /// The task that a handle stands for.
    #[inline]
    pub fn from_raw_handle(handle: FreeRtosTaskHandle) -> (task: Self)
        ensures
            task@ == handle,
    {
        Self { task_handle: handle }
    }

    /// The handle of the task.
    pub fn raw_handle(&self) -> (handle: FreeRtosTaskHandle)
        ensures
            handle == self@,
    {
        self.task_handle
    }

    /// Suspends the scheduler: no task switch happens until it is resumed.
    pub fn suspend_all(k: &mut Kernel)
        requires
            old(k).wf(),
        ensures
            final(k).wf(),
            final(k)@ == (KernelView {
                suspend_depth: if old(k)@.suspend_depth == u32::MAX {
                    u32::MAX
                } else {
                    (old(k)@.suspend_depth + 1) as u32
                },
                ..old(k)@
            }),
    {
        freertos_rs_vTaskSuspendAll(k);
    }

    /// Undoes one suspension of the scheduler.
    pub fn resume_all(k: &mut Kernel)
        requires
            old(k).wf(),
        ensures
            final(k).wf(),
            final(k)@ == (KernelView {
                suspend_depth: if old(k)@.suspend_depth == 0 {
                    0
                } else {
                    (old(k)@.suspend_depth - 1) as u32
                },
                ..old(k)@
            }),
    {
        freertos_rs_xTaskResumeAll(k);
    }

    /// What a spawn request comes to: the task under the handle the kernel
    /// stored when it reports success, `OutOfMemory` when it reports anything
    /// else.
    pub fn spawn_result(status: FreeRtosUBaseType, task_handle: FreeRtosTaskHandle) -> (r: Result<
        Task,
        FreeRtosError,
    >)
        ensures
            match r {
                Ok(task) => status == 0 && task@ == task_handle,
                Err(e) => status != 0 && e == FreeRtosError::OutOfMemory,
            },
    {
        if status == 0 {
            Ok(Task { task_handle })
        } else {
            Err(FreeRtosError::OutOfMemory)
        }
    }

    fn spawn(k: &mut Kernel, name: &str, stack_size: u16, priority: TaskPriority) -> (r: Result<
        Task,
        FreeRtosError,
    >)
        requires
            old(k).wf(),
        ensures
            final(k).wf(),
            match r {
                Ok(task) => {
                    &&& old(k)@.can_spawn(stack_size)
                    &&& task@ == old(k)@.tasks.len() + 1
                    &&& final(k)@ == old(k)@.after_spawn(
                        stored_name(encode_utf8(name@), handed_len(encode_utf8(name@).len())),
                        stack_size,
                        priority.0 as u32,
                    )
                },
                Err(e) => {
                    &&& !old(k)@.can_spawn(stack_size)
                    &&& e == FreeRtosError::OutOfMemory
                    &&& final(k)@ == old(k)@
                },
            },
    {
        let name = name.as_bytes();
        let name_len: usize = name.len();
        let short_len: u8 = if name_len > 255 {
            255
        } else {
            name_len as u8
        };
        let mut task_handle: FreeRtosTaskHandle = 0;
        let ret = freertos_rs_spawn_task(
            k,
            name,
            short_len,
            stack_size,
            priority.to_freertos(),
            &mut task_handle,
        );
        Task::spawn_result(ret, task_handle)
    }

    /// Get the name of the task, as far as the kernel keeps it. Fails exactly
    /// when what the kernel keeps is not valid UTF-8.
    pub fn get_name(&self, k: &Kernel) -> (r: Result<String, ()>)
        requires
            k.wf(),
        ensures
            match r {
                Ok(name) => valid_utf8(c_string(Task::kernel_name(k@, self@))) && name@
                    == decode_utf8(c_string(Task::kernel_name(k@, self@))),
                Err(_) => !valid_utf8(c_string(Task::kernel_name(k@, self@))),
            },
    {
        let name_ptr = freertos_rs_task_get_name(k, self.task_handle);
        let name = str_from_c_string(name_ptr.as_slice());
        if let Ok(name) = name {
            return Ok(name);
        }
        Err(())
    }

    /// The bytes that the kernel hands out as the name of the task under
    /// `task`, the null handle standing for the running task.
    pub open spec fn kernel_name(k: KernelView, task: FreeRtosTaskHandle) -> Seq<u8> {
        if k.is_task(k.resolve(task)) {
            k.task(k.resolve(task)).name
        } else {
            Seq::empty()
        }
    }

    /// Try to find the task of the current execution context.
    pub fn current(k: &Kernel) -> (r: Result<Task, FreeRtosError>)
        ensures
            match r {
                Ok(task) => k@.current != 0 && task@ == k@.current,
                Err(e) => k@.current == 0 && e == FreeRtosError::TaskNotFound,
            },
    {
        let t = freertos_rs_get_current_task(k);
        if t != 0 {
            Ok(Task { task_handle: t })
        } else {
            Err(FreeRtosError::TaskNotFound)
        }
    }

    /// Forcibly set the notification value for the task.
    pub fn set_notification_value(&self, k: &mut Kernel, val: u32)
        requires
            old(k).wf(),
        ensures
            final(k).wf(),
            final(k)@ == old(k)@.after_notify(self@, val, 3),
    {
        self.notify(k, TaskNotification::OverwriteValue(val))
    }

    /// Notify the task. Where the kernel does not take the notification,
    /// nothing changes and nothing is reported.
    pub fn notify(&self, k: &mut Kernel, notification: TaskNotification)
        requires
            old(k).wf(),
        ensures
            final(k).wf(),
            final(k)@ == old(k)@.after_notify(self@, notification.code().0, notification.code().1),
    {
        let n = notification.to_freertos();
        freertos_rs_task_notify(k, self.task_handle, n.0, n.1);
    }

    /// Notify the task from an interrupt. Fails with `QueueFull` exactly when
    /// the kernel does not take the notification.
    pub fn notify_from_isr(
        &self,
        k: &mut Kernel,
        context: &mut InterruptContext,
        notification: TaskNotification,
    ) -> (r: Result<(), FreeRtosError>)
        requires
            old(k).wf(),
        ensures
            final(k).wf(),
            final(k)@ == old(k)@.after_notify(self@, notification.code().0, notification.code().1),
            final(context)@ == old(context)@,
            match r {
                Ok(_) => old(k)@.notify_accepted(self@, notification.code().1),
                Err(e) => !old(k)@.notify_accepted(self@, notification.code().1) && e
                    == FreeRtosError::QueueFull,
            },
    {
        let n = notification.to_freertos();
        let t = freertos_rs_task_notify_isr(
            k,
            self.task_handle,
            n.0,
            n.1,
            context.get_task_field_mut(),
        );
        status_to_result(t, FreeRtosError::QueueFull)
    }

    /// Wait for a notification to be posted. It is the running task that
    /// waits, whichever task this is. Gives the notification word where a
    /// notification was pending, and fails with `Timeout` after the whole wait
    /// where none was. A wait without end with no notification pending never
    /// returns, and is not to be made.
    pub fn wait_for_notification<D: DurationTicks>(
        &self,
        k: &mut Kernel,
        clear_bits_enter: u32,
        clear_bits_exit: u32,
        wait_for: D,
    ) -> (r: Result<u32, FreeRtosError>)
        requires
            old(k).wf(),
            old(k)@.wait_ends(wait_for.ticks_of(), old(k)@.notification_ready()),
        ensures
            final(k).wf(),
            final(k)@ == old(k)@.after_notify_wait(
                clear_bits_enter,
                clear_bits_exit,
                wait_for.ticks_of(),
            ),
            match r {
                Ok(val) => old(k)@.notification_ready() && val == old(k)@.task(
                    old(k)@.current,
                ).notification,
                Err(e) => !old(k)@.notification_ready() && e == FreeRtosError::Timeout,
            },
    {
        let mut val: u32 = 0;
        let r = freertos_rs_task_notify_wait(
            k,
            clear_bits_enter,
            clear_bits_exit,
            &mut val,
            wait_for.to_ticks(),
        );
        if r == 0 {
            Ok(val)
        } else {
            Err(FreeRtosError::Timeout)
        }
    }

    /// Get the minimum amount of stack that was ever left on the task.
    pub fn get_stack_high_water_mark(&self, k: &Kernel) -> (words: u32)
        requires
            k.wf(),
        ensures
            k@.is_task(k@.resolve(self@)) ==> words == k@.task(k@.resolve(self@)).stack_size,
            !k@.is_task(k@.resolve(self@)) ==> words == 0,
    {
        freertos_rs_get_stack_high_water_mark(k, self.task_handle) as u32
    }

    /// The number set for the task. Fails with `TaskNotFound` exactly when
    /// the kernel reports 0: for a task whose number is 0, and for a handle
    /// that is none.
    pub fn get_id(&self, k: &Kernel) -> (r: Result<FreeRtosBaseType, FreeRtosError>)
        requires
            k.wf(),
        ensures
            match r {
                Ok(id) => k@.is_task(self@) && id == k@.task(self@).number as i32 && id != 0,
                Err(e) => e == FreeRtosError::TaskNotFound && (k@.is_task(self@) ==> k@.task(
                    self@,
                ).number as i32 == 0),
            },
    {
        let task_id = freertos_rs_uxTaskGetTaskNumber(k, self.task_handle);
        if task_id == 0 {
            Err(FreeRtosError::TaskNotFound)
        } else {
            Ok(task_id)
        }
    }

    /// Sets the number of the task.
    pub fn set_id(&mut self, k: &mut Kernel, value: FreeRtosUBaseType)
        requires
            old(k).wf(),
        ensures
            final(k).wf(),
            final(self)@ == old(self)@,
            old(k)@.is_task(old(self)@) ==> final(k)@ == old(k)@.with_task(
                old(self)@,
                TaskView { number: value, ..old(k)@.task(old(self)@) },
            ),
            !old(k)@.is_task(old(self)@) ==> final(k)@ == old(k)@,
    {
        freertos_rs_vTaskSetTaskNumber(k, self.task_handle, value);
    }
}

/// Helper methods to be performed on the task that is currently executing.
pub struct CurrentTask;

impl CurrentTask {
    /// Delay the execution of the current task.
    pub fn delay<D: DurationTicks>(k: &mut Kernel, delay: D)
        requires
            old(k).wf(),
        ensures
            final(k).wf(),
            final(k)@ == old(k)@.after_wait(delay.ticks_of()),
    {
        freertos_rs_vTaskDelay(k, delay.to_ticks());
    }

    /// Suspends the running task: it is suspended until it is resumed, and
    /// gives the processor up, so that no task runs until the scheduler hands
    /// the processor to one. Nothing happens while no task runs.
    pub fn suspend(k: &mut Kernel)
        requires
            old(k).wf(),
        ensures
            final(k).wf(),
            final(k)@ == old(k)@.after_suspend(0),
    {
        freertos_rs_suspend_task(k, 0)
    }

    /// Take the notification and either clear the notification value or decrement it by one.
    /// A wait without end while the value is zero never returns, and is not to
    /// be made.
    pub fn take_notification<D: DurationTicks>(k: &mut Kernel, clear: bool, wait_for: D) -> (value:
        u32)
        requires
            old(k).wf(),
            old(k)@.wait_ends(wait_for.ticks_of(), old(k)@.notify_take_value() != 0),
        ensures
            final(k).wf(),
            value == old(k)@.notify_take_value(),
            final(k)@ == old(k)@.after_notify_take(clear, wait_for.ticks_of()),
    {
        freertos_rs_task_notify_take(
            k,
            if clear {
                1
            } else {
                0
            },
            wait_for.to_ticks(),
        )
    }

    /// Get the minimum amount of stack that was ever left on the current task.
    pub fn get_stack_high_water_mark(k: &Kernel) -> (words: u32)
        requires
            k.wf(),
        ensures
            k@.current != 0 ==> words == k@.task(k@.current).stack_size,
            k@.current == 0 ==> words == 0,
    {
        freertos_rs_get_stack_high_water_mark(k, 0) as u32
    }
}

#[derive(Debug)]
pub struct FreeRtosSystemState {
    pub tasks: Vec<FreeRtosTaskStatus>,
    pub total_run_time: u32,
}

#[derive(Debug)]
pub struct FreeRtosTaskStatus {
    pub task: Task,
    pub name: String,
    pub task_number: FreeRtosUBaseType,
    pub task_state: FreeRtosTaskState,
    pub current_priority: TaskPriority,
    pub base_priority: TaskPriority,
    pub run_time_counter: FreeRtosUnsignedLong,
    pub stack_high_water_mark: FreeRtosUnsignedShort,
}

impl FreeRtosTaskStatus {
    /// The name shown for a task whose kernel name is `name`: the name read as
    /// a zero-terminated UTF-8 string, and a question mark where it is none.
    pub open spec fn shown_name(name: Seq<u8>) -> Seq<char> {
        if valid_utf8(c_string(name)) {
            decode_utf8(c_string(name))
        } else {
            "?"@
        }
    }

    /// Whether this is the status of the task `t` under handle `handle`.
    pub open spec fn describes(&self, handle: FreeRtosTaskHandle, t: TaskView) -> bool {
        &&& self.task@ == handle
        &&& self.name@ == Self::shown_name(t.name)
        &&& self.task_number == t.number
        &&& self.task_state == t.state
        &&& self.current_priority.0 == t.priority as u8
        &&& self.base_priority.0 == t.priority as u8
        &&& self.run_time_counter == t.run_time
        &&& self.stack_high_water_mark == t.stack_size
    }

    /// The status that a row of the kernel's snapshot stands for.
    pub fn from_ffi(row: &FreeRtosTaskStatusFfi) -> (status: FreeRtosTaskStatus)
        ensures
            status.task@ == row.handle,
            status.name@ == Self::shown_name(row.task_name@),
            status.task_number == row.task_number,
            status.task_state == row.task_state,
            status.current_priority.0 == row.current_priority as u8,
            status.base_priority.0 == row.base_priority as u8,
            status.run_time_counter == row.run_time_counter,
            status.stack_high_water_mark == row.stack_high_water_mark,
    {
        let name = match str_from_c_string(row.task_name.as_slice()) {
            Ok(name) => name,
            Err(_) => "?".to_owned(),
        };
        FreeRtosTaskStatus {
            task: Task { task_handle: row.handle },
            name,
            task_number: row.task_number,
            task_state: row.task_state,
            current_priority: TaskPriority(
                #[verifier::truncate]
                (row.current_priority as u8),
            ),
            base_priority: TaskPriority(
                #[verifier::truncate]
                (row.base_priority as u8),
            ),
            run_time_counter: row.run_time_counter,
            stack_high_water_mark: row.stack_high_water_mark,
        }
    }
}

/// One line of the task table: seven columns, the first four flush left in
/// 6, 16, 9 and 8 characters, the last three flush right in 10, 10 and 4,
/// with a bar between columns.
pub open spec fn table_row(
    id: Seq<char>,
    name: Seq<char>,
    state: Seq<char>,
    priority: Seq<char>,
    stack: Seq<char>,
    cpu_abs: Seq<char>,
    cpu_rel: Seq<char>,
) -> Seq<char> {
    pad_end(id, 6) + " | "@ + pad_end(name, 16) + " | "@ + pad_end(state, 9) + " | "@ + pad_end(
        priority,
        8,
    ) + " | "@ + pad_start(stack, 10) + " | "@ + pad_start(cpu_abs, 10) + " | "@ + pad_start(
        cpu_rel,
        4,
    ) + "\r\n"@
}

/// The share of the processor that a task with run time `run` had of the total
/// `total`, in whole percent: a dash where there is no total or the run time
/// exceeds it, and "<1" for a share under one percent that is not nothing.
pub open spec fn cpu_share(run: u32, total: u32) -> Seq<char> {
    if total > 0 && run <= total {
        pad_start(
            if (run * 100) / (total as int) == 0 && run > 0 {
                "<1"@
            } else {
                decimal(((run * 100) / (total as int)) as nat)
            },
            3,
        ).push('%')
    } else {
        "-"@
    }
}

fn push_table_row(
    out: &mut String,
    id: &str,
    name: &str,
    state: &str,
    priority: &str,
    stack: &str,
    cpu_abs: &str,
    cpu_rel: &str,
)
    ensures
        final(out)@ == old(out)@ + table_row(
            id@,
            name@,
            state@,
            priority@,
            stack@,
            cpu_abs@,
            cpu_rel@,
        ),
{
    let ghost start = out@;
    push_padded_end(out, id, 6);
    out.append(" | ");
    push_padded_end(out, name, 16);
    out.append(" | ");
    push_padded_end(out, state, 9);
    out.append(" | ");
    push_padded_end(out, priority, 8);
    out.append(" | ");
    push_padded_start(out, stack, 10);
    out.append(" | ");
    push_padded_start(out, cpu_abs, 10);
    out.append(" | ");
    push_padded_start(out, cpu_rel, 4);
    out.append("\r\n");
    assert(out@ =~= start + table_row(id@, name@, state@, priority@, stack@, cpu_abs@, cpu_rel@));
}

fn cpu_share_string(run: u32, total: u32) -> (s: String)
    ensures
        s@ == cpu_share(run, total),
{
    if total > 0 && run <= total {
        let p: u64 = (run as u64 * 100) / total as u64;
        let ps = if p == 0 && run > 0 {
            "<1".to_owned()
        } else {
            decimal_string(p)
        };
        let mut s = String::new();
        push_padded_start(&mut s, ps.as_str(), 3);
        s.push('%');
        assert(s@ =~= cpu_share(run, total));
        s
    } else {
        "-".to_owned()
    }
}

impl FreeRtosTaskStatus {
    /// The line of the task table for the task, in a system whose total run
    /// time is `total`.
    pub open spec fn line(&self, total: u32) -> Seq<char> {
        table_row(
            decimal(self.task_number as nat),
            self.name@,
            self.task_state.spec_name(),
            decimal(self.current_priority.0 as nat),
            decimal(self.stack_high_water_mark as nat),
            decimal(self.run_time_counter as nat),
            cpu_share(self.run_time_counter, total),
        )
    }
}

impl FreeRtosSystemState {
    /// The head of the task table.
    pub open spec fn head() -> Seq<char> {
        "FreeRTOS tasks\r\n"@ + table_row(
            "ID"@,
            "Name"@,
            "State"@,
            "Priority"@,
            "Stack left"@,
            "CPU"@,
            "%"@,
        )
    }

    /// The lines of the first `n` tasks, in order.
    pub open spec fn lines(tasks: Seq<FreeRtosTaskStatus>, total: u32, n: int) -> Seq<char>
        decreases n,
    {
        if n <= 0 {
            Seq::empty()
        } else {
            Self::lines(tasks, total, n - 1) + tasks[n - 1].line(total)
        }
    }

    /// The line that closes the table: the total run time, where there is one.
    pub open spec fn foot(total: u32) -> Seq<char> {
        if total > 0 {
            "Total run time: "@ + decimal(total as nat) + "\r\n"@
        } else {
            Seq::empty()
        }
    }

    /// The task table as text.
    pub open spec fn text(&self) -> Seq<char> {
        Self::head() + Self::lines(self.tasks@, self.total_run_time, self.tasks@.len() as int)
            + Self::foot(self.total_run_time)
    }

    /// The task table as text: a title, a line of column heads, a line for
    /// each task, and the total run time where there is one.
    pub fn to_string(&self) -> (text: String)
        ensures
            text@ == self.text(),
    {
        let mut out = String::new();
        out.append("FreeRTOS tasks\r\n");
        push_table_row(&mut out, "ID", "Name", "State", "Priority", "Stack left", "CPU", "%");
        assert(out@ =~= Self::head());
        let mut i: usize = 0;
        while i < self.tasks.len()
            invariant
                i <= self.tasks@.len(),
                out@ == Self::head() + Self::lines(self.tasks@, self.total_run_time, i as int),
            decreases self.tasks@.len() - i,
        {
            let task = &self.tasks[i];
            let ghost before = out@;
            let id = decimal_string(task.task_number as u64);
            let priority = decimal_string(task.current_priority.0 as u64);
            let stack = decimal_string(task.stack_high_water_mark as u64);
            let cpu_abs = decimal_string(task.run_time_counter as u64);
            let cpu_rel = cpu_share_string(task.run_time_counter, self.total_run_time);
            push_table_row(
                &mut out,
                id.as_str(),
                task.name.as_str(),
                task.task_state.name(),
                priority.as_str(),
                stack.as_str(),
                cpu_abs.as_str(),
                cpu_rel.as_str(),
            );
            i += 1;
            assert(out@ =~= Self::head() + Self::lines(self.tasks@, self.total_run_time, i as int));
        }
        let ghost body = out@;
        if self.total_run_time > 0 {
            out.append("Total run time: ");
            let total = decimal_string(self.total_run_time as u64);
            out.append(total.as_str());
            out.append("\r\n");
        }
        assert(out@ =~= body + Self::foot(self.total_run_time));
        out
    }
}

pub struct FreeRtosUtils;

#[derive(Debug, Clone, Copy, PartialEq, Eq, Structural)]
pub enum FreeRtosSchedulerState {
    Suspended,
    NotStarted,
    Running,
}

impl FreeRtosUtils {
    /// The state of the scheduler: not started until it is started, then
    /// running unless it is suspended.
    pub fn scheduler_state(k: &Kernel) -> (state: FreeRtosSchedulerState)
        ensures
            state == (if !k@.started {
                FreeRtosSchedulerState::NotStarted
            } else if k@.suspend_depth == 0 {
                FreeRtosSchedulerState::Running
            } else {
                FreeRtosSchedulerState::Suspended
            }),
    {
        match Self::scheduler_state_of(freertos_rt_xTaskGetSchedulerState(k)) {
            Some(state) => state,
            None => FreeRtosSchedulerState::Running,
        }
    }

    /// The state of the scheduler that a code of the kernel stands for: 0 for
    /// suspended, 1 for not started, 2 for running, and none for any other
    /// code.
    pub fn scheduler_state_of(code: FreeRtosBaseType) -> (state: Option<FreeRtosSchedulerState>)
        ensures
            code == 0 ==> state == Some(FreeRtosSchedulerState::Suspended),
            code == 1 ==> state == Some(FreeRtosSchedulerState::NotStarted),
            code == 2 ==> state == Some(FreeRtosSchedulerState::Running),
            code < 0 || code > 2 ==> state is None,
    {
        if code == 0 {
            Some(FreeRtosSchedulerState::Suspended)
        } else if code == 1 {
            Some(FreeRtosSchedulerState::NotStarted)
        } else if code == 2 {
            Some(FreeRtosSchedulerState::Running)
        } else {
            None
        }
    }

    pub fn get_tick_count(k: &Kernel) -> (ticks: FreeRtosTickType)
        ensures
            ticks == k@.tick_count,
    {
        freertos_rs_xTaskGetTickCount(k)
    }

    pub fn get_tick_count_duration(k: &Kernel) -> (d: Duration)
        ensures
            d@ == k@.tick_count,
    {
        Duration::from_ticks(Self::get_tick_count(k))
    }

    pub fn get_number_of_tasks(k: &Kernel) -> (n: usize)
        requires
            k.wf(),
        ensures
            n == k@.tasks.len(),
    {
        freertos_rs_get_number_of_tasks(k) as usize
    }

    /// The number of rows asked of the kernel for a snapshot: the length
    /// given, or as many as 32 bits can count where it is more, or the number
    /// of tasks where none is given.
    pub open spec fn rows_asked(k: KernelView, tasks_len: Option<usize>) -> u32 {
        match tasks_len {
            Some(n) => if n > u32::MAX {
                u32::MAX
            } else {
                n as u32
            },
            None => k.tasks.len() as u32,
        }
    }

    /// A snapshot of all tasks, in the order of their handles, with room for
    /// `tasks_len` of them, or for as many as there are where no length is
    /// given. Where the room is too small for all tasks, the snapshot is empty.
    pub fn get_all_tasks(k: &Kernel, tasks_len: Option<usize>) -> (state: FreeRtosSystemState)
        requires
            k.wf(),
        ensures
            Self::rows_asked(k@, tasks_len) >= k@.tasks.len() ==> {
                &&& state.tasks@.len() == k@.tasks.len()
                &&& forall|i: int|
                    0 <= i < state.tasks@.len() ==> (#[trigger] state.tasks@[i]).describes(
                        (i + 1) as usize,
                        k@.tasks[i],
                    )
                &&& state.total_run_time == k@.total_run_time
            },
            Self::rows_asked(k@, tasks_len) < k@.tasks.len() ==> state.tasks@.len() == 0
                && state.total_run_time == 0,
    {
        let tasks_len: usize = match tasks_len {
            Some(n) => n,
            None => Self::get_number_of_tasks(k),
        };
        let rows_asked: FreeRtosUBaseType = if tasks_len > u32::MAX as usize {
            u32::MAX
        } else {
            tasks_len as FreeRtosUBaseType
        };
        let mut total_run_time: u32 = 0;
        let rows = freertos_rs_get_system_state(k, rows_asked, &mut total_run_time);
        let mut tasks: Vec<FreeRtosTaskStatus> = Vec::new();
        let mut i: usize = 0;
        while i < rows.len()
            invariant
                i <= rows@.len(),
                tasks@.len() == i,
                rows@.len() == k@.tasks.len() || rows@.len() == 0,
                forall|j: int|
                    0 <= j < rows@.len() ==> k@.tasks[j].status_row(
                        (j + 1) as usize,
                        #[trigger] rows@[j],
                    ),
                forall|j: int|
                    0 <= j < i ==> (#[trigger] tasks@[j]).describes((j + 1) as usize, k@.tasks[j]),
            decreases rows@.len() - i,
        {
            let status = FreeRtosTaskStatus::from_ffi(&rows[i]);
            assert(k@.tasks[i as int].status_row((i + 1) as usize, rows@[i as int]));
            tasks.push(status);
            i += 1;
        }
        FreeRtosSystemState { tasks: tasks, total_run_time: total_run_time }
    }
}

} // verus!
