//! A task that computes one value and hands it back.

use vstd::prelude::*;
use crate::base::FreeRtosError;
use crate::mutex::Mutex;
use crate::mutex::MutexInnerImpl;
use crate::mutex::MutexState;
use crate::queue::queue_fits;
use crate::queue::Queue;
use crate::shim::queue_bytes;
use crate::shim::Kernel;
use crate::shim::KernelView;
use crate::shim::CONTROL_BLOCK_BYTES;
use crate::task::Task;
use crate::task::TaskBuilder;
use crate::units::DurationTicks;

verus! {

/// The heap that the report of a compute task takes: a queue of one item.
pub closed spec fn report_bytes() -> int {
    queue_bytes(1, vstd::layout::size_of::<ComputeTaskStatus>() as u32)
}

/// Whether the kernel creates the report of a compute task.
pub closed spec fn report_fits(k: KernelView) -> bool {
    queue_fits::<ComputeTaskStatus>(k, 1)
}

/// How far the kernel lets the making of a compute task get: 3 where it has
/// room for the place of the result, for the report and for a task with a
/// stack of `stack_size` words, one after the other; otherwise the number of
/// those it has room for before the first it has not.
pub open spec fn compute_steps(k: KernelView, stack_size: u16) -> nat {
    if !k.can_allocate(CONTROL_BLOCK_BYTES) {
        0
    } else if !report_fits(k.after_allocate(CONTROL_BLOCK_BYTES)) {
        1
    } else if !k.after_allocate(CONTROL_BLOCK_BYTES).after_create(report_bytes()).can_spawn(
        stack_size,
    ) {
        2
    } else {
        3
    }
}

/// The kernel after a compute task was made, or after the attempt was given
/// up and what it had created was deleted again.
pub open spec fn after_compute(
    k: KernelView,
    name: Seq<u8>,
    stack_size: u16,
    priority: u32,
) -> KernelView {
    let k1 = k.after_allocate(CONTROL_BLOCK_BYTES);
    let k2 = k1.after_create(report_bytes());
    if compute_steps(k, stack_size) == 0 {
        k
    } else if compute_steps(k, stack_size) == 1 {
        k1.after_release(CONTROL_BLOCK_BYTES)
    } else if compute_steps(k, stack_size) == 2 {
        k2.after_delete(report_bytes()).after_release(CONTROL_BLOCK_BYTES)
    } else {
        k2.after_spawn(name, stack_size, priority)
    }
}

pub trait ComputeTaskBuilder {
    /// The name that the kernel keeps for a task built from this.
    spec fn task_name(&self) -> Seq<u8>;

    /// The stack size in words of a task built from this.
    spec fn task_stack_size(&self) -> u16;

    /// The priority of a task built from this.
    spec fn task_priority(&self) -> u32;

    /// Spawn a task that can post a return value to the outside. The value is
    /// computed at once, on behalf of the new task, which then reports that it
    /// has finished. Fails with `OutOfMemory` where the kernel has no room for
    /// the place of the result, for the report, or for the task; what was
    /// created before the failure is deleted again, and `func` is not called.
    fn compute<F, R>(&self, k: &mut Kernel, func: F) -> (r: Result<ComputeTask<R>, FreeRtosError>) where
        F: FnOnce() -> R,

        requires
            old(k).wf(),
            call_requires(func, ()),
        ensures
            final(k).wf(),
            final(k)@ == after_compute(
                old(k)@,
                self.task_name(),
                self.task_stack_size(),
                self.task_priority(),
            ),
            match r {
                Ok(task) => {
                    &&& compute_steps(old(k)@, self.task_stack_size()) == 3
                    &&& task.wf()
                    &&& !task.finished()
                    &&& call_ensures(func, (), task.value())
                    &&& task.task_handle() == old(k)@.tasks.len() + 1
                },
                Err(e) => compute_steps(old(k)@, self.task_stack_size()) < 3 && e
                    == FreeRtosError::OutOfMemory,
            },
    ;
}

impl ComputeTaskBuilder for TaskBuilder {
    open spec fn task_name(&self) -> Seq<u8> {
        self@.kernel_name()
    }

    open spec fn task_stack_size(&self) -> u16 {
        self@.stack_size
    }

    open spec fn task_priority(&self) -> u32 {
        self@.priority as u32
    }

    fn compute<F, R>(&self, k: &mut Kernel, func: F) -> (r: Result<ComputeTask<R>, FreeRtosError>) where
        F: FnOnce() -> R,
     {
        let mut result: Mutex<Option<R>> = match Mutex::new(k, None) {
            Ok(m) => m,
            Err(e) => {
                return Err(e);
            },
        };
        let mut status: Queue<ComputeTaskStatus> = match Queue::new(k, 1) {
            Ok(q) => q,
            Err(e) => {
                result.into_inner(k);
                return Err(e);
            },
        };
        let task = match self.start(k) {
            Ok(t) => t,
            Err(e) => {
                status.delete(k);
                result.into_inner(k);
                return Err(e);
            },
        };
        let r = func();
        *result.get_mut() = Some(r);
        let sent = status.send(k, ComputeTaskStatus::Finished, crate::units::Duration::zero());
        Ok(ComputeTask { task: task, result: result, status: status, finished: false })
    }
}

/// A task that can terminate and return its return value. Implemented using a
/// mutex for the value and a queue for the report that it is there.
pub struct ComputeTask<R> {
    task: Task,
    result: Mutex<Option<R>>,
    status: Queue<ComputeTaskStatus>,
    finished: bool,
}

#[derive(Debug, Copy, Clone)]
enum ComputeTaskStatus {
    Finished,
}

impl<R> ComputeTask<R> {
    /// Whether the report that the task has finished has been received.
    pub closed spec fn finished(&self) -> bool {
        self.finished
    }

    /// The value that the task computed.
    pub closed spec fn value(&self) -> R {
        self.result@->0
    }

    /// The handle of the task that computed the value.
    pub closed spec fn task_handle(&self) -> usize {
        self.task@
    }

    /// What holds of every compute task: the value is there, nobody holds it,
    /// and the report that it is there waits until it has been received.
    pub closed spec fn wf(&self) -> bool {
        &&& self.result@ is Some
        &&& self.result.inner().inv()
        &&& self.result.inner().state() == MutexState::free()
        &&& self.status.wf()
        &&& self.status.capacity() == 1
        &&& self.status.item_size() == vstd::layout::size_of::<ComputeTaskStatus>() as u32
        &&& !self.finished ==> self.status@.len() == 1
        &&& self.finished ==> self.status@.len() == 0
    }

    /// Get the handle of the task that computes the result.
    pub fn get_task(&self) -> (task: &Task)
        ensures
            task@ == self.task_handle(),
    {
        &self.task
    }

    /// Wait until the task computes its result. It has, so the report is
    /// received at once, if it has not been received before.
    pub fn wait_for_result<D: DurationTicks>(&mut self, k: &mut Kernel, max_wait: D) -> (r: Result<
        (),
        FreeRtosError,
    >)
        requires
            old(self).wf(),
            old(k).wf(),
        ensures
            final(self).wf(),
            final(k).wf(),
            r is Ok,
            final(self).finished(),
            final(self).value() == old(self).value(),
            final(self).task_handle() == old(self).task_handle(),
            final(k)@ == old(k)@,
    {
        if self.finished == true {
            Ok(())
        } else {
            match self.status.receive(k, max_wait) {
                Ok(ComputeTaskStatus::Finished) => {
                    self.finished = true;
                    Ok(())
                },
                Err(e) => Err(e),
            }
        }
    }

    /// Consume the task and unwrap the computed return value. The report and
    /// the place of the result are deleted, and their memory goes back to the
    /// kernel.
    pub fn into_result<D: DurationTicks>(self, k: &mut Kernel, max_wait: D) -> (r: Result<
        R,
        FreeRtosError,
    >)
        requires
            self.wf(),
            old(k).wf(),
        ensures
            final(k).wf(),
            r == Ok::<R, FreeRtosError>(self.value()),
            final(k)@ == old(k)@.after_delete(report_bytes()).after_release(CONTROL_BLOCK_BYTES),
    {
        let mut this = self;
        match this.wait_for_result(k, max_wait) {
            Ok(_) => {},
            Err(e) => {
                return Err(e);
            },
        }
        let ComputeTask { task, result, status, finished } = this;
        status.delete(k);
        let option_r = result.into_inner(k);
        match option_r {
            Some(r) => Ok(r),
            None => Err(FreeRtosError::Timeout),
        }
    }
}

} // verus!
