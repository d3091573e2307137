//! Vocabulary shared by every wrapper: the error tags and the plain kernel types.

use vstd::prelude::*;

verus! {

/// Basic error type for the library.
#[derive(Copy, Clone, Debug, PartialEq, Eq, Structural)]
pub enum FreeRtosError {
    OutOfMemory,
    QueueSendTimeout,
    QueueReceiveTimeout,
    MutexTimeout,
    Timeout,
    QueueFull,
    StringConversionError,
    TaskNotFound,
    InvalidQueueSize,
    ProcessorHasShutDown,
}

pub type FreeRtosChar = u8;

pub type FreeRtosBaseType = i32;

pub type FreeRtosUBaseType = u32;

pub type FreeRtosTickType = u32;

pub type FreeRtosEventBitsType = u32;

pub type FreeRtosUnsignedLong = u32;

pub type FreeRtosUnsignedShort = u16;

/// A kernel handle is an opaque word; zero is the null handle.
pub type FreeRtosTaskHandle = usize;

pub type FreeRtosQueueHandle = usize;

pub type FreeRtosSemaphoreHandle = usize;

pub type FreeRtosTimerHandle = usize;

pub type FreeRtosEventGroupHandle = usize;

/// The state the kernel reports for a task.
#[derive(Copy, Clone, Debug, PartialEq, Eq, Structural)]
pub enum FreeRtosTaskState {
    /// A task is querying the state of itself, so must be running.
    Running,
    /// The task being queried is in a read or pending ready list.
    Ready,
    /// The task being queried is in the Blocked state.
    Blocked,
    /// The task being queried is in the Suspended state, or is in the Blocked state with an infinite time out.
    Suspended,
    /// The task being queried has been deleted, but its TCB has not yet been freed.
    Deleted,
}

impl FreeRtosTaskState {
    /// The name of the state.
    pub open spec fn spec_name(self) -> Seq<char> {
        match self {
            FreeRtosTaskState::Running => "Running"@,
            FreeRtosTaskState::Ready => "Ready"@,
            FreeRtosTaskState::Blocked => "Blocked"@,
            FreeRtosTaskState::Suspended => "Suspended"@,
            FreeRtosTaskState::Deleted => "Deleted"@,
        }
    }

    /// The name of the state.
    pub fn name(&self) -> (name: &'static str)
        ensures
            name@ == self.spec_name(),
    {
        match self {
            FreeRtosTaskState::Running => "Running",
            FreeRtosTaskState::Ready => "Ready",
            FreeRtosTaskState::Blocked => "Blocked",
            FreeRtosTaskState::Suspended => "Suspended",
            FreeRtosTaskState::Deleted => "Deleted",
        }
    }
}

/// One row of the kernel's bulk task snapshot, as it crosses the boundary.
#[derive(Clone, Debug)]
pub struct FreeRtosTaskStatusFfi {
    pub handle: FreeRtosTaskHandle,
    pub task_name: Vec<FreeRtosChar>,
    pub task_number: FreeRtosUBaseType,
    pub task_state: FreeRtosTaskState,
    pub current_priority: FreeRtosUBaseType,
    pub base_priority: FreeRtosUBaseType,
    pub run_time_counter: FreeRtosUnsignedLong,
    pub stack_high_water_mark: FreeRtosUnsignedShort,
}

/// Turns a kernel status code into a result: zero is success, any other code
/// is the failure `err` that the calling operation assigns to it.
pub fn status_to_result(status: FreeRtosBaseType, err: FreeRtosError) -> (r: Result<
    (),
    FreeRtosError,
>)
    ensures
        status == 0 ==> r == Ok::<(), FreeRtosError>(()),
        status != 0 ==> r == Err::<(), FreeRtosError>(err),
{
    if status == 0 {
        Ok(())
    } else {
        Err(err)
    }
}

} // verus!
