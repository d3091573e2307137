//! Safe wrappers around the primitives of a real-time kernel: tasks, queues,
//! mutexes, semaphores, software timers, event groups, interrupt contexts and
//! critical sections.
//!
//! The kernel itself is not part of this crate. What the wrappers need from it
//! is gathered in [`shim`], as a sequential reference model with the kernel's
//! entry points: one task runs at a time, and a call that would block waits
//! out its timeout instead, advancing the kernel's clock by that wait. The
//! wrappers are stated and proved against that model.
//!
//! Four things follow from that for every caller:
//!
//! - The kernel is a value, [`Kernel`], that is handed to each call that needs
//!   it.
//! - A guard does not end by going out of scope. It ends when it is unlocked,
//!   and what it guards stays taken until then.
//! - A wait of [`Duration::infinite`] has no end. A call that would block is
//!   never made with it: nothing could end the wait, so the call would not
//!   return. Each blocking call asks this of its caller.
//! - A task or a timer is created without the code it runs. The scheduler is
//!   stood for by [`Kernel::switch_to`], and a timer says how often its
//!   callback is due through [`Timer::expirations`].
//!
//! # Samples
//!
//! Queue
//!
//! ```ignore
//! let mut k = Kernel::new(KernelConfig { tick_period_ms: 1, max_wait: u32::MAX, heap_size: 4096, word_bytes: 4 });
//! let mut q = Queue::new(&mut k, 10).unwrap();
//! q.send(&mut k, 10, Duration::from_ms(&k, 5)).unwrap();
//! q.receive(&mut k, Duration::infinite(&k)).unwrap();
//! ```
//!
//! Mutex
//!
//! ```ignore
//! let mut m = Mutex::new(&mut k, 0).unwrap();
//! let mut v = m.lock(&mut k, Duration::infinite(&k)).unwrap();
//! *v.deref_mut() += 1;
//! v.unlock();
//! ```

pub mod base;
pub mod build_target;
pub mod critical;
pub mod delays;
pub mod event_group;
pub mod hooks;
pub mod isr;
pub mod mutex;
pub mod patterns;
pub mod queue;
pub mod semaphore;
pub mod shim;
pub mod task;
pub mod text;
pub mod timers;
pub mod units;
pub mod utils;

pub use crate::base::FreeRtosError;
pub use crate::base::FreeRtosTaskState;
pub use crate::critical::CriticalRegion;
pub use crate::critical::ExclusiveData;
pub use crate::critical::SuspendScheduler;
pub use crate::delays::TaskDelay;
pub use crate::delays::TaskDelayPeriodic;
pub use crate::event_group::EventGroup;
pub use crate::hooks::FreeRtosHooks;
pub use crate::isr::InterruptContext;
pub use crate::mutex::Mutex;
pub use crate::mutex::MutexGuard;
pub use crate::mutex::MutexImpl;
pub use crate::mutex::MutexInnerImpl;
pub use crate::mutex::MutexNormal;
pub use crate::mutex::MutexRecursive;
pub use crate::mutex::RecursiveMutex;
pub use crate::queue::Queue;
pub use crate::queue::SendError;
pub use crate::semaphore::Semaphore;
pub use crate::semaphore::SemaphoreGuard;
pub use crate::shim::Kernel;
pub use crate::shim::KernelConfig;
pub use crate::task::CurrentTask;
pub use crate::task::FreeRtosSchedulerState;
pub use crate::task::FreeRtosSystemState;
pub use crate::task::FreeRtosTaskStatus;
pub use crate::task::FreeRtosUtils;
pub use crate::task::Task;
pub use crate::task::TaskBuilder;
pub use crate::task::TaskNotification;
pub use crate::task::TaskPriority;
pub use crate::timers::Timer;
pub use crate::timers::TimerBuilder;
pub use crate::units::Duration;
pub use crate::units::DurationImpl;
pub use crate::units::DurationTicks;
pub use crate::units::FreeRtosTimeUnits;
pub use crate::units::FreeRtosTimeUnitsShimmed;
pub use crate::utils::shim_sanity_check;
pub use crate::utils::str_from_c_string;
pub use crate::utils::TypeSizeError;
