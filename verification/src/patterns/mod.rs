//! Messaging patterns built from queues and mutexes.

pub mod compute_task;
pub mod processor;
pub mod pub_sub;
pub mod registry;
