//! A handle-management layer over a reference-counted compute command queue.
//!
//! The library models the native runtime of a heterogeneous-compute platform
//! — devices, contexts, and command queues, each a reference-counted native
//! object — as explicit state ([`platform::Runtime`]), and verifies the
//! ownership and caching discipline of the queue handle ([`queue::Queue`])
//! built on top of it: construction ties the queue's lifetime to its context
//! and device, cloning retains rather than copies the native objects, the
//! device's capability version is cached once at construction, and the two
//! wait semantics — asynchronous `flush` and blocking `finish` — carry exact
//! contracts over the runtime model.

pub mod laws;
pub mod platform;
pub mod queue;

pub use crate::platform::{
    ContextId, Device, DeviceRecord, Error, InfoResult, Properties, QueueId, QueueInfo,
    QueueRecord, Runtime, RuntimeModel, Version,
};
pub use crate::queue::Queue;
