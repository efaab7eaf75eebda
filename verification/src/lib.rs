//! Fixed-capacity FIFO ring buffers with no per-element allocation, exposed
//! through one capability contract and provided in two variants: a
//! single-owner queue with exclusive access and a shared queue that guards
//! all structural mutation behind a reader-writer lock while keeping
//! count-only queries lock-free.

pub mod basic_typed_queue;
pub mod fifo_laws;
mod queue_data;
pub mod thread_safe_typed_queue;
pub mod typed_queue;

pub use basic_typed_queue::BasicTypedQueue;
pub use thread_safe_typed_queue::RefGuard;
pub use thread_safe_typed_queue::ThreadSafeTypedQueue;
pub use typed_queue::QueueError;
pub use typed_queue::TypedQueue;
