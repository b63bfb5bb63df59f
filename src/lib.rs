//! Fixed-capacity double-ended queues stored in an inline array of slots.
//!
//! `ArrayQueue` pushes and pops at both ends; `ArrayVec` is its first-in
//! first-out use, pushing clones at the back and popping at the front. Both
//! refuse a push when full with `CapacityError` and never allocate.
pub mod array_queue;
pub mod array_vec;
pub mod error;
pub mod model;

pub use array_queue::{ArrayQueue, ArrayQueueIterator, ArrayQueueMutIterator};
pub use array_vec::{ArrayVec, ArrayVecIterator, ArrayVecMutIterator};
pub use error::CapacityError;
