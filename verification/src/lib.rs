//! A concurrency-safe error-propagation primitive for a messaging client:
//! a closed taxonomy of client-level error kinds, and a single shared slot
//! into which any worker may deposit a terminal error and from which a
//! supervising component polls and consumes it.

pub mod error;
pub mod shared;
pub mod slot;

pub use error::ErrorKind;
pub use shared::SharedError;
pub use slot::ErrorSlot;
