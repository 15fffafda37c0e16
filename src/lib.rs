//! A non-blocking mutual-exclusion lock: one atomic status flag guards a
//! single slot that holds the protected value.
pub mod mutex;
pub mod status;

pub use mutex::{Mutex, MutexGuard};
pub use status::LockStatus;
