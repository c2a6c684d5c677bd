//! A value wrapper that wakes a waiting task whenever the value is reached
//! through a mutable reference.
pub mod wake_on;

pub use wake_on::WakeOnWrite;
