//! Cancellation trees, wait groups and contexts for async tasks.
pub mod cancel_tree;
pub mod context;
pub mod sync;
pub mod wait_group;
pub mod waiter;

pub use cancel_tree::CancelTree;
pub use wait_group::{Group, Worker};
