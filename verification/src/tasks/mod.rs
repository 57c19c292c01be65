//! The decisions of the background workers.
pub mod refresh_worker;
pub mod user_sync_worker;
