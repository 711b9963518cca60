pub mod cycle;
pub mod dispatch;
pub mod entry;
pub mod scheduler;
pub mod store;
