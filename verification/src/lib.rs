//! A fixed-size worker pool that dispatches key-binding actions,
//! mouse-binding actions and deferred jobs over a shared
//! multi-producer multi-consumer queue, and coordinates an orderly
//! shutdown in which every worker consumes exactly one terminal
//! sentinel.

pub mod channel;
pub mod message;
pub mod pool;
pub mod worker;
