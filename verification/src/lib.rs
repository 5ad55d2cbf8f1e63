//! The scheduling core of a small multithreaded executor and reactor.

mod cpus;
pub mod event_queue;
pub mod executor;
pub mod net;
pub mod queues;
pub mod reactor;
pub mod ready;
pub mod thread_pool;
pub mod utils;
