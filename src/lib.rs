//! A fixed-size worker pool, as the state that its threads share.
//!
//! `queue` holds the closable FIFO of pending jobs and `pool` the lifecycle
//! of the pool and of each of its workers. Both are plain data: the threads
//! that drive them take a lock, call one method, and act on its answer.
//! `http` holds the decisions of the static-page responder whose connections
//! the pool serves.
pub mod http;
pub mod pool;
pub mod queue;
