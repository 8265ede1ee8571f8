//! The verified core of a fixed-size worker pool: a closable first-in
//! first-out work channel, the pool's records of its workers and its shutdown
//! order, and each worker's decision on what it dequeued.

pub mod channel;
pub mod pool;
pub mod worker;
