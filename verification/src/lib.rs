//! A bridge from an operating-system event subscription to an asynchronous
//! consumer. Each notification delivered by the event subsystem is rendered
//! to structured text inside the subsystem-invoked callback and forwarded,
//! without waiting, through an unbounded queue to a single consumer loop.

pub mod bridge;
pub mod consumer;
pub mod render;
