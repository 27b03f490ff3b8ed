//! A producer/consumer bridge from a hardware capture callback into a
//! pull-based audio signal graph.
//!
//! The producer side partitions raw interleaved capture samples into
//! fixed-width frames and queues them; the consumer side is a zero-input,
//! N-output graph node that drains one frame per pull and substitutes
//! silence when the queue is momentarily empty.

pub mod channel;
pub mod config;
pub mod frame;
pub mod framing;
pub mod ids;
pub mod node;
