//! A small in-process concurrent coordination core: an ordered
//! multi-producer/single-consumer message channel with a sentinel-based
//! shutdown protocol, a shared counter offered in a lock-based and a
//! lock-free variant, and a bounded data-parallel for-each over a fixed
//! collection, together with the sequential laws (per-producer ordering,
//! drain-on-disconnect, interleaving-independent sums) that the concurrent
//! parts are expected to obey.

pub mod channel;
pub mod consumer;
pub mod counter;
pub mod history;
pub mod message;
pub mod numeric;
pub mod parallel;
pub mod printable;
