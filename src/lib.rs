//! A lock-free stack of links with many producers and one consumer, built on
//! compare-and-swap over a shared head. Producers publish concurrently; the one
//! consumer retires the most recently published link. Each link's room is asked
//! of an allocation capability that the queue is given.

mod capability;
mod consumer;
pub mod laws;
pub mod layout;
mod node;
mod primitives;
mod producer;
mod queue;

pub use capability::Allocator;
pub use consumer::Consumer;
pub use node::Node;
pub use producer::Producer;
pub use queue::Queue;
