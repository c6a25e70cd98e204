//! The links of a queue.

use vstd::prelude::*;
use portable_atomic::AtomicUsize;
use std::sync::Mutex;

use crate::layout::NIL;

verus! {

/// One link: the payload it carries, and the number of the link that was the
/// head just before this one was published (`NIL` for none).
///
/// A link has one owner at a time: the producer that fills it, the list once
/// it is published, the consumer that retires it, or the free list. So its
/// payload cell is never contended.
#[verifier::reject_recursive_types(T)]
pub struct Node<T> {
    pub next: AtomicUsize,
    pub data: Mutex<Option<T>>,
}

impl<T> Node<T> {
    /// A link with no payload and no successor.
    pub fn new() -> Self {
        Node { next: AtomicUsize::new(NIL), data: Mutex::new(None) }
    }
}

/// A chunk of `n` empty links.
pub fn new_chunk<T>(n: usize) -> (r: Vec<Node<T>>)
    ensures
        r@.len() == n,
{
    let mut v: Vec<Node<T>> = Vec::with_capacity(n);
    while v.len() < n
        invariant
            v@.len() <= n,
        decreases n - v@.len(),
    {
        v.push(Node::new());
    }
    v
}

} // verus!
