//! The consumer pops from its queue.

use vstd::prelude::*;
use allocator_api2::alloc::Global;

use crate::capability::Allocator;
use crate::queue::Queue;

verus! {

/// The consumer pops from its `Queue`. It cannot be copied, and `pop` takes it
/// by `&mut`: so no two retires ever overlap.
#[verifier::reject_recursive_types(T)]
pub struct Consumer<'q, T, A: Allocator = Global> {
    pub(crate) queue: &'q Queue<T, A>,
}

impl<'q, T, A: Allocator> Consumer<'q, T, A> {
    /// The queue that this handle works on.
    pub open(crate) spec fn target(&self) -> &'q Queue<T, A> {
        self.queue
    }
}

impl<'q, T, A: Allocator> Consumer<'q, T, A> {
    /// The underlying queue.
    pub fn queue(&self) -> (r: &Queue<T, A>)
        ensures
            r == self.target(),
    {
        self.queue
    }

    /// Takes the top element off, or `None` where the queue is empty.
    pub fn pop(&mut self) -> (r: Option<T>)
        ensures
            *final(self) == *old(self),
    {
        self.queue.pop_atomic()
    }
}

} // verus!
