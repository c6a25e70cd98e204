//! Producers push onto their queue, from any number of threads.

use vstd::prelude::*;
use allocator_api2::alloc::{AllocError, Global};

use crate::capability::Allocator;
use crate::queue::Queue;

verus! {

/// A producer pushes onto its `Queue`. It can be copied freely: every copy
/// refers to the same queue.
#[verifier::reject_recursive_types(T)]
pub struct Producer<'q, T, A: Allocator = Global> {
    pub(crate) queue: &'q Queue<T, A>,
}

impl<'q, T, A: Allocator> Clone for Producer<'q, T, A> {
    fn clone(&self) -> (r: Self)
        ensures
            r.target() == self.target(),
    {
        Producer { queue: self.queue }
    }
}

impl<'q, T, A: Allocator> Producer<'q, T, A> {
    /// The queue that this handle works on.
    pub open(crate) spec fn target(&self) -> &'q Queue<T, A> {
        self.queue
    }
}

impl<'q, T, A: Allocator> Producer<'q, T, A> {
    /// The underlying queue.
    pub fn queue(&self) -> (r: &Queue<T, A>)
        ensures
            r == self.target(),
    {
        self.queue
    }

    /// Pushes `elem` on top. The capability must grant every request; the
    /// push then fails only where every link number is in use.
    pub fn push(&mut self, elem: T)
        requires
            old(self).target().allocator().infallible(),
        ensures
            *final(self) == *old(self),
    {
        let _ = self.try_push(elem);
    }

    /// Pushes `elem` on top, or hands it back with the error where no room is
    /// granted.
    pub fn try_push(&mut self, elem: T) -> (r: Result<(), (T, AllocError)>)
        ensures
            r is Err ==> r->Err_0.0 == elem,
            *final(self) == *old(self),
    {
        self.queue.try_push_atomic(elem)
    }
}

} // verus!
