//! The allocation capability that a queue is given.

use vstd::prelude::*;
use allocator_api2::alloc::{AllocError, Global};

verus! {

/// What a queue asks for room before it publishes a link. It may be called
/// from many threads at once.
pub trait Allocator {
    /// The room of one link. It travels with the link's payload, and dropping
    /// it gives the room back: when the payload is retired, or when the queue
    /// is torn down.
    type Grant;

    /// Whether this capability grants every request.
    spec fn infallible(&self) -> bool;

    /// Asks for room for one link. `Err` refuses it: the publish then fails.
    fn allocate(&self) -> (r: Result<Self::Grant, AllocError>)
        ensures
            self.infallible() ==> r is Ok,
    ;
}

/// The ambient heap. The links live in the queue's own storage, which the heap
/// gives out, so it grants every request.
impl Allocator for Global {
    type Grant = ();

    open spec fn infallible(&self) -> bool {
        true
    }

    fn allocate(&self) -> (r: Result<(), AllocError>) {
        Ok(())
    }
}

impl<'a, A: Allocator> Allocator for &'a A {
    type Grant = A::Grant;

    open spec fn infallible(&self) -> bool {
        (**self).infallible()
    }

    fn allocate(&self) -> (r: Result<A::Grant, AllocError>) {
        (**self).allocate()
    }
}

} // verus!
