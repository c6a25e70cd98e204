//! Declarations of the outside types and functions that the queue is built
//! from, with what the library relies on of each.

use vstd::prelude::*;
use allocator_api2::alloc::{AllocError, Global};
use core::sync::atomic::Ordering;
use portable_atomic::{AtomicU64, AtomicUsize};
use std::sync::{Mutex, OnceLock};

verus! {

#[verifier::external_type_specification]
#[verifier::external_body]
pub struct ExAtomicUsize(AtomicUsize);

#[verifier::external_type_specification]
#[verifier::external_body]
pub struct ExAtomicU64(AtomicU64);

#[verifier::external_type_specification]
#[verifier::external_body]
#[verifier::reject_recursive_types(T)]
pub struct ExMutex<T: ?Sized>(Mutex<T>);

#[verifier::external_type_specification]
#[verifier::external_body]
#[verifier::reject_recursive_types(T)]
pub struct ExOnceLock<T>(OnceLock<T>);

#[verifier::external_type_specification]
pub struct ExAllocError(AllocError);

#[verifier::external_type_specification]
pub struct ExGlobal(Global);

pub assume_specification[ AtomicUsize::new ](v: usize) -> AtomicUsize;

pub assume_specification[ AtomicUsize::load ](a: &AtomicUsize, order: Ordering) -> usize
    requires
        order != Ordering::Release,
        order != Ordering::AcqRel,
;

pub assume_specification[ AtomicUsize::store ](a: &AtomicUsize, val: usize, order: Ordering)
    requires
        order != Ordering::Acquire,
        order != Ordering::AcqRel,
;

/// portable_atomic's `fetch_update`: it loads the value, and as long as `f`
/// gives `Some(next)` it tries to replace what it saw by `next` with
/// `compare_exchange_weak`, loading again after each failure. It returns
/// `Ok(prev)` when a replacement of `prev` took place, and `Err(prev)` when `f`
/// gave `None` for `prev`.
pub assume_specification<F>[ AtomicUsize::fetch_update ](
    a: &AtomicUsize,
    set_order: Ordering,
    fetch_order: Ordering,
    f: F,
) -> (r: Result<usize, usize>)
    where
        F: FnMut(usize) -> Option<usize>,
    requires
        fetch_order != Ordering::Release,
        fetch_order != Ordering::AcqRel,
        forall|v: usize| f.requires((v,)),
    ensures
        r is Ok ==> exists|n: usize| f.ensures((r->Ok_0,), Some(n)),
        r is Err ==> f.ensures((r->Err_0,), None::<usize>),
;

pub assume_specification[ AtomicU64::new ](v: u64) -> AtomicU64;

/// The same as `AtomicUsize::fetch_update`, on a 64-bit word.
pub assume_specification<F>[ AtomicU64::fetch_update ](
    a: &AtomicU64,
    set_order: Ordering,
    fetch_order: Ordering,
    f: F,
) -> (r: Result<u64, u64>)
    where
        F: FnMut(u64) -> Option<u64>,
    requires
        fetch_order != Ordering::Release,
        fetch_order != Ordering::AcqRel,
        forall|v: u64| f.requires((v,)),
    ensures
        r is Ok ==> exists|n: u64| f.ensures((r->Ok_0,), Some(n)),
        r is Err ==> f.ensures((r->Err_0,), None::<u64>),
;

pub assume_specification<T>[ Mutex::<T>::new ](t: T) -> Mutex<T>;

pub assume_specification<T>[ OnceLock::<T>::new ]() -> OnceLock<T>;

pub assume_specification<T>[ OnceLock::<T>::get ](cell: &OnceLock<T>) -> Option<&T>
;

/// `OnceLock::set` hands the value back when the cell was already set.
pub assume_specification<T>[ OnceLock::<T>::set ](cell: &OnceLock<T>, value: T) -> (r: Result<
    (),
    T,
>)
    ensures
        r is Err ==> r->Err_0 == value,
;

/// Relies on `Mutex::lock`: puts `value` in the cell, and gives back what it
/// held. A poisoned lock still hands out the cell.
#[verifier::external_body]
pub fn cell_replace<T>(cell: &Mutex<Option<T>>, value: Option<T>) -> Option<T>
{
    let mut guard = cell.lock().unwrap_or_else(|e| e.into_inner());
    core::mem::replace(&mut *guard, value)
}

} // verus!
