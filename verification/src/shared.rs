//! Lock-protected orderbooks.
//!
//! Each venue's book of a market sits behind its own reader-writer lock, so
//! a feed writing one book never stalls readers of another. What a lock
//! holds at a given moment depends on the other tasks, so nothing is
//! claimed about the values read.

use crate::types::Orderbook;
use std::sync::RwLock;
use vstd::prelude::*;

verus! {

#[verifier::external_type_specification]
#[verifier::external_body]
#[verifier::reject_recursive_types(T)]
pub struct ExRwLock<T: ?Sized>(RwLock<T>);

/// `RwLock::new` wraps a value in a fresh, unlocked lock. The lock is
/// opaque here, so the contract says nothing about its content.
pub assume_specification<T>[ RwLock::<T>::new ](value: T) -> (lock: RwLock<T>)
;

/// Copies the book out from under `RwLock::read`. A poisoned lock still
/// yields the book it guards, and the guard is given up before the
/// function returns, so that the library never holds a lock across a call
/// and never asks for one it holds. The value depends on concurrent
/// writers: nothing is promised about it.
#[verifier::external_body]
pub(crate) fn load_book(lock: &RwLock<Orderbook>) -> (book: Orderbook) {
    let guard = match lock.read() {
        Ok(guard) => guard,
        Err(poisoned) => poisoned.into_inner(),
    };
    *guard
}

/// Replaces the book under `RwLock::write`. A poisoned lock is written
/// all the same, and the guard is given up before the function returns.
/// The effect is visible only through later reads of the lock.
#[verifier::external_body]
pub(crate) fn store_book(lock: &RwLock<Orderbook>, book: Orderbook) {
    let mut guard = match lock.write() {
        Ok(guard) => guard,
        Err(poisoned) => poisoned.into_inner(),
    };
    *guard = book;
}

} // verus!
