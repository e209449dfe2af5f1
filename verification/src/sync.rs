use vstd::prelude::*;
use std::sync::Mutex;
use std::collections::HashMap;
use std::collections::HashSet;
use std::collections::VecDeque;
use crate::clearable::Clearable;
use crate::clearable::Fresh;
use crate::pool::Pool;
use crate::storage::IdleStore;

verus! {

#[verifier::external_type_specification]
#[verifier::external_body]
#[verifier::reject_recursive_types(T)]
pub struct ExMutex<T: ?Sized>(Mutex<T>);

/// Idle-instance storage that can be shared across threads. Exclusive
/// access blocks until the lock is free under normal operation, and fails
/// only when the lock was left in a corrupted state by a thread that
/// terminated abnormally while holding it. The lock is held only for the
/// duration of one store operation, never across a borrower's use of an
/// instance.
#[verifier::reject_recursive_types(T)]
pub struct SharedStore<T> {
    lock: Mutex<Vec<T>>,
}

/// Relies on `Mutex::new`: wraps the given vector in a fresh, unlocked,
/// unpoisoned lock.
#[verifier::external_body]
fn new_mutex<T>(v: Vec<T>) -> Mutex<Vec<T>> {
    Mutex::new(v)
}

/// Relies on `Mutex::lock`, which blocks until the lock is free and fails
/// only on a poisoned lock, and `Vec::pop`, which removes and returns the
/// last element if there is one. The guard is released on return.
#[verifier::external_body]
fn lock_pop<T>(lock: &Mutex<Vec<T>>) -> Option<T> {
    match lock.lock() {
        Ok(mut v) => v.pop(),
        Err(_) => None,
    }
}

/// Relies on `Mutex::lock` as above, and `Vec::push`, which appends the
/// instance to the idle list.
#[verifier::external_body]
fn lock_push<T>(lock: &Mutex<Vec<T>>, item: T) -> bool {
    match lock.lock() {
        Ok(mut v) => {
            v.push(item);
            true
        },
        Err(_) => false,
    }
}

/// Relies on `Mutex::lock` as above, and `Vec::append`, which moves every
/// element of the batch onto the end of the idle list.
#[verifier::external_body]
fn lock_append<T>(lock: &Mutex<Vec<T>>, mut batch: Vec<T>) -> bool {
    match lock.lock() {
        Ok(mut v) => {
            v.append(&mut batch);
            true
        },
        Err(_) => false,
    }
}

/// Relies on `Mutex::lock` as above, and `Vec::len`.
#[verifier::external_body]
fn lock_len<T>(lock: &Mutex<Vec<T>>) -> Option<usize> {
    match lock.lock() {
        Ok(v) => Some(v.len()),
        Err(_) => None,
    }
}

impl<T: Clearable + Fresh> IdleStore<T> for SharedStore<T> {
    fn empty_store() -> Self {
        SharedStore { lock: new_mutex(Vec::new()) }
    }

    fn try_pop(&self) -> Option<T> {
        lock_pop(&self.lock)
    }

    fn try_return(&self, item: T) -> bool {
        lock_push(&self.lock, item)
    }

    fn try_store_all(&self, batch: Vec<T>) -> bool {
        lock_append(&self.lock, batch)
    }

    fn try_len(&self) -> Option<usize> {
        lock_len(&self.lock)
    }
}

/// A pool that can be shared across threads.
pub type ThreadSafePool<T> = Pool<T, SharedStore<T>>;

/// A pool of vectors shared across threads.
pub type ThreadSafeVecPool<T> = ThreadSafePool<Vec<T>>;

/// A pool of hash maps shared across threads.
pub type ThreadSafeHashMapPool<K, V> = ThreadSafePool<HashMap<K, V>>;

/// A pool of hash sets shared across threads.
pub type ThreadSafeHashSetPool<T> = ThreadSafePool<HashSet<T>>;

/// A pool of strings shared across threads.
pub type ThreadSafeStringPool = ThreadSafePool<String>;

/// A pool of double-ended queues shared across threads.
pub type ThreadSafeVecDequePool<T> = ThreadSafePool<VecDeque<T>>;

} // verus!
