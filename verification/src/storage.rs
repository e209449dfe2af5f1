use vstd::prelude::*;
use core::cell::RefCell;
use crate::clearable::Clearable;
use crate::clearable::Fresh;

verus! {

/// The idle list's synchronization is transiently unavailable: a reentrant
/// access attempt on a single-owner store, or a lock left in a corrupted
/// state by a thread that terminated while holding it. Always recoverable;
/// only explicit pre-warming surfaces it to callers.
#[derive(Clone, Copy, Debug, PartialEq, Eq)]
pub struct AccessError;

/// Storage for a pool's idle instances, offering fallible exclusive access.
///
/// An implementation owns a list of idle instances and grants access to it
/// one caller at a time. Access can fail transiently; callers treat failure
/// as "no idle instance available right now", never as a crash. Every
/// instance handed in is cleared, so every instance a store can hand out
/// was cleared when it was stored.
pub trait IdleStore<T: Clearable + Fresh>: Sized {
    /// A new store holding no idle instances.
    fn empty_store() -> Self;

    /// Attempt exclusive access and take out the most recently stored
    /// instance. `None` when the store is empty or access is unavailable.
    fn try_pop(&self) -> Option<T>;

    /// Attempt exclusive access and store a cleared instance for reuse.
    /// `false` when access is unavailable, in which case the instance is
    /// dropped rather than stored.
    fn try_return(&self, item: T) -> bool
        requires
            item.cleared(),
    ;

    /// Attempt exclusive access once, and under it move every instance of
    /// `batch` onto the idle list. `false` when access is unavailable, in
    /// which case nothing is stored and the batch is dropped.
    fn try_store_all(&self, batch: Vec<T>) -> bool
        requires
            forall|i: int| 0 <= i < batch@.len() ==> (#[trigger] batch@[i]).cleared(),
    ;

    /// The current number of idle instances, or `None` when read access is
    /// unavailable. Best-effort: under concurrent use the count may be
    /// stale by the time the caller sees it.
    fn try_len(&self) -> Option<usize>;
}

/// The verified core of pre-warming: push `count` freshly constructed
/// instances onto an idle list. The list grows by exactly `count`, the
/// entries already present are untouched, and every new entry is cleared.
pub fn fill_fresh<T: Clearable + Fresh>(v: &mut Vec<T>, count: usize)
    ensures
        final(v)@.len() == old(v)@.len() + count,
        forall|i: int| 0 <= i < old(v)@.len() ==> final(v)@[i] == old(v)@[i],
        forall|i: int|
            old(v)@.len() <= i < final(v)@.len() ==> (#[trigger] final(v)@[i]).cleared(),
{
    let ghost orig: Seq<T> = v@;
    let mut i: usize = 0;
    while i < count
        invariant
            i <= count,
            v@.len() == orig.len() + i,
            forall|j: int| 0 <= j < orig.len() ==> v@[j] == orig[j],
            forall|j: int| orig.len() <= j < v@.len() ==> (#[trigger] v@[j]).cleared(),
        decreases count - i,
    {
        v.push(T::fresh());
        i = i + 1;
    }
}

#[verifier::external_type_specification]
#[verifier::external_body]
#[verifier::reject_recursive_types(T)]
pub struct ExRefCell<T: ?Sized>(RefCell<T>);

/// Idle-instance storage for a single logical owner. Exclusive access is
/// checked at runtime and fails on a reentrant attempt instead of
/// blocking; no cross-thread synchronization is performed, so the store
/// cannot be shared across threads.
#[verifier::reject_recursive_types(T)]
pub struct OwnerStore<T> {
    cell: RefCell<Vec<T>>,
}

/// Relies on `RefCell::new`: wraps the given vector in a fresh cell that
/// is not currently borrowed.
#[verifier::external_body]
fn new_ref_cell<T>(v: Vec<T>) -> RefCell<Vec<T>> {
    RefCell::new(v)
}

/// Relies on `RefCell::try_borrow_mut`, which grants exclusive access
/// unless the cell is already borrowed, and `Vec::pop`, which removes and
/// returns the last element if there is one.
#[verifier::external_body]
fn cell_pop<T>(cell: &RefCell<Vec<T>>) -> Option<T> {
    match cell.try_borrow_mut() {
        Ok(mut v) => v.pop(),
        Err(_) => None,
    }
}

/// Relies on `RefCell::try_borrow_mut` as above, and `Vec::push`, which
/// appends the instance to the idle list.
#[verifier::external_body]
fn cell_push<T>(cell: &RefCell<Vec<T>>, item: T) -> bool {
    match cell.try_borrow_mut() {
        Ok(mut v) => {
            v.push(item);
            true
        },
        Err(_) => false,
    }
}

/// Relies on `RefCell::try_borrow_mut` as above, and `Vec::append`, which
/// moves every element of the batch onto the end of the idle list.
#[verifier::external_body]
fn cell_append<T>(cell: &RefCell<Vec<T>>, mut batch: Vec<T>) -> bool {
    match cell.try_borrow_mut() {
        Ok(mut v) => {
            v.append(&mut batch);
            true
        },
        Err(_) => false,
    }
}

/// Relies on `RefCell::try_borrow`, which grants read access unless the
/// cell is exclusively borrowed, and `Vec::len`.
#[verifier::external_body]
fn cell_len<T>(cell: &RefCell<Vec<T>>) -> Option<usize> {
    match cell.try_borrow() {
        Ok(v) => Some(v.len()),
        Err(_) => None,
    }
}

impl<T: Clearable + Fresh> IdleStore<T> for OwnerStore<T> {
    fn empty_store() -> Self {
        OwnerStore { cell: new_ref_cell(Vec::new()) }
    }

    fn try_pop(&self) -> Option<T> {
        cell_pop(&self.cell)
    }

    fn try_return(&self, item: T) -> bool {
        cell_push(&self.cell, item)
    }

    fn try_store_all(&self, batch: Vec<T>) -> bool {
        cell_append(&self.cell, batch)
    }

    fn try_len(&self) -> Option<usize> {
        cell_len(&self.cell)
    }
}

} // verus!
