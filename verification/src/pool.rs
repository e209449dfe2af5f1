use vstd::prelude::*;
use crate::clearable::Clearable;
use crate::clearable::Fresh;
use crate::storage::AccessError;
use crate::storage::fill_fresh;
use crate::storage::IdleStore;
use crate::storage::OwnerStore;
use std::collections::HashMap;
use std::collections::HashSet;
use std::collections::VecDeque;

verus! {

/// A pool of reusable container instances.
///
/// The pool owns one synchronized store holding the idle instances.
/// Checking out never fails and never blocks beyond the store's own
/// locking: when no idle instance can be had, a fresh one is constructed
/// instead.
pub struct Pool<T: Clearable + Fresh, M: IdleStore<T>> {
    vacant: M,
    _marker: core::marker::PhantomData<T>,
}

/// A scoped handle to an instance checked out of a pool.
///
/// The handle exposes the instance for reading and mutation over its whole
/// lifetime. Its terminal transition, `relinquish`, clears the instance and
/// hands it back to the owning pool; if the pool's store is unavailable at
/// that moment, the instance is discarded instead, so that ending a borrow
/// can never block or fail.
///
/// A handle that is dropped without `relinquish` — on an early return, for
/// instance — loses its instance: the memory is reclaimed normally, but
/// the instance is not returned to the pool.
pub struct Pooled<'a, T: Clearable + Fresh, M: IdleStore<T>> {
    item: Option<T>,
    parent: &'a Pool<T, M>,
}

impl<T: Clearable + Fresh, M: IdleStore<T>> Pool<T, M> {
    /// An empty pool: no idle instances are cached yet.
    pub fn new() -> Self {
        Pool { vacant: M::empty_store(), _marker: core::marker::PhantomData }
    }

    /// Check out an instance. The last idle instance is taken if the store
    /// grants access and has one; otherwise a fresh instance is
    /// constructed. Either way the instance is cleared once more before it
    /// is handed out, so the borrower always starts from the empty state.
    pub fn get<'a>(&'a self) -> (h: Pooled<'a, T, M>)
        ensures
            h.wf(),
            h.entry().cleared(),
            h.origin() == *self,
    {
        let mut item: T = match self.vacant.try_pop() {
            Some(it) => it,
            None => T::fresh(),
        };
        item.clear();
        Pooled { item: Some(item), parent: self }
    }

    /// Stock the pool with `count` fresh instances. The batch is built
    /// first — `fill_fresh` fixes its length and that every entry is
    /// cleared — and then moved into the store under a single exclusive
    /// access. This is the one operation that surfaces a synchronization
    /// failure, since silently skipping an explicit sizing step would be
    /// surprising; on `Err` nothing was stored.
    pub fn prewarm(&self, count: usize) -> Result<(), AccessError> {
        let mut batch: Vec<T> = Vec::new();
        fill_fresh(&mut batch, count);
        fill_outcome(self.vacant.try_store_all(batch))
    }

    /// The current number of idle instances, or `None` when read access is
    /// transiently unavailable. A best-effort diagnostic: under concurrent
    /// mutation the count may be stale by the time the caller sees it.
    pub fn pool_size(&self) -> Option<usize> {
        self.vacant.try_len()
    }
}

/// The outcome pre-warming reports for a store access: `Ok` exactly when
/// the store granted access and was filled, `Err(AccessError)` exactly
/// when it did not.
pub fn fill_outcome(filled: bool) -> (r: Result<(), AccessError>)
    ensures
        r is Ok <==> filled,
{
    if filled {
        Ok(())
    } else {
        Err(AccessError)
    }
}

impl<T: Clearable + Fresh, M: IdleStore<T>> Default for Pool<T, M> {
    /// Same as `Pool::new`: an empty pool.
    fn default() -> Self {
        Pool::new()
    }
}

impl<'a, T: Clearable + Fresh, M: IdleStore<T>> Pooled<'a, T, M> {
    /// The handle still holds its instance. This holds from checkout until
    /// the handle's terminal transition, which only `relinquish` performs.
    pub closed spec fn wf(&self) -> bool {
        self.item is Some
    }

    /// The instance this handle currently holds.
    pub closed spec fn entry(&self) -> T {
        self.item.unwrap()
    }

    /// The pool this handle was checked out of. The handle keeps this tie
    /// for its whole lifetime; its terminal transition returns the
    /// instance to exactly this pool.
    pub closed spec fn origin(&self) -> Pool<T, M> {
        *self.parent
    }

    /// Read access to the held instance.
    pub fn inner(&self) -> (r: &T)
        requires
            self.wf(),
        ensures
            *r == self.entry(),
    {
        self.item.as_ref().unwrap()
    }

    /// Mutable access to the held instance.
    pub fn inner_mut(&mut self) -> (r: &mut T)
        requires
            old(self).wf(),
        ensures
            *r == old(self).entry(),
            final(self).wf(),
            final(self).entry() == *final(r),
            final(self).origin() == old(self).origin(),
    {
        self.item.as_mut().unwrap()
    }

    /// The handle's terminal transition, to be called when the borrow's
    /// scope ends: clear the instance and attempt to return it to the
    /// owning pool's store; when the store is unavailable the instance is
    /// discarded, so ending a borrow can neither block beyond the store's
    /// own locking nor fail. Consuming the handle makes the transition
    /// happen at most once per checkout, and no access is possible through
    /// the handle afterwards.
    pub fn relinquish(self) {
        let Pooled { item, parent } = self;
        match item {
            Some(mut it) => {
                it.clear();
                let _ = parent.vacant.try_return(it);
            },
            None => {},
        }
    }
}

/// A pool of vectors for a single logical owner.
pub type VecPool<T> = Pool<Vec<T>, OwnerStore<Vec<T>>>;

/// A pool of hash maps for a single logical owner.
pub type HashMapPool<K, V> = Pool<HashMap<K, V>, OwnerStore<HashMap<K, V>>>;

/// A pool of hash sets for a single logical owner.
pub type HashSetPool<T> = Pool<HashSet<T>, OwnerStore<HashSet<T>>>;

/// A pool of strings for a single logical owner.
pub type StringPool = Pool<String, OwnerStore<String>>;

/// A pool of double-ended queues for a single logical owner.
pub type VecDequePool<T> = Pool<VecDeque<T>, OwnerStore<VecDeque<T>>>;

} // verus!
