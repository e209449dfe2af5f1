//! The capabilities a container needs to be poolable, with implementations
//! for the growable std containers whose behavior vstd specifies: vectors,
//! strings, hash maps, hash sets and double-ended queues. `BinaryHeap` is
//! not among them: Verus cannot declare that type (its hidden allocator
//! parameter is refused), so it cannot carry these capabilities here.
//! User-defined container types opt in by implementing both traits.

use vstd::prelude::*;
use std::collections::HashMap;
use std::collections::HashSet;
use std::collections::VecDeque;

verus! {

/// A container that can be reset to its empty logical state while keeping
/// whatever backing storage it has already allocated, so that the storage
/// can be reused by the next borrower.
pub trait Clearable: Sized {
    /// The mathematical model of the container's logical contents.
    type Contents;

    /// The logical contents of this instance.
    spec fn contents(&self) -> Self::Contents;

    /// Whether this instance is in its empty ("cleared") logical state.
    spec fn cleared(&self) -> bool;

    /// Reset this instance to its empty logical state. Never fails, and is
    /// idempotent: clearing an already-cleared instance leaves its logical
    /// contents unchanged.
    fn clear(&mut self)
        ensures
            final(self).cleared(),
            old(self).cleared() ==> final(self).contents() == old(self).contents(),
    ;
}

/// Default construction of an instance that starts out cleared. The pool
/// falls back to this whenever no idle instance can be handed out.
pub trait Fresh: Clearable {
    /// A new, cleared instance.
    fn fresh() -> (r: Self)
        ensures
            r.cleared(),
    ;
}

impl<T> Clearable for Vec<T> {
    type Contents = Seq<T>;

    open spec fn contents(&self) -> Seq<T> {
        self@
    }

    open spec fn cleared(&self) -> bool {
        self@ == Seq::<T>::empty()
    }

    fn clear(&mut self) {
        self.clear();
    }
}

impl<T> Fresh for Vec<T> {
    fn fresh() -> (r: Self) {
        Vec::new()
    }
}

/// Relies on `String::clear`: empties the string while keeping the
/// allocated capacity.
#[verifier::external_body]
fn clear_string(s: &mut String)
    ensures
        final(s)@ == Seq::<char>::empty(),
{
    s.clear();
}

impl Clearable for String {
    type Contents = Seq<char>;

    open spec fn contents(&self) -> Seq<char> {
        self@
    }

    open spec fn cleared(&self) -> bool {
        self@ == Seq::<char>::empty()
    }

    fn clear(&mut self) {
        clear_string(self);
    }
}

impl Fresh for String {
    fn fresh() -> (r: Self) {
        String::new()
    }
}

impl<K, V> Clearable for HashMap<K, V> {
    type Contents = Map<K, V>;

    open spec fn contents(&self) -> Map<K, V> {
        self@
    }

    open spec fn cleared(&self) -> bool {
        self@ == Map::<K, V>::empty()
    }

    fn clear(&mut self) {
        self.clear();
    }
}

impl<K, V> Fresh for HashMap<K, V> {
    fn fresh() -> (r: Self) {
        HashMap::new()
    }
}

impl<T> Clearable for HashSet<T> {
    type Contents = Set<T>;

    open spec fn contents(&self) -> Set<T> {
        self@
    }

    open spec fn cleared(&self) -> bool {
        self@ == Set::<T>::empty()
    }

    fn clear(&mut self) {
        self.clear();
    }
}

impl<T> Fresh for HashSet<T> {
    fn fresh() -> (r: Self) {
        HashSet::new()
    }
}

impl<T> Clearable for VecDeque<T> {
    type Contents = Seq<T>;

    open spec fn contents(&self) -> Seq<T> {
        self@
    }

    open spec fn cleared(&self) -> bool {
        self@ == Seq::<T>::empty()
    }

    fn clear(&mut self) {
        self.clear();
    }
}

impl<T> Fresh for VecDeque<T> {
    fn fresh() -> (r: Self) {
        VecDeque::new()
    }
}

} // verus!
