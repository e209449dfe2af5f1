use std::collections::HashMap;

use objpool::fill_fresh;
use objpool::fill_outcome;
use objpool::AccessError;
use objpool::Clearable;
use objpool::Fresh;
use objpool::sync::ThreadSafeVecPool;
use objpool::VecPool;

// Clearing an already-empty instance leaves it empty and keeps its capacity.
#[test]
fn clear_empty_vec_is_noop() {
    let mut v: Vec<i32> = Vec::with_capacity(64);
    let cap = v.capacity();
    Clearable::clear(&mut v);
    assert_eq!(v.len(), 0);
    assert_eq!(v.capacity(), cap);
    Clearable::clear(&mut v);
    assert_eq!(v.len(), 0);
    assert_eq!(v.capacity(), cap);
}

#[test]
fn clear_empty_string_is_noop() {
    let mut s = String::with_capacity(32);
    let cap = s.capacity();
    Clearable::clear(&mut s);
    assert_eq!(s.len(), 0);
    assert_eq!(s.capacity(), cap);
}

#[test]
fn clear_nonempty_map_keeps_buckets() {
    let mut m: HashMap<i32, i32> = HashMap::new();
    for i in 0..100 {
        m.insert(i, i * 2);
    }
    let cap = m.capacity();
    Clearable::clear(&mut m);
    assert_eq!(m.len(), 0);
    assert!(m.capacity() >= cap);
    Clearable::clear(&mut m);
    assert_eq!(m.len(), 0);
}

// A fresh instance starts cleared.
#[test]
fn fresh_instances_start_empty() {
    let v: Vec<i32> = Fresh::fresh();
    assert_eq!(v.len(), 0);
    let s: String = Fresh::fresh();
    assert_eq!(s.len(), 0);
    let m: HashMap<String, i32> = Fresh::fresh();
    assert_eq!(m.len(), 0);
}

// The verified pre-warm core: the idle list grows by exactly the requested
// count, existing entries stay, and every new entry is empty.
#[test]
fn fill_fresh_grows_by_exactly_count() {
    let mut idle: Vec<Vec<i32>> = Vec::new();
    fill_fresh(&mut idle, 3);
    assert_eq!(idle.len(), 3);
    assert!(idle.iter().all(|v| v.is_empty()));

    idle[0].push(7);
    let mut idle2 = idle;
    fill_fresh(&mut idle2, 2);
    assert_eq!(idle2.len(), 5);
    assert_eq!(idle2[0], vec![7]);
    assert!(idle2[3].is_empty());
    assert!(idle2[4].is_empty());
}

#[test]
fn fill_fresh_zero_is_noop() {
    let mut idle: Vec<String> = Vec::new();
    fill_fresh(&mut idle, 0);
    assert_eq!(idle.len(), 0);
}

// Pre-warming reports Ok exactly when the store granted access.
#[test]
fn fill_outcome_maps_access_result() {
    assert_eq!(fill_outcome(true), Ok(()));
    assert_eq!(fill_outcome(false), Err(AccessError));
}

// Pre-warming an empty pool makes pool_size exactly n; checking out m <= n
// instances and returning them restores pool_size to n.
#[test]
fn prewarm_sets_size_exactly() {
    let pool: VecPool<u8> = VecPool::new();
    pool.prewarm(4).unwrap();
    assert_eq!(pool.pool_size().unwrap(), 4);

    let a = pool.get();
    let b = pool.get();
    assert_eq!(pool.pool_size().unwrap(), 2);
    a.relinquish();
    b.relinquish();
    assert_eq!(pool.pool_size().unwrap(), 4);
}

#[test]
fn prewarm_zero_is_ok_and_empty() {
    let pool: VecPool<u8> = VecPool::new();
    assert!(pool.prewarm(0).is_ok());
    assert_eq!(pool.pool_size().unwrap(), 0);
}

// pool_size plus the number of checked-out instances stays invariant over
// any single-threaded interleaving of checkouts and returns.
#[test]
fn checkout_return_balance() {
    let pool: VecPool<i32> = VecPool::new();
    pool.prewarm(3).unwrap();

    let a = pool.get();
    assert_eq!(pool.pool_size().unwrap() + 1, 3);
    let b = pool.get();
    assert_eq!(pool.pool_size().unwrap() + 2, 3);
    a.relinquish();
    assert_eq!(pool.pool_size().unwrap() + 1, 3);
    let c = pool.get();
    assert_eq!(pool.pool_size().unwrap() + 2, 3);
    b.relinquish();
    c.relinquish();
    assert_eq!(pool.pool_size().unwrap(), 3);
}

// Scenario: empty pool; a borrower fills an instance with 3 elements and
// returns it; the pool holds one idle instance; the next checkout is
// cleared again and keeps at least the capacity it had when returned.
#[test]
fn scenario_checkout_mutate_return() {
    let pool: VecPool<i32> = VecPool::new();
    assert_eq!(pool.pool_size().unwrap(), 0);

    let mut h = pool.get();
    assert_eq!(h.inner().len(), 0);
    h.inner_mut().push(10);
    h.inner_mut().push(20);
    h.inner_mut().push(30);
    let cap = h.inner().capacity();
    h.relinquish();

    assert_eq!(pool.pool_size().unwrap(), 1);

    let h2 = pool.get();
    assert_eq!(h2.inner().len(), 0);
    assert!(h2.inner().capacity() >= cap);
    h2.relinquish();
}

// Scenario: three handles taken from one shared pool and kept alive in the
// same scope; the pool is empty while all three are live, and holds three
// idle instances once all three are returned.
#[test]
fn three_live_handles_then_returned() {
    let pool: ThreadSafeVecPool<i32> = ThreadSafeVecPool::new();
    let a = pool.get();
    let b = pool.get();
    let c = pool.get();
    assert_eq!(pool.pool_size().unwrap(), 0);
    a.relinquish();
    b.relinquish();
    c.relinquish();
    assert_eq!(pool.pool_size().unwrap(), 3);
}

// The most recently returned instance is handed out first (stack order),
// observable through capacity.
#[test]
fn last_returned_is_first_out() {
    let pool: VecPool<i32> = VecPool::new();

    let mut small = pool.get();
    small.inner_mut().reserve(8);
    let mut big = pool.get();
    big.inner_mut().reserve(4096);
    small.relinquish();
    big.relinquish();

    let next = pool.get();
    assert!(next.inner().capacity() >= 4096);
    next.relinquish();
}
