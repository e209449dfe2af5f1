//! A pool of reusable heap-backed containers.
//!
//! Callers borrow an empty, capacity-primed instance through a scoped
//! handle instead of allocating a new one; when the borrow ends the
//! instance is cleared — keeping its backing storage — and returned to the
//! pool for the next borrower.

pub mod clearable;
pub mod pool;
pub mod storage;
pub mod sync;

pub use clearable::Clearable;
pub use clearable::Fresh;
pub use pool::fill_outcome;
pub use pool::HashMapPool;
pub use pool::HashSetPool;
pub use pool::Pool;
pub use pool::Pooled;
pub use pool::StringPool;
pub use pool::VecDequePool;
pub use pool::VecPool;
pub use storage::fill_fresh;
pub use storage::AccessError;
pub use storage::IdleStore;
pub use storage::OwnerStore;
