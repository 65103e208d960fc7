//! Lock-shaped primitives for single-owner environments.
//!
//! Each primitive keeps the familiar lock/guard API shape (mutual-exclusion
//! bookkeeping, fail-fast refusal on misuse) without performing any real
//! cross-thread synchronization: state updates are plain reads and writes,
//! and an operation that cannot proceed refuses immediately instead of
//! blocking.  Acquiring a primitive yields a guard value; releasing the
//! guard back to the primitive updates its state.
//!
//! Every operation carries a contract stating exactly how it moves the
//! primitive's state and where the protected value goes.

pub mod lazy;
pub mod mutex;
pub mod once;
pub mod rwlock;

pub use lazy::Lazy;
pub use mutex::{Mutex, MutexGuard};
pub use once::Once;
pub use rwlock::{RwLock, RwLockReadGuard, RwLockUpgradableGuard, RwLockWriteGuard};
