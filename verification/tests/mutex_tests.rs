use nospin::Mutex;
use std::sync::atomic::{AtomicUsize, Ordering};
use std::sync::Arc;

const J: u32 = 1000;
const K: u32 = 3;

#[derive(Eq, PartialEq, Debug)]
struct NonCopy(i32);

struct Foo(Arc<AtomicUsize>);

impl Drop for Foo {
    fn drop(&mut self) {
        self.0.fetch_add(1, Ordering::SeqCst);
    }
}

#[test]
fn mutex_smoke() {
    let mut m = Mutex::new(());
    let g = m.lock();
    m.unlock(g);
    let g = m.lock();
    m.unlock(g);
}

#[test]
fn lots_and_lots() {
    let mut m = Mutex::new(());
    let mut cnt: u32 = 0;

    for _ in 0..K {
        for _ in 0..J {
            let g = m.lock();
            cnt += 1;
            m.unlock(g);
        }
    }

    assert_eq!(cnt, J * K);
}

#[test]
fn try_lock() {
    let mut mutex = Mutex::new(42);

    // First lock succeeds
    let a = mutex.try_lock();
    assert_eq!(a.as_ref().map(|r| *r.get()), Some(42));

    // Additional lock fails
    let b = mutex.try_lock();
    assert!(b.is_none());

    // After releasing the lock, it succeeds again
    mutex.unlock(a.unwrap());
    let c = mutex.try_lock();
    assert_eq!(c.as_ref().map(|r| *r.get()), Some(42));
}

#[test]
fn mutex_test_into_inner() {
    let m = Mutex::new(NonCopy(10));
    assert_eq!(m.into_inner(), NonCopy(10));
}

#[test]
fn mutex_test_into_inner_drop() {
    let num_drops = Arc::new(AtomicUsize::new(0));
    let m = Mutex::new(Foo(num_drops.clone()));
    assert_eq!(num_drops.load(Ordering::SeqCst), 0);
    {
        let _inner = m.into_inner();
        assert_eq!(num_drops.load(Ordering::SeqCst), 0);
    }
    assert_eq!(num_drops.load(Ordering::SeqCst), 1);
}

#[test]
fn test_mutex_force_lock() {
    let mut lock = Mutex::new(());
    std::mem::forget(lock.lock());
    lock.force_unlock(());
    assert!(lock.try_lock().is_some());
}

#[test]
fn exclusive_lock_scenario() {
    let mut lock = Mutex::new(0);

    // Modify the data
    let mut g = lock.lock();
    *g.get_mut() = 2;
    lock.unlock(g);

    // Read the data
    let g = lock.lock();
    assert_eq!(*g.get(), 2);
    lock.unlock(g);

    // While a guard is live, probing for a second one comes back empty
    let g = lock.lock();
    assert!(lock.try_lock().is_none());
    lock.unlock(g);
}

#[test]
fn mutex_get_mut_and_is_locked() {
    let mut lock = Mutex::from(0u32);
    *lock.get_mut() = 10;
    assert!(!lock.is_locked());
    let g = lock.lock();
    assert!(lock.is_locked());
    assert_eq!(*g.get(), 10);
    lock.unlock(g);
    assert!(!lock.is_locked());

    let d: Mutex<u64> = Mutex::default();
    assert_eq!(d.into_inner(), 0);
}
