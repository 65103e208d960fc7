use nospin::rwlock::NonAtomicUsize;
use nospin::{RwLock, RwLockReadGuard, RwLockUpgradableGuard, RwLockWriteGuard};
use std::mem::forget;
use std::sync::atomic::{AtomicUsize, Ordering};
use std::sync::Arc;

#[derive(Eq, PartialEq, Debug)]
struct NonCopy(i32);

struct Foo(Arc<AtomicUsize>);

impl Drop for Foo {
    fn drop(&mut self) {
        self.0.fetch_add(1, Ordering::SeqCst);
    }
}

#[test]
fn rwlock_smoke() {
    let mut l = RwLock::new(());
    let r = l.read();
    l.unlock_shared(r);
    let w = l.write();
    l.unlock_exclusive(w);
    let r1 = l.read();
    let r2 = l.read();
    l.unlock_shared(r1);
    l.unlock_shared(r2);
    let w = l.write();
    l.unlock_exclusive(w);
}

#[test]
fn test_rwlock_try_write() {
    let mut lock = RwLock::new(0isize);
    let read_guard = lock.read();

    let write_result = lock.try_write();
    match write_result {
        None => (),
        Some(_) => panic!("try_write should not succeed while read_guard is in scope"),
    }

    lock.unlock_shared(read_guard);
}

#[test]
fn test_rw_try_read() {
    let mut m = RwLock::new(0);
    forget(m.write());
    assert!(m.try_read().is_none());
}

#[test]
fn rwlock_test_into_inner() {
    let m = RwLock::new(NonCopy(10));
    assert_eq!(m.into_inner(), NonCopy(10));
}

#[test]
fn rwlock_test_into_inner_drop() {
    let num_drops = Arc::new(AtomicUsize::new(0));
    let m = RwLock::new(Foo(num_drops.clone()));
    assert_eq!(num_drops.load(Ordering::SeqCst), 0);
    {
        let _inner = m.into_inner();
        assert_eq!(num_drops.load(Ordering::SeqCst), 0);
    }
    assert_eq!(num_drops.load(Ordering::SeqCst), 1);
}

#[test]
fn test_force_read_decrement() {
    let mut m = RwLock::new(());
    forget(m.read());
    forget(m.read());
    forget(m.read());
    assert!(m.try_write().is_none());
    m.force_read_decrement();
    m.force_read_decrement();
    assert!(m.try_write().is_none());
    m.force_read_decrement();
    assert!(m.try_write().is_some());
}

#[test]
fn test_force_write_unlock() {
    let mut m = RwLock::new(());
    forget(m.write());
    assert!(m.try_read().is_none());
    m.force_write_unlock(());
    assert!(m.try_read().is_some());
}

#[test]
fn test_upgrade_downgrade() {
    let mut m = RwLock::new(());
    {
        let r = m.read();
        let upg = m.try_upgradeable_read().unwrap();
        assert!(m.try_read().is_none());
        assert!(m.try_write().is_none());
        let upg = upg.try_upgrade(&mut m);
        assert!(upg.is_err());
        m.unlock_upgradable(upg.err().unwrap());
        m.unlock_shared(r);
    }
    {
        let w = m.write();
        let denied = m.try_upgradeable_read();
        assert!(denied.is_none());
        let r = w.downgrade(&mut m);
        let u = m.try_upgradeable_read();
        assert!(u.is_some());
        m.unlock_upgradable(u.unwrap());
        let r2 = m.try_read();
        assert!(r2.is_some());
        m.unlock_shared(r2.unwrap());
        assert!(m.try_write().is_none());
        m.unlock_shared(r);
    }
    {
        let u = m.upgradeable_read();
        assert!(m.try_upgradeable_read().is_none());
        m.unlock_upgradable(u);
    }

    assert!(m.try_upgradeable_read().unwrap().try_upgrade(&mut m).is_ok());
}

#[test]
fn reader_writer_scenario() {
    let mut rw = RwLock::new(5);

    // many reader locks can be held at once, and all see the same value
    let r1 = rw.read();
    let r2 = rw.read();
    assert_eq!(*r1.get(&rw), 5);
    assert_eq!(*r2.get(&rw), 5);

    // no write while either reader is live
    assert!(rw.try_write().is_none());
    rw.unlock_shared(r1);
    assert!(rw.try_write().is_none());
    rw.unlock_shared(r2);

    // with both readers gone, the write succeeds and mutates
    let mut w = rw.try_write().unwrap();
    *w.get_mut() += 1;
    assert_eq!(*w.get(), 6);
    rw.unlock_exclusive(w);

    let r = rw.read();
    assert_eq!(*r.get(&rw), 6);
    rw.unlock_shared(r);
}

#[test]
fn upgrade_downgrade_scenario() {
    let mut rw = RwLock::new(());

    let r = rw.read();
    let u = rw.upgradeable_read();

    // a plain reader is still live, so the upgrade fails and the guard
    // comes back usable
    let res = u.try_upgrade(&mut rw);
    assert!(res.is_err());
    let u = res.err().unwrap();

    rw.unlock_shared(r);

    // with the reader gone the upgrade goes through
    let w = match u.try_upgrade(&mut rw) {
        Ok(w) => w,
        Err(_) => panic!("no readers were left, the upgrade should succeed"),
    };

    // downgrading yields shared access and immediately re-admits readers
    let r = w.downgrade(&mut rw);
    let r2 = rw.try_read();
    assert!(r2.is_some());
    rw.unlock_shared(r2.unwrap());
    rw.unlock_shared(r);
}

#[test]
fn reader_and_writer_counts() {
    let mut rw = RwLock::new(());
    assert_eq!(rw.reader_count(), 0);
    assert_eq!(rw.writer_count(), 0);

    let r = rw.read();
    let u = rw.try_upgradeable_read().unwrap();
    assert_eq!(rw.reader_count(), 2);
    assert_eq!(rw.writer_count(), 0);

    rw.unlock_upgradable(u);
    assert_eq!(rw.reader_count(), 1);
    rw.unlock_shared(r);

    let w = rw.write();
    assert_eq!(rw.reader_count(), 0);
    assert_eq!(rw.writer_count(), 1);
    assert!(rw.is_locked());
    rw.unlock_exclusive(w);
    assert!(!rw.is_locked());
}

#[test]
fn downgrade_to_upgradeable_and_back() {
    let mut rw = RwLock::new(1u8);
    let w = rw.write();
    let u = w.downgrade_to_upgradeable(&mut rw);
    assert!(rw.try_write().is_none());
    assert_eq!(*u.get(&rw), 1);
    let w = match u.try_upgrade(&mut rw) {
        Ok(w) => w,
        Err(_) => panic!("no readers were present, the upgrade should succeed"),
    };
    rw.unlock_exclusive(w);
    assert!(rw.try_write().is_some());
}

#[test]
fn weak_variants_behave_like_strong() {
    let mut rw = RwLock::new(2u8);
    let w = rw.try_write_weak().unwrap();
    rw.unlock_exclusive(w);
    let u = rw.upgradeable_read();
    let w = match u.try_upgrade_weak(&mut rw) {
        Ok(w) => w,
        Err(_) => panic!("no readers were present, the upgrade should succeed"),
    };
    assert_eq!(*w.get(), 2);
    rw.unlock_exclusive(w);
}

#[test]
fn guard_leaks_keep_the_lock_held() {
    let mut rw = RwLock::new(4u8);
    let r = rw.read();
    assert_eq!(*RwLockReadGuard::leak(r, &rw), 4);
    assert!(rw.try_write().is_none());

    let mut rw2 = RwLock::new(5u8);
    let w = rw2.write();
    assert_eq!(RwLockWriteGuard::leak(w), 5);
    assert!(rw2.try_read().is_none());

    let mut rw3 = RwLock::new(6u8);
    let u = rw3.upgradeable_read();
    assert_eq!(*RwLockUpgradableGuard::leak(u, &rw3), 6);
    assert!(rw3.try_upgradeable_read().is_none());
}

#[test]
fn rwlock_get_mut_and_from() {
    let mut lock = RwLock::from(0u32);
    *lock.get_mut() = 10;
    let r = lock.read();
    assert_eq!(*r.get(&lock), 10);
    lock.unlock_shared(r);

    let d: RwLock<u16> = RwLock::default();
    assert_eq!(d.into_inner(), 0);
}

#[test]
fn nonatomic_usize_ops() {
    let mut c = NonAtomicUsize::new(5);
    assert_eq!(c.fetch_add(3), 5);
    assert_eq!(c.load(), 8);
    assert_eq!(c.fetch_sub(2), 8);
    assert_eq!(c.fetch_or(1), 6);
    assert_eq!(c.fetch_and(5), 7);
    assert_eq!(c.load(), 5);
    c.store(9);
    assert_eq!(c.compare_exchange(9, 11), Ok(11));
    assert_eq!(c.compare_exchange(9, 12), Err(11));
    assert_eq!(c.load(), 11);
}
