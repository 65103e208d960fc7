use nospin::Once;
use std::cell::Cell;
use std::rc::Rc;
use std::sync::atomic::{AtomicUsize, Ordering};
use std::sync::Arc;

struct DropTest {
    flag: Rc<Cell<bool>>,
}

impl Drop for DropTest {
    fn drop(&mut self) {
        self.flag.set(true);
    }
}

#[test]
fn smoke_once() {
    let mut o: Once = Once::new();
    let mut a: u32 = 0;
    o.call_once(|| a += 1);
    assert_eq!(a, 1);
    o.call_once(|| a += 1);
    assert_eq!(a, 1);
}

#[test]
fn smoke_once_value() {
    let mut o: Once<usize> = Once::new();
    let a = *o.call_once(|| 1);
    assert_eq!(a, 1);
    let b = *o.call_once(|| 2);
    assert_eq!(b, 1);
}

#[test]
fn get() {
    let mut init: Once<usize> = Once::new();

    assert!(init.get().is_none());
    init.call_once(|| 2);
    assert_eq!(init.get().copied(), Some(2));
}

#[test]
fn poll() {
    let mut init: Once<usize> = Once::new();

    assert!(init.poll().is_none());
    init.call_once(|| 3);
    assert_eq!(init.poll().copied(), Some(3));
}

#[test]
fn init_constant() {
    let mut o: Once = Once::default();
    let mut a: u32 = 0;
    o.call_once(|| a += 1);
    assert_eq!(a, 1);
    o.call_once(|| a += 1);
    assert_eq!(a, 1);
}

#[test]
fn call_once_test() {
    for _ in 0..20 {
        let share = Arc::new(AtomicUsize::new(0));
        let mut once: Once = Once::new();
        for _ in 0..8 {
            once.call_once(|| {
                share.fetch_add(1, Ordering::SeqCst);
            });
        }
        assert_eq!(1, share.load(Ordering::SeqCst));
    }
}

#[test]
fn drop_occurs_and_skip_uninit_drop() {
    let called = Rc::new(Cell::new(false));

    {
        let mut once = Once::new();
        once.call_once(|| DropTest { flag: called.clone() });
    }

    assert!(called.get());
    // Now test that we skip drops for the uninitialized case.
    called.set(false);

    let once: Once<DropTest> = Once::new();
    drop(once);

    assert!(!called.get());
}

#[test]
fn try_call_once_retries_after_error() {
    let mut once: Once<u32> = Once::new();
    let r = once.try_call_once(|| Err::<u32, &str>("not yet"));
    assert!(r.is_err());
    assert!(!once.is_completed());
    let v = *once.try_call_once(|| Ok::<u32, &str>(5)).unwrap();
    assert_eq!(v, 5);
    assert!(once.is_completed());
}

#[test]
fn try_call_once_returns_cached_value() {
    let mut once: Once<u32> = Once::initialized(9);
    let v = *once.try_call_once(|| Err::<u32, ()>(())).unwrap();
    assert_eq!(v, 9);
}

#[test]
fn once_accessors() {
    let mut o = Once::initialized(7u32);
    assert!(o.is_completed());
    assert_eq!(*o.get_unchecked(), 7);
    *o.get_mut().unwrap() += 1;
    assert_eq!(*o.wait(), 8);
    assert_eq!(*o.get_mut_unchecked(), 8);
    assert_eq!(o.into_inner_unchecked(), 8);
}

#[test]
fn once_from_and_default() {
    let o = Once::from(3u8);
    assert_eq!(o.get().copied(), Some(3));
    let mut d: Once<u8> = Once::default();
    assert!(d.get().is_none());
    assert!(d.get_mut().is_none());
    assert!(!d.is_completed());
}
