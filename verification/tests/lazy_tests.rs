use nospin::Lazy;
use std::cell::Cell;
use std::rc::Rc;

#[test]
fn lazy_force_caches() {
    let mut lazy = Lazy::new(|| 92);

    assert_eq!(*Lazy::force(&mut lazy), 92);
    assert_eq!(*Lazy::force(&mut lazy), 92);
}

#[test]
fn lazy_initializer_runs_at_most_once() {
    let counter = Rc::new(Cell::new(0u32));
    let c = counter.clone();
    let mut lazy = Lazy::new(move || {
        c.set(c.get() + 1);
        7u32
    });

    assert_eq!(*Lazy::force(&mut lazy), 7);
    assert_eq!(*Lazy::force(&mut lazy), 7);
    assert_eq!(*Lazy::force(&mut lazy), 7);
    assert_eq!(counter.get(), 1);
}
