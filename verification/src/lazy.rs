//! A value that is initialized on the first access.

use vstd::prelude::*;

verus! {

use crate::once::Once;

/// A deferred value: an initializer function stored beside a [`Once`] cell.
///
/// Construction stores the function without invoking it.  The first call to
/// [`Lazy::force`] consumes the function, runs it and caches the result in
/// the cell; every later call returns the cached result and the function is
/// never run again.
pub struct Lazy<T, F = fn() -> T> {
    cell: Once<T>,
    init: Option<F>,
}

impl<T, F> Lazy<T, F> {
    /// Whether the deferred value has been computed.
    pub closed spec fn completed(&self) -> bool {
        self.cell.completed()
    }

    /// The computed value (meaningful only once completed).
    pub closed spec fn value(&self) -> T {
        self.cell.value()
    }

    /// The stored initializer, if it has not been consumed yet.
    pub closed spec fn pending(&self) -> Option<F> {
        self.init
    }

    /// Store `f` as the deferred initializer, without invoking it.
    pub fn new(f: F) -> (r: Lazy<T, F>)
        ensures
            !r.completed(),
            r.pending() == Some(f),
    {
        Lazy { cell: Once::new(), init: Some(f) }
    }
}

impl<T, F: FnOnce() -> T> Lazy<T, F> {
    /// While the value is still pending, an initializer must be there to
    /// produce it, and it must be callable.
    pub open spec fn wf(&self) -> bool {
        &&& (!self.completed() ==> self.pending() is Some)
        &&& (self.pending() matches Some(f) ==> call_requires(f, ()))
    }

    /// Force the evaluation of the deferred value and return a reference to
    /// the result.
    ///
    /// The first call consumes the stored initializer; later calls find the
    /// cell complete, leave everything untouched and return the cached
    /// value.
    pub fn force(this: &mut Self) -> (r: &T)
        requires
            old(this).wf(),
        ensures
            final(this).wf(),
            final(this).completed(),
            *r == final(this).value(),
            old(this).completed() ==> *final(this) == *old(this) && *r == old(this).value(),
            !old(this).completed() ==> (old(this).pending() matches Some(f) && call_ensures(
                f,
                (),
                *r,
            )),
            final(this).pending() == if old(this).completed() {
                old(this).pending()
            } else {
                Option::<F>::None
            },
    {
        if !this.cell.is_completed() {
            let f = this.init.take().unwrap();
            let v = f();
            this.cell = Once::initialized(v);
        }
        this.cell.wait()
    }
}

} // verus!
