//! A primitive that provides lazy one-time initialization.

use vstd::prelude::*;

verus! {

use vstd::pervasive::unreached;

/// A cell that is written at most once and readable ever after.
///
/// The slot starts empty; [`Once::call_once`] fills it on the first call
/// and every later call returns the cached value without running the
/// closure it was given.  A fallible initializer that fails through
/// [`Once::try_call_once`] leaves the slot empty, so a later call may retry
/// with another initializer; a completed slot, by contrast, is permanent.
pub struct Once<T = ()> {
    data: Option<T>,
}

impl<T> Once<T> {
    /// Whether the one-time initialization has completed.
    pub closed spec fn completed(&self) -> bool {
        self.data is Some
    }

    /// The initialized value (meaningful only once completed).
    pub closed spec fn value(&self) -> T {
        self.data->0
    }

    /// Create an empty, unstarted cell.
    pub fn new() -> (r: Once<T>)
        ensures
            !r.completed(),
    {
        Once { data: None }
    }

    /// Create a cell that is already complete, holding `data`.
    pub fn initialized(data: T) -> (r: Once<T>)
        ensures
            r.completed(),
            r.value() == data,
    {
        Once { data: Some(data) }
    }

    /// Run the initialization routine once and only once.
    ///
    /// The closure is invoked only if the cell is still empty; afterwards,
    /// and on every later call, the cached value is returned and the
    /// closure handed in is dropped untouched.
    pub fn call_once<F: FnOnce() -> T>(&mut self, f: F) -> (r: &T)
        requires
            !old(self).completed() ==> call_requires(f, ()),
        ensures
            final(self).completed(),
            *r == final(self).value(),
            old(self).completed() ==> *final(self) == *old(self) && *r == old(self).value(),
            !old(self).completed() ==> call_ensures(f, (), *r),
    {
        if self.data.is_none() {
            let v = f();
            self.data = Some(v);
        }
        match &self.data {
            Some(v) => v,
            None => unreached(),
        }
    }

    /// Like [`Once::call_once`], but the initializer may fail.
    ///
    /// A failure is passed back unchanged and leaves the cell empty, so a
    /// later call may retry; a success is permanent exactly as for
    /// [`Once::call_once`].
    pub fn try_call_once<F: FnOnce() -> Result<T, E>, E>(&mut self, f: F) -> (r: Result<&T, E>)
        requires
            !old(self).completed() ==> call_requires(f, ()),
        ensures
            final(self).completed() <==> (old(self).completed() || r is Ok),
            r matches Ok(v) ==> final(self).completed() && *v == final(self).value(),
            old(self).completed() ==> r is Ok && *final(self) == *old(self) && final(self).value()
                == old(self).value(),
            !old(self).completed() ==> match r {
                Ok(v) => call_ensures(f, (), Ok::<T, E>(*v)),
                Err(e) => call_ensures(f, (), Err::<T, E>(e)) && *final(self) == *old(self),
            },
    {
        if self.data.is_none() {
            match f() {
                Ok(v) => {
                    self.data = Some(v);
                },
                Err(e) => {
                    return Err(e);
                },
            }
        }
        match &self.data {
            Some(v) => Ok(v),
            None => unreached(),
        }
    }

    /// The initialized value, if initialization has completed.
    pub fn get(&self) -> (r: Option<&T>)
        ensures
            r is Some <==> self.completed(),
            r matches Some(v) ==> *v == self.value(),
    {
        self.data.as_ref()
    }

    /// Mutable access to the initialized value, if initialization has
    /// completed.  Exclusive access to the whole cell makes this free of
    /// any bookkeeping.
    pub fn get_mut(&mut self) -> (r: Option<&mut T>)
        ensures
            r is Some <==> old(self).completed(),
            r matches Some(v) ==> *v == old(self).value() && final(self).completed()
                && final(self).value() == *final(v),
            r is None ==> *final(self) == *old(self),
    {
        self.data.as_mut()
    }

    /// The initialized value; initialization must have completed.
    pub fn get_unchecked(&self) -> (r: &T)
        requires
            self.completed(),
        ensures
            *r == self.value(),
    {
        match &self.data {
            Some(v) => v,
            None => unreached(),
        }
    }

    /// Mutable access to the initialized value; initialization must have
    /// completed.
    pub fn get_mut_unchecked(&mut self) -> (r: &mut T)
        requires
            old(self).completed(),
        ensures
            *r == old(self).value(),
            final(self).completed(),
            final(self).value() == *final(r),
    {
        match &mut self.data {
            Some(v) => v,
            None => unreached(),
        }
    }

    /// Consume the cell and return the initialized value; initialization
    /// must have completed.
    pub fn into_inner_unchecked(self) -> (r: T)
        requires
            self.completed(),
        ensures
            r == self.value(),
    {
        self.data.unwrap()
    }

    /// Whether the one-time initialization has completed.  Once it reports
    /// `true` the value is there to stay.
    pub fn is_completed(&self) -> (r: bool)
        ensures
            r == self.completed(),
    {
        self.data.is_some()
    }

    /// The initialized value, if initialization has completed; the probing
    /// twin of [`Once::get`], kept for interface parity with blocking
    /// one-time cells.
    pub fn poll(&self) -> (r: Option<&T>)
        ensures
            r is Some <==> self.completed(),
            r matches Some(v) ==> *v == self.value(),
    {
        self.get()
    }

    /// Demand the initialized value.  There is nobody else to wait for in a
    /// single-owner setting, so an incomplete cell is a caller bug and is
    /// excluded by precondition rather than waited on.
    pub fn wait(&self) -> (r: &T)
        requires
            self.completed(),
        ensures
            *r == self.value(),
    {
        self.get_unchecked()
    }
}

impl<T> Default for Once<T> {
    /// An empty, unstarted cell.
    fn default() -> (r: Self)
        ensures
            !r.completed(),
    {
        Self::new()
    }
}

impl<T> From<T> for Once<T> {
    /// A cell that is already complete, holding `data`.
    fn from(data: T) -> (r: Self)
        ensures
            r.completed(),
            r.value() == data,
    {
        Self::initialized(data)
    }
}

impl<T> vstd::std_specs::convert::FromSpecImpl<T> for Once<T> {
    open spec fn obeys_from_spec() -> bool {
        true
    }

    closed spec fn from_spec(data: T) -> Self {
        Once { data: Some(data) }
    }
}

} // verus!
