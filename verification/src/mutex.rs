//! A lock that grants exclusive access to a value, with fail-fast contention.

use vstd::prelude::*;

verus! {

use vstd::pervasive::unreached;

/// A mutual-exclusion primitive for single-owner environments.
///
/// The lock keeps a single `locked` flag beside a slot for the protected
/// value.  Acquiring the lock moves the value into a [`MutexGuard`]; handing
/// the guard back through [`Mutex::unlock`] moves it home and clears the
/// flag.  Contention is always a caller bug in a single-owner setting, so
/// [`Mutex::lock`] refuses a second acquisition outright (its precondition
/// excludes a locked state) rather than waiting.
pub struct Mutex<T> {
    locked: bool,
    data: Option<T>,
}

/// A guard that grants exclusive access to the value of a [`Mutex`].
///
/// The guard owns the protected value for its whole lifetime, so at most one
/// guard for a given lock can exist at a time.  Releasing it through
/// [`Mutex::unlock`] stores the value back and unlocks the lock.
pub struct MutexGuard<T> {
    data: T,
}

impl<T> MutexGuard<T> {
    /// The value the guard currently holds.
    pub closed spec fn value(&self) -> T {
        self.data
    }

    /// Read the protected value.
    pub fn get(&self) -> (r: &T)
        ensures
            *r == self.value(),
    {
        &self.data
    }

    /// Write access to the protected value.
    pub fn get_mut(&mut self) -> (r: &mut T)
        ensures
            *r == old(self).value(),
            final(self).value() == *final(r),
    {
        &mut self.data
    }
}

impl<T> Mutex<T> {
    /// Whether the lock is currently held.
    pub closed spec fn locked(&self) -> bool {
        self.locked
    }

    /// The value stored in the lock (meaningful only while unlocked).
    pub closed spec fn value(&self) -> T {
        self.data->0
    }

    /// The slot holds the value exactly while the lock is not held.
    pub closed spec fn wf(&self) -> bool {
        self.locked <==> self.data is None
    }

    /// Create an unlocked mutex holding `data`.
    pub fn new(data: T) -> (r: Mutex<T>)
        ensures
            r.wf(),
            !r.locked(),
            r.value() == data,
    {
        Mutex { locked: false, data: Some(data) }
    }

    /// Consume the mutex and return the protected value.
    pub fn into_inner(self) -> (r: T)
        requires
            self.wf(),
            !self.locked(),
        ensures
            r == self.value(),
    {
        self.data.unwrap()
    }

    /// Whether the lock is currently held.  The answer is advisory: it
    /// reflects the state at the moment of the call only.
    pub fn is_locked(&self) -> (r: bool)
        ensures
            r == self.locked(),
    {
        self.locked
    }

    /// Acquire the lock, taking the protected value into the returned guard.
    ///
    /// Re-entrant contention is a caller bug here, so a locked mutex is
    /// excluded by precondition instead of provoking a fatal error at run
    /// time.
    pub fn lock(&mut self) -> (g: MutexGuard<T>)
        requires
            old(self).wf(),
            !old(self).locked(),
        ensures
            final(self).wf(),
            final(self).locked(),
            g.value() == old(self).value(),
    {
        self.locked = true;
        MutexGuard { data: self.data.take().unwrap() }
    }

    /// Acquire the lock if it is free, returning `None` when it is already
    /// held (and leaving the mutex unchanged in that case).
    pub fn try_lock(&mut self) -> (r: Option<MutexGuard<T>>)
        requires
            old(self).wf(),
        ensures
            final(self).wf(),
            old(self).locked() ==> r is None && *final(self) == *old(self),
            !old(self).locked() ==> {
                &&& r matches Some(g) && g.value() == old(self).value()
                &&& final(self).locked()
            },
    {
        if self.locked {
            None
        } else {
            Some(self.lock())
        }
    }

    /// Release the lock, storing the guard's value back into the slot.
    pub fn unlock(&mut self, guard: MutexGuard<T>)
        requires
            old(self).wf(),
            old(self).locked(),
        ensures
            final(self).wf(),
            !final(self).locked(),
            final(self).value() == guard.value(),
    {
        self.data = Some(guard.data);
        self.locked = false;
    }

    /// Clear the `locked` flag without a guard, storing `data` as the new
    /// protected value.
    ///
    /// This is the escape hatch for callers that deliberately leaked a guard
    /// (for instance across a foreign interface): the leaked guard carried
    /// the old value away, so a replacement must be supplied.
    pub fn force_unlock(&mut self, data: T)
        requires
            old(self).wf(),
            old(self).locked(),
        ensures
            final(self).wf(),
            !final(self).locked(),
            final(self).value() == data,
    {
        self.data = Some(data);
        self.locked = false;
    }

    /// Exclusive access to the protected value through an exclusive borrow
    /// of the whole mutex, with no locking bookkeeping.
    pub fn get_mut(&mut self) -> (r: &mut T)
        requires
            old(self).wf(),
            !old(self).locked(),
        ensures
            *r == old(self).value(),
            final(self).wf(),
            !final(self).locked(),
            final(self).value() == *final(r),
    {
        match &mut self.data {
            Some(v) => v,
            None => unreached(),
        }
    }
}

impl<T: Default> Default for Mutex<T> {
    /// An unlocked mutex holding `T`'s default value.
    fn default() -> (r: Self)
        ensures
            r.wf(),
            !r.locked(),
            call_ensures(T::default, (), r.value()),
    {
        Self::new(T::default())
    }
}

impl<T> From<T> for Mutex<T> {
    /// An unlocked mutex holding `data`.
    fn from(data: T) -> (r: Self)
        ensures
            r.wf(),
            !r.locked(),
            r.value() == data,
    {
        Self::new(data)
    }
}

impl<T> vstd::std_specs::convert::FromSpecImpl<T> for Mutex<T> {
    open spec fn obeys_from_spec() -> bool {
        true
    }

    closed spec fn from_spec(data: T) -> Self {
        Mutex { locked: false, data: Some(data) }
    }
}

} // verus!
