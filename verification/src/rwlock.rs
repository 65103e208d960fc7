//! A lock that provides data access to either one writer or many readers.
//!
//! The lock packs its whole bookkeeping into one `usize` word: a reader
//! count (one [`READER`] unit per active or reserved reader), a writer bit
//! ([`WRITER`]) and an upgrade bit ([`UPGRADED`]).  Packing everything into
//! one word lets every transition be a single all-or-nothing update of the
//! word.  No operation blocks: an acquisition that cannot proceed returns
//! `None` (or is excluded by precondition where the behaviour would be a
//! fatal error).

use vstd::prelude::*;

verus! {

/// Bit set in the packed state while a writer holds the lock.
pub const WRITER: usize = 1;

/// Bit set in the packed state while an upgradable holder occupies the
/// admission slot.
pub const UPGRADED: usize = 2;

/// Unit added to the packed state for each active or reserved reader.
pub const READER: usize = 4;

/// Defensive cap on the reader count, far below the point where the packed
/// state word could wrap around.
pub const MAX_READERS: usize = usize::MAX / READER / 2;

/// A plain integer cell with the interface shape of an atomic counter.
///
/// Every update goes through an exclusive borrow: no hardware atomicity is
/// provided, or needed, in a single-owner setting.
pub struct NonAtomicUsize {
    value: usize,
}

impl View for NonAtomicUsize {
    type V = usize;

    closed spec fn view(&self) -> usize {
        self.value
    }
}

impl NonAtomicUsize {
    /// Create a cell holding `value`.
    pub fn new(value: usize) -> (r: NonAtomicUsize)
        ensures
            r@ == value,
    {
        NonAtomicUsize { value }
    }

    /// Add `value` to the cell, returning the previous contents.
    pub fn fetch_add(&mut self, value: usize) -> (r: usize)
        requires
            old(self)@ + value <= usize::MAX,
        ensures
            r == old(self)@,
            final(self)@ == old(self)@ + value,
    {
        let prev = self.value;
        self.value = self.value + value;
        prev
    }

    /// Subtract `value` from the cell, returning the previous contents.
    pub fn fetch_sub(&mut self, value: usize) -> (r: usize)
        requires
            value <= old(self)@,
        ensures
            r == old(self)@,
            final(self)@ == old(self)@ - value,
    {
        let prev = self.value;
        self.value = self.value - value;
        prev
    }

    /// Mask the cell with `value`, returning the previous contents.
    pub fn fetch_and(&mut self, value: usize) -> (r: usize)
        ensures
            r == old(self)@,
            final(self)@ == (old(self)@ & value),
    {
        let prev = self.value;
        self.value = self.value & value;
        prev
    }

    /// Set the bits of `value` in the cell, returning the previous contents.
    pub fn fetch_or(&mut self, value: usize) -> (r: usize)
        ensures
            r == old(self)@,
            final(self)@ == (old(self)@ | value),
    {
        let prev = self.value;
        self.value = self.value | value;
        prev
    }

    /// Read the cell.
    pub fn load(&self) -> (r: usize)
        ensures
            r == self@,
    {
        self.value
    }

    /// Overwrite the cell.
    pub fn store(&mut self, value: usize)
        ensures
            final(self)@ == value,
    {
        self.value = value;
    }

    /// Replace the contents with `new` exactly when they equal `current`.
    ///
    /// On success the stored (new) value is returned; on failure the actual
    /// contents are returned and nothing changes.
    pub fn compare_exchange(&mut self, current: usize, new: usize) -> (r: Result<usize, usize>)
        ensures
            old(self)@ == current ==> r == Ok::<usize, usize>(new) && final(self)@ == new,
            old(self)@ != current ==> r == Err::<usize, usize>(old(self)@) && *final(self)
                == *old(self),
    {
        if self.value == current {
            self.value = new;
            Ok(new)
        } else {
            Err(self.value)
        }
    }
}

/// Whether the writer bit is set in a packed state word.
pub open spec fn spec_writer(s: usize) -> bool {
    s & WRITER == WRITER
}

/// Whether the upgrade bit is set in a packed state word.
pub open spec fn spec_upgraded(s: usize) -> bool {
    s & UPGRADED == UPGRADED
}

/// The number of plain reader units held in a packed state word.
pub open spec fn spec_readers(s: usize) -> int {
    s as int / READER as int
}

/// The reader count the lock reports: plain readers plus the upgradable
/// holder, if any.
pub open spec fn spec_reader_count(s: usize) -> int {
    spec_readers(s) + if spec_upgraded(s) {
        1int
    } else {
        0int
    }
}

/// The writer count the lock reports: zero or one.
pub open spec fn spec_writer_count(s: usize) -> int {
    if spec_writer(s) {
        1int
    } else {
        0int
    }
}

/// A lock admitting either one writer or many readers at a time.
///
/// The protected value sits in a slot beside the packed state word.  It is
/// moved out into the [`RwLockWriteGuard`] while a writer holds the lock and
/// sits in place, readable through the shared guards, otherwise.
pub struct RwLock<T> {
    lock: NonAtomicUsize,
    data: Option<T>,
}

/// A guard witnessing shared read access.
///
/// Releasing it through [`RwLock::unlock_shared`] gives one reader unit
/// back.
pub struct RwLockReadGuard {
    marker: (),
}

/// A guard witnessing exclusive write access.  It owns the protected value
/// for its whole lifetime; releasing it through
/// [`RwLock::unlock_exclusive`] stores the value back.
pub struct RwLockWriteGuard<T> {
    data: T,
}

/// A guard witnessing shared read access together with the reserved right
/// to try to become exclusive.  While it is held no new plain readers are
/// admitted, which keeps an indefinite stream of readers from starving
/// writers.
pub struct RwLockUpgradableGuard {
    marker: (),
}

impl<T> RwLock<T> {
    /// The packed state word.
    pub closed spec fn state(&self) -> usize {
        self.lock@
    }

    /// The protected value (meaningful only while no writer holds it).
    pub closed spec fn value(&self) -> T {
        self.data->0
    }

    /// The slot is empty exactly while a writer holds the lock, and a held
    /// writer excludes reader units.
    pub closed spec fn wf(&self) -> bool {
        &&& (spec_writer(self.state()) <==> self.data is None)
        &&& (spec_writer(self.state()) ==> spec_readers(self.state()) == 0)
    }

    /// Create an unlocked lock holding `data`.
    pub fn new(data: T) -> (r: RwLock<T>)
        ensures
            r.wf(),
            r.state() == 0,
            !spec_writer(r.state()),
            !spec_upgraded(r.state()),
            spec_readers(r.state()) == 0,
            r.value() == data,
    {
        proof {
            lemma_zero_state();
        }
        RwLock { lock: NonAtomicUsize::new(0), data: Some(data) }
    }

    /// Consume the lock and return the protected value.
    pub fn into_inner(self) -> (r: T)
        requires
            self.wf(),
            !spec_writer(self.state()),
        ensures
            r == self.value(),
    {
        self.data.unwrap()
    }

    /// Add one reader unit, returning the previous state word.
    fn acquire_reader(&mut self) -> (r: usize)
        requires
            old(self).state() <= MAX_READERS * READER,
        ensures
            r == old(self).state(),
            final(self).state() == old(self).state() + READER,
            final(self).data == old(self).data,
    {
        proof {
            lemma_reader_cap();
        }
        self.lock.fetch_add(READER)
    }

    /// Attempt to acquire shared read access.
    ///
    /// Succeeds exactly when neither the writer bit nor the upgrade bit is
    /// set; on failure the state word is left as it was.  The upgrade bit
    /// closes admission so that a pending upgrade is not starved by an
    /// endless stream of new readers.
    pub fn try_read(&mut self) -> (r: Option<RwLockReadGuard>)
        requires
            old(self).wf(),
            old(self).state() <= MAX_READERS * READER,
        ensures
            final(self).wf(),
            final(self).value() == old(self).value(),
            r is Some <==> !spec_writer(old(self).state()) && !spec_upgraded(old(self).state()),
            r is Some ==> {
                &&& final(self).state() == old(self).state() + READER
                &&& !spec_writer(final(self).state())
                &&& !spec_upgraded(final(self).state())
                &&& spec_readers(final(self).state()) == spec_readers(old(self).state()) + 1
            },
            r is None ==> final(self).state() == old(self).state(),
    {
        let value = self.acquire_reader();
        proof {
            lemma_add_reader(value, self.state());
            lemma_admission(value);
        }
        if value & (WRITER | UPGRADED) != 0 {
            self.lock.fetch_sub(READER);
            None
        } else {
            Some(RwLockReadGuard { marker: () })
        }
    }

    /// Acquire shared read access; admission must be open.
    pub fn read(&mut self) -> (r: RwLockReadGuard)
        requires
            old(self).wf(),
            old(self).state() <= MAX_READERS * READER,
            !spec_writer(old(self).state()),
            !spec_upgraded(old(self).state()),
        ensures
            final(self).wf(),
            final(self).value() == old(self).value(),
            final(self).state() == old(self).state() + READER,
            !spec_writer(final(self).state()),
            !spec_upgraded(final(self).state()),
            spec_readers(final(self).state()) == spec_readers(old(self).state()) + 1,
    {
        self.try_read().unwrap()
    }

    /// Attempt to acquire exclusive write access.
    ///
    /// Succeeds only through the exact transition from a fully idle state
    /// word to [`WRITER`]: any reader, writer or upgrade activity blocks it.
    pub fn try_write(&mut self) -> (r: Option<RwLockWriteGuard<T>>)
        requires
            old(self).wf(),
        ensures
            final(self).wf(),
            r is Some <==> old(self).state() == 0,
            r matches Some(g) ==> {
                &&& g.value() == old(self).value()
                &&& final(self).state() == WRITER
                &&& spec_writer(final(self).state())
                &&& !spec_upgraded(final(self).state())
                &&& spec_readers(final(self).state()) == 0
            },
            r is None ==> *final(self) == *old(self),
    {
        proof {
            lemma_zero_state();
            lemma_writer_state();
        }
        match self.lock.compare_exchange(0, WRITER) {
            Ok(_) => Some(RwLockWriteGuard { data: self.data.take().unwrap() }),
            Err(_) => None,
        }
    }

    /// Attempt to acquire exclusive write access; permitted to fail
    /// spuriously on platforms where that is cheaper.  Here it simply
    /// forwards to [`RwLock::try_write`].
    pub fn try_write_weak(&mut self) -> (r: Option<RwLockWriteGuard<T>>)
        requires
            old(self).wf(),
        ensures
            final(self).wf(),
            r is Some <==> old(self).state() == 0,
            r matches Some(g) ==> {
                &&& g.value() == old(self).value()
                &&& final(self).state() == WRITER
            },
            r is None ==> *final(self) == *old(self),
    {
        self.try_write()
    }

    /// Acquire exclusive write access; the lock must be fully idle.
    pub fn write(&mut self) -> (g: RwLockWriteGuard<T>)
        requires
            old(self).wf(),
            old(self).state() == 0,
        ensures
            final(self).wf(),
            g.value() == old(self).value(),
            final(self).state() == WRITER,
            spec_writer(final(self).state()),
            !spec_upgraded(final(self).state()),
            spec_readers(final(self).state()) == 0,
    {
        self.try_write().unwrap()
    }

    /// Attempt to acquire an upgradable read guard.
    ///
    /// The upgrade bit is set unconditionally; the attempt succeeds only if
    /// neither the writer bit nor the upgrade bit was set before.  On
    /// failure the bit stays set: it is a shared admission gate that the
    /// current upgradable or write holder clears when releasing, not a
    /// per-caller mark.
    pub fn try_upgradeable_read(&mut self) -> (r: Option<RwLockUpgradableGuard>)
        requires
            old(self).wf(),
        ensures
            final(self).wf(),
            final(self).value() == old(self).value(),
            final(self).state() == (old(self).state() | UPGRADED),
            spec_upgraded(final(self).state()),
            spec_writer(final(self).state()) == spec_writer(old(self).state()),
            spec_readers(final(self).state()) == spec_readers(old(self).state()),
            r is Some <==> !spec_writer(old(self).state()) && !spec_upgraded(old(self).state()),
            r is Some ==> final(self).state() == old(self).state() + UPGRADED,
    {
        proof {
            lemma_or_upgraded(old(self).state());
            lemma_admission(old(self).state());
        }
        if self.lock.fetch_or(UPGRADED) & (WRITER | UPGRADED) == 0 {
            Some(RwLockUpgradableGuard { marker: () })
        } else {
            None
        }
    }

    /// Acquire an upgradable read guard; admission must be open.
    pub fn upgradeable_read(&mut self) -> (r: RwLockUpgradableGuard)
        requires
            old(self).wf(),
            !spec_writer(old(self).state()),
            !spec_upgraded(old(self).state()),
        ensures
            final(self).wf(),
            final(self).value() == old(self).value(),
            final(self).state() == old(self).state() + UPGRADED,
            spec_upgraded(final(self).state()),
            !spec_writer(final(self).state()),
            spec_readers(final(self).state()) == spec_readers(old(self).state()),
    {
        self.try_upgradeable_read().unwrap()
    }

    /// The number of readers currently holding the lock, the upgradable
    /// holder included.  Advisory only: the answer describes the instant of
    /// the call.
    pub fn reader_count(&self) -> (r: usize)
        ensures
            r == spec_reader_count(self.state()),
    {
        let state = self.lock.load();
        proof {
            lemma_counts(state);
        }
        state / READER + (state & UPGRADED) / UPGRADED
    }

    /// The number of writers currently holding the lock: zero or one.
    /// Advisory only, as for [`RwLock::reader_count`].
    pub fn writer_count(&self) -> (r: usize)
        ensures
            r == spec_writer_count(self.state()),
    {
        proof {
            lemma_counts(self.state());
        }
        (self.lock.load() & WRITER) / WRITER
    }

    /// Whether any guard at all is currently admitted.  Advisory only.
    pub fn is_locked(&self) -> (r: bool)
        ensures
            r == (self.state() != 0),
    {
        self.lock.load() != 0
    }

    /// Give one reader unit back without a guard.
    ///
    /// This is the escape hatch for callers that deliberately leaked a read
    /// guard; it must be balanced against an acquisition that is still
    /// outstanding.
    pub fn force_read_decrement(&mut self)
        requires
            old(self).wf(),
            spec_readers(old(self).state()) >= 1,
        ensures
            final(self).wf(),
            final(self).value() == old(self).value(),
            final(self).state() == old(self).state() - READER,
            spec_writer(final(self).state()) == spec_writer(old(self).state()),
            spec_upgraded(final(self).state()) == spec_upgraded(old(self).state()),
            spec_readers(final(self).state()) == spec_readers(old(self).state()) - 1,
    {
        proof {
            lemma_sub_reader(old(self).state());
        }
        self.lock.fetch_sub(READER);
    }

    /// Clear the upgrade bit without a guard.
    ///
    /// This is the escape hatch for callers that deliberately leaked an
    /// upgradable guard; it must be balanced against an acquisition that is
    /// still outstanding.
    pub fn force_upgradable_decrement(&mut self)
        requires
            old(self).wf(),
            spec_upgraded(old(self).state()),
            !spec_writer(old(self).state()),
        ensures
            final(self).wf(),
            final(self).value() == old(self).value(),
            final(self).state() == old(self).state() - UPGRADED,
            !spec_upgraded(final(self).state()),
            !spec_writer(final(self).state()),
            spec_readers(final(self).state()) == spec_readers(old(self).state()),
    {
        proof {
            lemma_sub_upgraded(old(self).state());
        }
        self.lock.fetch_sub(UPGRADED);
    }

    /// Clear the writer and upgrade bits without a guard, storing `data` as
    /// the new protected value.
    ///
    /// This is the escape hatch for callers that deliberately leaked a
    /// write guard: the leaked guard carried the old value away, so a
    /// replacement must be supplied.
    pub fn force_write_unlock(&mut self, data: T)
        requires
            old(self).wf(),
            spec_writer(old(self).state()),
        ensures
            final(self).wf(),
            final(self).state() == 0,
            !spec_writer(final(self).state()),
            !spec_upgraded(final(self).state()),
            spec_readers(final(self).state()) == 0,
            final(self).value() == data,
    {
        proof {
            lemma_clear_write(old(self).state());
            lemma_zero_state();
        }
        self.lock.fetch_and(!(WRITER | UPGRADED));
        self.data = Some(data);
    }

    /// Release a read guard, giving its reader unit back.
    pub fn unlock_shared(&mut self, guard: RwLockReadGuard)
        requires
            old(self).wf(),
            spec_readers(old(self).state()) >= 1,
        ensures
            final(self).wf(),
            final(self).value() == old(self).value(),
            final(self).state() == old(self).state() - READER,
            spec_writer(final(self).state()) == spec_writer(old(self).state()),
            spec_upgraded(final(self).state()) == spec_upgraded(old(self).state()),
            spec_readers(final(self).state()) == spec_readers(old(self).state()) - 1,
    {
        let RwLockReadGuard { marker: () } = guard;
        self.force_read_decrement();
    }

    /// Release a write guard, storing its value back and clearing both the
    /// writer bit and the upgrade bit (the upgrade bit may have been set by
    /// an admission attempt made while the writer held the lock).
    pub fn unlock_exclusive(&mut self, guard: RwLockWriteGuard<T>)
        requires
            old(self).wf(),
            spec_writer(old(self).state()),
        ensures
            final(self).wf(),
            final(self).state() == 0,
            !spec_writer(final(self).state()),
            !spec_upgraded(final(self).state()),
            spec_readers(final(self).state()) == 0,
            final(self).value() == guard.value(),
    {
        self.force_write_unlock(guard.data);
    }

    /// Release an upgradable guard, clearing the upgrade bit.
    pub fn unlock_upgradable(&mut self, guard: RwLockUpgradableGuard)
        requires
            old(self).wf(),
            spec_upgraded(old(self).state()),
            !spec_writer(old(self).state()),
        ensures
            final(self).wf(),
            final(self).value() == old(self).value(),
            final(self).state() == old(self).state() - UPGRADED,
            !spec_upgraded(final(self).state()),
            !spec_writer(final(self).state()),
            spec_readers(final(self).state()) == spec_readers(old(self).state()),
    {
        let RwLockUpgradableGuard { marker: () } = guard;
        self.force_upgradable_decrement();
    }

    /// Exclusive access to the protected value through an exclusive borrow
    /// of the whole lock, with no locking bookkeeping.
    pub fn get_mut(&mut self) -> (r: &mut T)
        requires
            old(self).wf(),
            !spec_writer(old(self).state()),
        ensures
            *r == old(self).value(),
            final(self).wf(),
            final(self).state() == old(self).state(),
            !spec_writer(final(self).state()),
            final(self).value() == *final(r),
    {
        match &mut self.data {
            Some(v) => v,
            None => vstd::pervasive::unreached(),
        }
    }
}

impl RwLockReadGuard {
    /// Read the protected value of the lock this guard was granted on.
    pub fn get<'a, T>(&self, lock: &'a RwLock<T>) -> (r: &'a T)
        requires
            lock.wf(),
            !spec_writer(lock.state()),
        ensures
            *r == lock.value(),
    {
        match &lock.data {
            Some(v) => v,
            None => vstd::pervasive::unreached(),
        }
    }

    /// Consume the guard without releasing its reader unit, yielding a
    /// reference to the protected value.  The unit is never given back, so
    /// the lock can never again admit a writer.
    pub fn leak<'a, T>(this: Self, lock: &'a RwLock<T>) -> (r: &'a T)
        requires
            lock.wf(),
            !spec_writer(lock.state()),
        ensures
            *r == lock.value(),
    {
        let RwLockReadGuard { marker: () } = this;
        match &lock.data {
            Some(v) => v,
            None => vstd::pervasive::unreached(),
        }
    }
}

impl<T> RwLockWriteGuard<T> {
    /// The value the guard currently holds.
    pub closed spec fn value(&self) -> T {
        self.data
    }

    /// Read the protected value.
    pub fn get(&self) -> (r: &T)
        ensures
            *r == self.value(),
    {
        &self.data
    }

    /// Write access to the protected value.
    pub fn get_mut(&mut self) -> (r: &mut T)
        ensures
            *r == old(self).value(),
            final(self).value() == *final(r),
    {
        &mut self.data
    }

    /// Trade exclusive access for shared access.
    ///
    /// A reader unit is reserved *before* the writer bit is cleared, so the
    /// state word never passes through the fully idle value on the way: no
    /// competing writer can slip in between the two steps
    /// ([`lemma_downgrade_write_never_open`]).
    pub fn downgrade(self, lock: &mut RwLock<T>) -> (r: RwLockReadGuard)
        requires
            old(lock).wf(),
            spec_writer(old(lock).state()),
        ensures
            final(lock).wf(),
            final(lock).value() == self.value(),
            final(lock).state() == READER,
            !spec_writer(final(lock).state()),
            !spec_upgraded(final(lock).state()),
            spec_readers(final(lock).state()) == 1,
    {
        proof {
            lemma_downgrade_write(old(lock).state());
            lemma_reader_cap();
        }
        // Reserve the read guard for ourselves before releasing exclusivity.
        lock.acquire_reader();
        lock.lock.fetch_and(!(WRITER | UPGRADED));
        lock.data = Some(self.data);
        proof {
            lemma_reader_state();
        }
        RwLockReadGuard { marker: () }
    }

    /// Trade exclusive access for upgradable shared access: the state word
    /// moves directly from writer-held to upgrade-held.
    ///
    /// The upgrade bit must not already be pending from some admission
    /// attempt, since the new guard is about to own it.
    pub fn downgrade_to_upgradeable(self, lock: &mut RwLock<T>) -> (r: RwLockUpgradableGuard)
        requires
            old(lock).wf(),
            spec_writer(old(lock).state()),
            !spec_upgraded(old(lock).state()),
        ensures
            final(lock).wf(),
            final(lock).value() == self.value(),
            final(lock).state() == UPGRADED,
            spec_upgraded(final(lock).state()),
            !spec_writer(final(lock).state()),
            spec_readers(final(lock).state()) == 0,
    {
        proof {
            lemma_upgraded_state();
        }
        lock.lock.store(UPGRADED);
        lock.data = Some(self.data);
        RwLockUpgradableGuard { marker: () }
    }

    /// Consume the guard without releasing the lock, yielding the protected
    /// value it holds.  The writer bit is never cleared, so the lock stays
    /// exclusive forever.
    pub fn leak(this: Self) -> (r: T)
        ensures
            r == this.value(),
    {
        this.data
    }
}

impl RwLockUpgradableGuard {
    /// Read the protected value of the lock this guard was granted on.
    pub fn get<'a, T>(&self, lock: &'a RwLock<T>) -> (r: &'a T)
        requires
            lock.wf(),
            !spec_writer(lock.state()),
        ensures
            *r == lock.value(),
    {
        match &lock.data {
            Some(v) => v,
            None => vstd::pervasive::unreached(),
        }
    }

    /// Attempt to upgrade to exclusive write access.
    ///
    /// Succeeds only through the exact transition from [`UPGRADED`] to
    /// [`WRITER`], that is, exactly when no plain reader is still inside.
    /// On failure the guard comes back unchanged in the `Err` case and the
    /// lock is untouched, so the caller may retry or fall back.
    pub fn try_upgrade<T>(self, lock: &mut RwLock<T>) -> (r: Result<
        RwLockWriteGuard<T>,
        RwLockUpgradableGuard,
    >)
        requires
            old(lock).wf(),
            spec_upgraded(old(lock).state()),
            !spec_writer(old(lock).state()),
        ensures
            final(lock).wf(),
            r is Ok <==> old(lock).state() == UPGRADED,
            r matches Ok(g) ==> {
                &&& g.value() == old(lock).value()
                &&& final(lock).state() == WRITER
                &&& spec_writer(final(lock).state())
                &&& !spec_upgraded(final(lock).state())
                &&& spec_readers(final(lock).state()) == 0
            },
            r is Err ==> *final(lock) == *old(lock),
    {
        proof {
            lemma_writer_state();
        }
        match lock.lock.compare_exchange(UPGRADED, WRITER) {
            Ok(_) => Ok(RwLockWriteGuard { data: lock.data.take().unwrap() }),
            Err(_) => Err(self),
        }
    }

    /// Attempt to upgrade; permitted to fail spuriously on platforms where
    /// that is cheaper.  Here it simply forwards to
    /// [`RwLockUpgradableGuard::try_upgrade`].
    pub fn try_upgrade_weak<T>(self, lock: &mut RwLock<T>) -> (r: Result<
        RwLockWriteGuard<T>,
        RwLockUpgradableGuard,
    >)
        requires
            old(lock).wf(),
            spec_upgraded(old(lock).state()),
            !spec_writer(old(lock).state()),
        ensures
            final(lock).wf(),
            r is Ok <==> old(lock).state() == UPGRADED,
            r matches Ok(g) ==> {
                &&& g.value() == old(lock).value()
                &&& final(lock).state() == WRITER
            },
            r is Err ==> *final(lock) == *old(lock),
    {
        self.try_upgrade(lock)
    }

    /// Upgrade to exclusive write access; no plain reader may remain.
    pub fn upgrade<T>(self, lock: &mut RwLock<T>) -> (g: RwLockWriteGuard<T>)
        requires
            old(lock).wf(),
            old(lock).state() == UPGRADED,
        ensures
            final(lock).wf(),
            g.value() == old(lock).value(),
            final(lock).state() == WRITER,
            spec_writer(final(lock).state()),
            !spec_upgraded(final(lock).state()),
            spec_readers(final(lock).state()) == 0,
    {
        proof {
            lemma_upgraded_state();
        }
        match self.try_upgrade(lock) {
            Ok(g) => g,
            Err(_) => vstd::pervasive::unreached(),
        }
    }

    /// Trade the upgrade reservation for plain shared access.
    ///
    /// As with [`RwLockWriteGuard::downgrade`], a reader unit is reserved
    /// before the upgrade bit is cleared, so the state word never becomes
    /// fully idle in between ([`lemma_downgrade_upgradable_never_open`]).
    pub fn downgrade<T>(self, lock: &mut RwLock<T>) -> (r: RwLockReadGuard)
        requires
            old(lock).wf(),
            spec_upgraded(old(lock).state()),
            !spec_writer(old(lock).state()),
            old(lock).state() <= MAX_READERS * READER,
        ensures
            final(lock).wf(),
            final(lock).value() == old(lock).value(),
            final(lock).state() == old(lock).state() + READER - UPGRADED,
            !spec_writer(final(lock).state()),
            !spec_upgraded(final(lock).state()),
            spec_readers(final(lock).state()) == spec_readers(old(lock).state()) + 1,
    {
        let RwLockUpgradableGuard { marker: () } = self;
        // Reserve the read guard for ourselves before opening admission.
        lock.acquire_reader();
        proof {
            lemma_add_reader(old(lock).state(), lock.state());
            lemma_sub_upgraded(lock.state());
        }
        lock.lock.fetch_sub(UPGRADED);
        RwLockReadGuard { marker: () }
    }

    /// Consume the guard without releasing it, yielding a reference to the
    /// protected value.  The upgrade bit is never cleared, so the lock can
    /// never again admit a writer or another upgradable holder.
    pub fn leak<'a, T>(this: Self, lock: &'a RwLock<T>) -> (r: &'a T)
        requires
            lock.wf(),
            !spec_writer(lock.state()),
        ensures
            *r == lock.value(),
    {
        let RwLockUpgradableGuard { marker: () } = this;
        match &lock.data {
            Some(v) => v,
            None => vstd::pervasive::unreached(),
        }
    }
}

impl<T: Default> Default for RwLock<T> {
    /// An unlocked lock holding `T`'s default value.
    fn default() -> (r: Self)
        ensures
            r.wf(),
            r.state() == 0,
            call_ensures(T::default, (), r.value()),
    {
        Self::new(T::default())
    }
}

impl<T> From<T> for RwLock<T> {
    /// An unlocked lock holding `data`.
    fn from(data: T) -> (r: Self)
        ensures
            r.wf(),
            r.state() == 0,
            r.value() == data,
    {
        Self::new(data)
    }
}

impl<T> vstd::std_specs::convert::FromSpecImpl<T> for RwLock<T> {
    open spec fn obeys_from_spec() -> bool {
        true
    }

    closed spec fn from_spec(data: T) -> Self {
        RwLock { lock: NonAtomicUsize { value: 0 }, data: Some(data) }
    }
}

// ---------------------------------------------------------------------------
// Facts about the packed state word.
// ---------------------------------------------------------------------------

/// The fully idle state word carries no bits and no readers.
proof fn lemma_zero_state()
    by (bit_vector)
    ensures
        !spec_writer(0),
        !spec_upgraded(0),
        spec_readers(0) == 0,
{
}

/// The writer-held state word: writer bit only.
proof fn lemma_writer_state()
    by (bit_vector)
    ensures
        spec_writer(WRITER),
        !spec_upgraded(WRITER),
        spec_readers(WRITER) == 0,
{
}

/// The upgrade-held state word: upgrade bit only.
proof fn lemma_upgraded_state()
    by (bit_vector)
    ensures
        spec_upgraded(UPGRADED),
        !spec_writer(UPGRADED),
        spec_readers(UPGRADED) == 0,
{
}

/// The single-reader state word: one reader unit only.
proof fn lemma_reader_state()
    by (bit_vector)
    ensures
        !spec_writer(READER),
        !spec_upgraded(READER),
        spec_readers(READER) == 1,
{
}

/// The reader cap sits far enough below the top of `usize` that one more
/// unit never wraps the state word, and far enough above zero that the
/// handful of states a writer or upgradable holder can leave behind are
/// always under it.  Callers working with small concrete states can use
/// this to discharge the admission-cap preconditions.
pub proof fn lemma_reader_cap()
    ensures
        3 <= MAX_READERS * READER,
        MAX_READERS * READER + READER <= usize::MAX,
{
    let m = usize::MAX as int;
    let q = m / 4;
    let h = q / 2;
    vstd::arithmetic::div_mod::lemma_fundamental_div_mod(m, 4);
    vstd::arithmetic::div_mod::lemma_fundamental_div_mod(q, 2);
    assert(m >= 64);
    assert(MAX_READERS == h);
}

/// The combined admission test reads both closing bits at once.
proof fn lemma_admission(s: usize)
    by (bit_vector)
    ensures
        (s & (WRITER | UPGRADED) == 0) <==> (!spec_writer(s) && !spec_upgraded(s)),
{
}

/// Adding one reader unit (moving from state word `s` to `t`) leaves both
/// flag bits alone and raises the reader count by one.
proof fn lemma_add_reader(s: usize, t: usize)
    by (bit_vector)
    requires
        t == s + READER,
    ensures
        spec_writer(t) == spec_writer(s),
        spec_upgraded(t) == spec_upgraded(s),
        spec_readers(t) == spec_readers(s) + 1,
{
}

/// Removing one reader unit leaves both flag bits alone and lowers the
/// reader count by one.
proof fn lemma_sub_reader(s: usize)
    by (bit_vector)
    requires
        spec_readers(s) >= 1,
    ensures
        s >= READER,
        spec_writer((s - READER) as usize) == spec_writer(s),
        spec_upgraded((s - READER) as usize) == spec_upgraded(s),
        spec_readers((s - READER) as usize) == spec_readers(s) - 1,
{
}

/// Setting the upgrade bit changes nothing else in the state word.
proof fn lemma_or_upgraded(s: usize)
    by (bit_vector)
    ensures
        spec_upgraded(s | UPGRADED),
        spec_writer(s | UPGRADED) == spec_writer(s),
        spec_readers(s | UPGRADED) == spec_readers(s),
        !spec_writer(s) && !spec_upgraded(s) ==> s | UPGRADED == s + UPGRADED,
{
}

/// Clearing the upgrade bit changes nothing else in the state word.
proof fn lemma_sub_upgraded(s: usize)
    by (bit_vector)
    requires
        spec_upgraded(s),
    ensures
        s >= UPGRADED,
        !spec_upgraded((s - UPGRADED) as usize),
        spec_writer((s - UPGRADED) as usize) == spec_writer(s),
        spec_readers((s - UPGRADED) as usize) == spec_readers(s),
{
}

/// With no readers left, clearing the writer and upgrade bits empties the
/// state word entirely.
proof fn lemma_clear_write(s: usize)
    by (bit_vector)
    requires
        spec_writer(s),
        spec_readers(s) == 0,
    ensures
        s & !(WRITER | UPGRADED) == 0,
{
}

/// The two-step write downgrade: reserving a reader unit and then clearing
/// the exclusivity bits lands on exactly one plain reader.
proof fn lemma_downgrade_write(s: usize)
    by (bit_vector)
    requires
        spec_writer(s),
        spec_readers(s) == 0,
    ensures
        s <= 3,
        ((s + READER) as usize) & !(WRITER | UPGRADED) == READER,
{
}

/// The arithmetic behind [`RwLock::reader_count`] and
/// [`RwLock::writer_count`]: the exec decompositions match the spec ones,
/// and the reported reader count never overflows.
proof fn lemma_counts(s: usize)
    by (bit_vector)
    ensures
        s / READER + (s & UPGRADED) / UPGRADED == spec_reader_count(s),
        (s & WRITER) / WRITER == spec_writer_count(s),
        s / READER + (s & UPGRADED) / UPGRADED <= s,
{
}

// ---------------------------------------------------------------------------
// Laws of the state machine.
// ---------------------------------------------------------------------------

/// Any reader or writer activity keeps the state word away from the fully
/// idle value, and [`RwLock::try_write`] succeeds only on the fully idle
/// value: a write can never be admitted while `reader_count` or
/// `writer_count` reports activity.
pub proof fn lemma_activity_blocks_write(s: usize)
    by (bit_vector)
    requires
        spec_reader_count(s) > 0 || spec_writer_count(s) > 0,
    ensures
        s != 0,
{
}

/// While a writer holds the lock, every acquisition path is closed: the
/// state word is not idle (blocking [`RwLock::try_write`]) and an admission
/// bit is set (blocking [`RwLock::try_read`] and
/// [`RwLock::try_upgradeable_read`]).
pub proof fn lemma_writer_excludes_all(s: usize)
    by (bit_vector)
    requires
        spec_writer(s),
    ensures
        s != 0,
        s & (WRITER | UPGRADED) != 0,
{
}

/// While admission is open, admitting one more reader keeps admission
/// open: any number of plain readers may pile up, up to the defensive cap.
pub proof fn lemma_readers_coexist(s: usize)
    requires
        !spec_writer(s),
        !spec_upgraded(s),
        s <= MAX_READERS * READER,
    ensures
        !spec_writer((s + READER) as usize),
        !spec_upgraded((s + READER) as usize),
        spec_readers((s + READER) as usize) == spec_readers(s) + 1,
{
    lemma_reader_cap();
    lemma_add_reader(s, (s + READER) as usize);
}

/// An upgrade succeeds exactly when no plain reader remains: for an
/// upgrade-held state word, equality with [`UPGRADED`] (the transition
/// [`RwLockUpgradableGuard::try_upgrade`] demands) is the same thing as a
/// zero reader count.
pub proof fn lemma_upgrade_iff_no_readers(s: usize)
    by (bit_vector)
    requires
        spec_upgraded(s),
        !spec_writer(s),
    ensures
        (s == UPGRADED) <==> (spec_readers(s) == 0),
{
}

/// Downgrading a write guard never opens the lock: both the intermediate
/// state word (reader unit reserved, writer bit still set) and the final
/// one (one plain reader) differ from the fully idle value, so no
/// competing [`RwLock::try_write`] can succeed in between.
pub proof fn lemma_downgrade_write_never_open(s: usize)
    by (bit_vector)
    requires
        spec_writer(s),
        spec_readers(s) == 0,
    ensures
        s != 0,
        (s + READER) as usize != 0,
        ((s + READER) as usize) & !(WRITER | UPGRADED) != 0,
{
}

/// Downgrading an upgradable guard never opens the lock: both the
/// intermediate state word (reader unit reserved, upgrade bit still set)
/// and the final one differ from the fully idle value.
pub proof fn lemma_downgrade_upgradable_never_open(s: usize)
    requires
        spec_upgraded(s),
        !spec_writer(s),
        s <= MAX_READERS * READER,
    ensures
        s != 0,
        (s + READER) as usize != 0,
        ((s + READER) as usize) - UPGRADED != 0,
{
    lemma_reader_cap();
    lemma_sub_upgraded(s);
    lemma_add_reader(s, (s + READER) as usize);
    lemma_sub_upgraded((s + READER) as usize);
}

} // verus!
