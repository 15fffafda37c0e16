//! The lock and its guard.
use core::cell::{BorrowMutError, RefCell, RefMut};
use core::ops::{Deref, DerefMut};
use core::sync::atomic::{AtomicU8, Ordering};
use vstd::prelude::*;

use crate::status::{acquire_spec, found, LockStatus, FREE, HELD};

verus! {

#[verifier::external_type_specification]
#[verifier::external_body]
#[verifier::reject_recursive_types(T)]
pub struct ExRefCell<T: ?Sized>(RefCell<T>);

#[verifier::external_type_specification]
#[verifier::external_body]
#[verifier::reject_recursive_types(T)]
pub struct ExRefMut<'b, T: ?Sized + 'b>(RefMut<'b, T>);

#[verifier::external_type_specification]
#[verifier::external_body]
pub struct ExBorrowMutError(BorrowMutError);

/// Relies on `RefCell::new`: a cell around `value`.
pub assume_specification<T>[ RefCell::<T>::new ](value: T) -> RefCell<T>;

/// Relies on `RefCell::try_borrow_mut`: a mutable borrow of the contents, or
/// an error where the cell is borrowed already; never panics.
pub assume_specification<T: ?Sized>[ RefCell::<T>::try_borrow_mut ](
    cell: &RefCell<T>,
) -> Result<RefMut<'_, T>, BorrowMutError>;

/// Relies on `RefMut`'s `Deref`: the borrowed contents.
pub assume_specification<'b, 'r, T: ?Sized>[ <RefMut<'b, T> as Deref>::deref ](
    r: &'r RefMut<'b, T>,
) -> &'r T;

/// Relies on `RefMut`'s `DerefMut`: the borrowed contents, mutably.
pub assume_specification<'b, 'r, T: ?Sized>[ <RefMut<'b, T> as DerefMut>::deref_mut ](
    r: &'r mut RefMut<'b, T>,
) -> &'r mut T;

/// Relies on `AtomicU8::store`: writes `flag` with release ordering, which
/// never panics (only the acquire orderings do).
#[verifier::external_body]
fn store_release(status: &AtomicU8, flag: u8)
    opens_invariants none
    no_unwind
{
    status.store(flag, Ordering::Release)
}

/// A lock around a value of type `T`.
///
/// The status flag alone decides who may use the value: a caller that moves
/// it from `FREE` to `HELD` gets a guard, which borrows the value until it is
/// dropped and then sets the flag back to `FREE`.
#[verifier::reject_recursive_types(T)]
pub struct Mutex<T> {
    value: RefCell<T>,
    status: AtomicU8,
}

/// Sets the flag of a lock back to `FREE` when it is dropped.
struct Release<'a> {
    status: &'a AtomicU8,
}

/// Exclusive access to the value of a [`Mutex`], for as long as it lives.
#[verifier::reject_recursive_types(T)]
pub struct MutexGuard<'a, T> {
    // Fields drop in this order: the borrow ends before the flag is freed.
    value: RefMut<'a, T>,
    release: Release<'a>,
}

impl<T> Mutex<T> {
    /// A free lock around `value`.
    pub fn new(value: T) -> Self {
        Mutex { value: RefCell::new(value), status: AtomicU8::new(FREE) }
    }

    /// The lock's status flag.
    pub closed spec fn flag(self) -> AtomicU8 {
        self.status
    }

    /// One attempt to take the lock, without waiting: a single exchange of the
    /// flag from `FREE` to `HELD`. Where it wins, the guard that comes back
    /// sets this lock's flag back to `FREE` when it is dropped; where it loses
    /// (the lock is held), the result is `None` and nothing changes.
    pub fn try_lock(&self) -> (r: Option<MutexGuard<'_, T>>)
        ensures
            r matches Some(g) ==> g.flag() == self.flag(),
    {
        let exchanged = self.status.compare_exchange(FREE, HELD, Ordering::Acquire, Ordering::Relaxed);
        self.settle(found(exchanged))
    }

    /// The step after the exchange, given the state it found: a lost attempt
    /// gives `None` and touches nothing; a won one borrows the value for the
    /// guard.
    ///
    /// Private: handed a state that no exchange of this lock found, it would
    /// act on a flag it never won.
    fn settle(&self, found: LockStatus) -> (r: Option<MutexGuard<'_, T>>)
        ensures
            !acquire_spec(found).1 ==> r is None,
            r matches Some(g) ==> g.flag() == self.flag(),
    {
        let (_, won) = found.try_acquire();
        if !won {
            return None;
        }
        self.guard_or_undo(self.value.try_borrow_mut())
    }

    /// The step after a won exchange, given the borrow of the value: a guard
    /// where it was granted; where it was refused, the flag goes back to
    /// `FREE` and the result is `None`.
    ///
    /// Only a guard borrows the value, and a guard lives only while the flag
    /// is `HELD`, so after a won exchange the borrow is always granted.
    ///
    /// Private: handed a borrow that no won exchange of this lock preceded, it
    /// would give out a guard of a lock nobody holds.
    fn guard_or_undo<'a>(&'a self, borrowed: Result<RefMut<'a, T>, BorrowMutError>) -> (r: Option<
        MutexGuard<'a, T>,
    >)
        ensures
            r is Some <==> borrowed is Ok,
            r matches Some(g) ==> g.flag() == self.flag(),
    {
        match borrowed {
            Ok(value) => Some(MutexGuard { value, release: Release { status: &self.status } }),
            Err(_) => {
                store_release(&self.status, FREE);
                None
            },
        }
    }
}

impl<'a, T> MutexGuard<'a, T> {
    /// The status flag of the lock this guard holds.
    pub closed spec fn flag(self) -> AtomicU8 {
        *self.release.status
    }
}

impl<'a, T> Deref for MutexGuard<'a, T> {
    type Target = T;

    fn deref(&self) -> &T {
        self.value.deref()
    }
}

impl<'a, T> DerefMut for MutexGuard<'a, T> {
    fn deref_mut(&mut self) -> &mut T {
        self.value.deref_mut()
    }
}

impl<'a> Drop for Release<'a> {
    fn drop(&mut self)
        opens_invariants none
        no_unwind
    {
        store_release(self.status, FREE);
    }
}

} // verus!
