//! The shared store: one table behind a mutual-exclusion lock.
//!
//! Every operation takes the lock, runs the table's operation of the same name
//! and releases the lock before it returns, so each operation takes effect as
//! a whole: an update's test and write, and all the pairs of a batch, are never
//! interleaved with another caller's work.
//!
//! What the table holds when the lock is granted depends on the other callers,
//! and whether the lock is granted depends on whether a holder failed. So the
//! contracts of [`KeyValueStore`] state only what holds of every outcome. What
//! becomes of each outcome is stated exactly one step further in:
//! [`held_or_poisoned`] says which outcome of taking the lock gives which
//! result, and [`Locked`] says that the table it lends is the table behind the
//! lock, on which [`Table`] states what each operation returns and changes.

use vstd::prelude::*;
use std::ops::{Deref, DerefMut};
use std::sync::{Arc, Mutex, MutexGuard, PoisonError};
use crate::error::StoreError;
use crate::model::Contents;
use crate::table::Table;

verus! {

/// `std::sync::Mutex`, carried as an opaque value.
#[verifier::external_type_specification]
#[verifier::external_body]
#[verifier::reject_recursive_types(T)]
pub struct ExMutex<T: ?Sized>(Mutex<T>);

/// `std::sync::MutexGuard`, carried as an opaque value: the lock is held while
/// the guard lives.
#[verifier::external_type_specification]
#[verifier::external_body]
#[verifier::reject_recursive_types(T)]
pub struct ExMutexGuard<'a, T: ?Sized + 'a>(MutexGuard<'a, T>);

/// `std::sync::PoisonError`, carried as an opaque value.
#[verifier::external_type_specification]
#[verifier::external_body]
#[verifier::reject_recursive_types(T)]
pub struct ExPoisonError<T>(PoisonError<T>);

/// `Mutex::new` returns a lock around the value; nothing is claimed of it.
pub assume_specification<T>[ Mutex::<T>::new ](t: T) -> (m: Mutex<T>);

/// The entries of the table that a guard gives access to: what the table
/// behind the lock holds while this guard holds the lock.
pub uninterp spec fn held(guard: MutexGuard<'_, Table>) -> Map<Seq<char>, Seq<char>>;

/// `MutexGuard`'s `deref` lends the table behind the lock for reading: the
/// table lent holds the entries that `held` names for this guard.
#[verifier::external_body]
fn lent<'a, 'b>(guard: &'b MutexGuard<'a, Table>) -> (table: &'b Table)
    ensures
        table@ == held(*guard),
{
    guard.deref()
}

/// `MutexGuard`'s `deref_mut` lends the table behind the lock for writing: the
/// table lent holds the entries that `held` names for this guard, and what the
/// borrower leaves in it is what the guard gives access to afterwards.
#[verifier::external_body]
fn lent_mut<'a, 'b>(guard: &'b mut MutexGuard<'a, Table>) -> (table: &'b mut Table)
    ensures
        table@ == held(*old(guard)),
        held(*final(guard)) == final(table)@,
{
    guard.deref_mut()
}

/// `Mutex::lock` waits for the lock and returns its guard, or the error that
/// tells of poisoning; nothing is claimed of which, nor of what the guard
/// gives access to. It may panic or never return where the calling thread
/// holds the lock already: only the operations of [`KeyValueStore`] call it,
/// on the store's own lock, and each takes the lock once and drops its access
/// before it returns, so that no caller ever holds a store's lock between two
/// operations.
#[verifier::external_body]
fn acquire<'a>(cell: &'a Mutex<Table>) -> (attempt: Result<
    MutexGuard<'a, Table>,
    PoisonError<MutexGuard<'a, Table>>,
>) {
    cell.lock()
}

/// The table behind a lock, for as long as one caller holds the lock. Its view
/// is what that table holds; dropping the value releases the lock.
pub struct Locked<'a> {
    guard: MutexGuard<'a, Table>,
}

impl<'a> View for Locked<'a> {
    type V = Contents;

    closed spec fn view(&self) -> Contents {
        held(self.guard)
    }
}

impl<'a> Locked<'a> {
    /// The table behind the lock, for reading.
    pub fn table(&self) -> (table: &Table)
        ensures
            table@ == self@,
    {
        lent(&self.guard)
    }

    /// The table behind the lock, for writing: what the borrower leaves in it
    /// is what the lock holds from then on.
    pub fn table_mut(&mut self) -> (table: &mut Table)
        ensures
            table@ == old(self)@,
            final(self)@ == final(table)@,
    {
        lent_mut(&mut self.guard)
    }
}

/// Turns the outcome of taking a lock into access to the table behind it, or
/// into the store's own error where the lock is poisoned. The guard inside a
/// poisoning error is dropped, so the lock is free again, and still poisoned.
pub fn held_or_poisoned<'a>(
    attempt: Result<MutexGuard<'a, Table>, PoisonError<MutexGuard<'a, Table>>>,
) -> (granted: Result<Locked<'a>, StoreError>)
    ensures
        match attempt {
            Ok(guard) => granted matches Ok(locked) && locked@ == held(guard),
            Err(_) => granted matches Err(failure) && failure == StoreError::LockPoisoned,
        },
{
    match attempt {
        Ok(guard) => Ok(Locked { guard }),
        Err(_) => Err(StoreError::LockPoisoned),
    }
}

/// A handle to a store that many callers share. Clones of a handle reach the
/// same entries.
#[derive(Clone)]
pub struct KeyValueStore {
    cell: Arc<Mutex<Table>>,
}

impl KeyValueStore {
    /// A new store: a lock of its own around a table without entries.
    pub fn new() -> (store: Self) {
        KeyValueStore { cell: Arc::new(Mutex::new(Table::new())) }
    }

    /// Sets `key` to `value`, whether or not it was present: [`Table::put`] on
    /// the table found behind the lock.
    pub fn put(&self, key: String, value: String) -> (outcome: Result<bool, StoreError>)
        ensures
            outcome matches Ok(done) ==> done,
    {
        let mut locked = held_or_poisoned(acquire(&self.cell))?;
        let table: &mut Table = locked.table_mut();
        Ok(table.put(key, value))
    }

    /// The value stored under `key`, if there is one: [`Table::get`] on the
    /// table found behind the lock.
    pub fn get(&self, key: &str) -> (outcome: Result<Option<String>, StoreError>) {
        let locked = held_or_poisoned(acquire(&self.cell))?;
        let table: &Table = locked.table();
        Ok(table.get(key))
    }

    /// Sets `key` to `value` only where `key` is present, and says whether it
    /// was: [`Table::update`] on the table found behind the lock, so that the
    /// test and the write happen under one hold of the lock.
    pub fn update(&self, key: &str, value: String) -> (outcome: Result<bool, StoreError>) {
        let mut locked = held_or_poisoned(acquire(&self.cell))?;
        let table: &mut Table = locked.table_mut();
        Ok(table.update(key, value))
    }

    /// Removes `key` with its value, and says whether there was such an entry:
    /// [`Table::delete`] on the table found behind the lock.
    pub fn delete(&self, key: &str) -> (outcome: Result<bool, StoreError>) {
        let mut locked = held_or_poisoned(acquire(&self.cell))?;
        let table: &mut Table = locked.table_mut();
        Ok(table.delete(key))
    }

    /// Every key present, each once, in no order that callers may rely on:
    /// [`Table::keys`] on the table found behind the lock.
    pub fn keys(&self) -> (outcome: Result<Vec<String>, StoreError>)
        ensures
            outcome matches Ok(listed) ==> listed.deep_view().no_duplicates(),
    {
        let locked = held_or_poisoned(acquire(&self.cell))?;
        let table: &Table = locked.table();
        Ok(table.keys())
    }

    /// The number of entries: [`Table::size`] on the table found behind the
    /// lock.
    pub fn size(&self) -> (outcome: Result<usize, StoreError>) {
        let locked = held_or_poisoned(acquire(&self.cell))?;
        let table: &Table = locked.table();
        Ok(table.size())
    }

    /// Removes every entry: [`Table::clear`] on the table found behind the
    /// lock.
    pub fn clear(&self) -> (outcome: Result<bool, StoreError>)
        ensures
            outcome matches Ok(done) ==> done,
    {
        let mut locked = held_or_poisoned(acquire(&self.cell))?;
        let table: &mut Table = locked.table_mut();
        Ok(table.clear())
    }

    /// Puts the pairs of `items` one by one, first to last, and returns how
    /// many pairs there were: [`Table::put_batch`] on the table found behind
    /// the lock, under one hold of it, so that other callers see none of the
    /// pairs or all.
    pub fn put_batch(&self, items: Vec<(String, String)>) -> (outcome: Result<usize, StoreError>)
        ensures
            outcome matches Ok(count) ==> count == items.len(),
    {
        let mut locked = held_or_poisoned(acquire(&self.cell))?;
        let table: &mut Table = locked.table_mut();
        Ok(table.put_batch(items))
    }
}

} // verus!
