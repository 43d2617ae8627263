//! The cell in which a state view keeps the header of its block.
//!
//! The cell is shared by every reader of the view and guarded by a
//! reader-writer lock. It starts empty and is filled once: whoever holds
//! the write lock and finds a header in the cell leaves it there.

use crate::primitives::Header;
use parking_lot::{RwLock, RwLockWriteGuard};
use vstd::prelude::*;

verus! {

/// parking_lot's reader-writer lock. What it holds can change under a
/// shared reference, so nothing is said of its contents.
#[verifier::external_type_specification]
#[verifier::external_body]
#[verifier::reject_recursive_types(T)]
pub struct ExRwLock<T: ?Sized>(RwLock<T>);

/// parking_lot's write guard: exclusive access to what the lock holds, for
/// as long as the guard lives.
#[verifier::external_type_specification]
#[verifier::external_body]
#[verifier::reject_recursive_types(T)]
pub struct ExRwLockWriteGuard<'a, T: ?Sized + 'a>(RwLockWriteGuard<'a, T>);

/// What the locked cell holds. Nobody else can touch the cell while the
/// guard lives, so this changes only through the guard.
pub uninterp spec fn held(guard: RwLockWriteGuard<Option<Header>>) -> Option<Header>;

/// What the cell held when it was made. This is a fact of its making and
/// stays what it is: it says nothing of what the cell holds now.
pub uninterp spec fn made_with(cell: RwLock<Option<Header>>) -> Option<Header>;

/// `RwLock::new`: an unlocked cell that is made with `value` in it.
#[verifier::external_body]
pub(crate) fn new_cell(value: Option<Header>) -> (r: RwLock<Option<Header>>)
    ensures
        made_with(r) == value,
{
    RwLock::new(value)
}

/// `RwLock::read`, held for the length of one copy: what the cell holds at
/// that moment. Another reader may have filled the cell since the caller
/// last looked, so no value is claimed.
#[verifier::external_body]
pub(crate) fn read_cell(cell: &RwLock<Option<Header>>) -> (r: Option<Header>) {
    *cell.read()
}

/// `RwLock::write`: waits for exclusive access to the cell. What the cell
/// holds by then is not claimed.
#[verifier::external_body]
pub(crate) fn lock_cell(cell: &RwLock<Option<Header>>) -> (r: RwLockWriteGuard<Option<Header>>) {
    cell.write()
}

/// The guard's `deref`: a copy of what the locked cell holds.
#[verifier::external_body]
pub(crate) fn peek(guard: &RwLockWriteGuard<Option<Header>>) -> (r: Option<Header>)
    ensures
        r == held(*guard),
{
    **guard
}

/// The guard's `deref_mut`: stores `value` in the locked cell.
#[verifier::external_body]
pub(crate) fn put(guard: &mut RwLockWriteGuard<Option<Header>>, value: Option<Header>)
    ensures
        held(*final(guard)) == value,
{
    **guard = value;
}

/// Fills the locked cell with `resolved` unless it holds a header already,
/// and returns the header that it holds from then on. A header that is in
/// the cell is never replaced.
pub fn keep_first(guard: &mut RwLockWriteGuard<Option<Header>>, resolved: Header) -> (r: Header)
    ensures
        held(*final(guard)) == Some(r),
        r == match held(*old(guard)) {
            Some(first) => first,
            None => resolved,
        },
{
    match peek(guard) {
        Some(first) => first,
        None => {
            put(guard, Some(resolved));
            resolved
        },
    }
}

} // verus!
