//! Handles that do not own what they point to.
//!
//! A state view must neither keep the blockchain or the fetcher alive nor
//! fail badly when they are gone, so it reaches them through `WeakRef`.
//! Whether the referent is still there is a fact of the running program:
//! nothing below promises either outcome.

use std::sync::Arc;
use std::sync::Weak;
use vstd::prelude::*;

verus! {

/// A non-owning handle to a shared value: std's `Weak`, held opaquely.
#[verifier::external_body]
#[verifier::reject_recursive_types(T)]
pub struct WeakRef<T> {
    inner: Weak<T>,
}

/// `Arc::downgrade`: a new handle to the value that `shared` owns. It adds
/// no owner. Nothing is claimed of the handle.
#[verifier::external_body]
pub(crate) fn downgrade<T>(shared: &Arc<T>) -> (r: WeakRef<T>) {
    WeakRef { inner: Arc::downgrade(shared) }
}

/// `Weak::upgrade`: the referent, if an owner of it is left. Which of the
/// two comes back is not claimed.
#[verifier::external_body]
pub(crate) fn upgrade<T>(handle: &WeakRef<T>) -> (r: Option<Arc<T>>) {
    handle.inner.upgrade()
}

/// `Weak::clone`: a second handle that points to the same allocation. A
/// handle is what it points to, so the two are the same handle. The clone
/// adds no owner, and whether the referent is still there is claimed of
/// neither.
#[verifier::external_body]
pub(crate) fn duplicate<T>(handle: &WeakRef<T>) -> (r: WeakRef<T>)
    ensures
        r == *handle,
{
    WeakRef { inner: handle.inner.clone() }
}

} // verus!
