//! The finalizer that keeps a `ServiceScaler` until its autoscaler is gone.

use vstd::prelude::*;

verus! {

/// The finalizer of this controller.
pub const FINALIZER: &'static str = "servicescalers.scaler.udaan.io/finalizer";

/// The list that a merge patch writes to `metadata.finalizers` to add the
/// finalizer: the finalizer alone.
pub fn add() -> (finalizers: Option<Vec<String>>)
    ensures
        finalizers is Some,
        finalizers->0@.len() == 1,
        finalizers->0@[0]@ == FINALIZER@,
{
    let mut list: Vec<String> = Vec::new();
    list.push(FINALIZER.to_owned());
    Some(list)
}

/// What a merge patch writes to `metadata.finalizers` to remove the
/// finalizer: nothing, which clears the list.
pub fn delete() -> (finalizers: Option<Vec<String>>)
    ensures
        finalizers is None,
{
    None
}

} // verus!
