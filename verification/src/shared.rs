//! Shared ownership of the repositories.

use std::sync::Arc;
use vstd::prelude::*;

verus! {

/// Another owner of the value behind `value`, by `Arc::clone`: a new
/// pointer to the same allocation, so it holds the same value.
#[verifier::external_body]
pub fn share<T>(value: &Arc<T>) -> (shared: Arc<T>)
    ensures
        shared == *value,
{
    Arc::clone(value)
}

} // verus!
