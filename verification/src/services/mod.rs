//! Helpers for the services that sit on the repositories.

use vstd::prelude::*;

verus! {

/// The successful outcome `result`, as a test double of a repository hands
/// it back.
pub fn mock_result<A, E>(result: A) -> (outcome: Result<A, E>)
    ensures
        outcome == Ok::<A, E>(result),
{
    Ok(result)
}

} // verus!
