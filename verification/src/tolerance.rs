use vstd::prelude::*;

use crate::error::NumalError;

verus! {

/// Turn the outcome of an already-evaluated tolerance test into the
/// comparator's result.
///
/// A difference within budget succeeds with `true`; any other outcome is
/// reported as the convergence-failure error, never as a plain `false`:
/// the failure is the "not close" signal.
pub fn convergence_outcome(within_tolerance: bool) -> (r: Result<bool, NumalError>)
    ensures
        within_tolerance ==> r == Result::<bool, NumalError>::Ok(true),
        !within_tolerance ==> r == Result::<bool, NumalError>::Err(NumalError::DidNotConverge),
{
    if within_tolerance {
        Ok(true)
    } else {
        Err(NumalError::DidNotConverge)
    }
}

} // verus!
