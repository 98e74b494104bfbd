//! Mathematical contents of results.

use vstd::prelude::*;

verus! {

/// The mathematical content of a result: that of its value, or that of its
/// error.
pub open spec fn outcome<T: DeepView, E: DeepView>(result: Result<T, E>) -> Result<T::V, E::V> {
    match result {
        Ok(value) => Ok(value.deep_view()),
        Err(error) => Err(error.deep_view()),
    }
}

} // verus!
