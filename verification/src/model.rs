//! What the results of the services mean.

use vstd::prelude::*;

verus! {

/// A result by what its value or its error means.
pub open spec fn result_model<T: DeepView, E: DeepView>(result: Result<T, E>) -> Result<
    T::V,
    E::V,
> {
    match result {
        Ok(value) => Ok(value.deep_view()),
        Err(error) => Err(error.deep_view()),
    }
}

} // verus!
