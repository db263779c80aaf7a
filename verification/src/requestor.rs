//! The result of the conversion of a response.

use vstd::prelude::*;

verus! {

/// A result type used solely for the purpose of communicating the result
/// of a conversion to the requestor.
#[derive(Debug)]
pub struct ConvertResult<T, E>(pub Result<T, E>);

impl<T, E> ConvertResult<T, E> {
    /// The result carried.
    pub fn into(self) -> (r: Result<T, E>)
        ensures
            r == self.0,
    {
        self.0
    }
}

} // verus!
