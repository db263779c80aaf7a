//! Declarations shared by the request and response types: the decimal
//! number type that prices and quantities are given in.

use vstd::prelude::*;

use num_decimal::Num;

verus! {

/// The arbitrary precision decimal number type of the `num-decimal`
/// crate, carried as is.
#[verifier::external_type_specification]
#[verifier::external_body]
pub struct ExNum(Num);

/// `Clone` of `Num`, which is derived there: the clone equals the
/// value cloned.
pub assume_specification[ <Num as Clone>::clone ](n: &Num) -> (r: Num)
    ensures
        r == *n,
;

} // verus!
