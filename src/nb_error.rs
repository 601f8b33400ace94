use vstd::prelude::*;

verus! {

/// Relies on `nb::Error` as the `nb` crate declares it: an enum of two
/// variants, `Other(E)` for any other error and `WouldBlock` for an operation
/// that has not completed yet. Its variants are visible, so verified code
/// builds and matches them.
#[verifier::external_type_specification]
#[verifier::reject_recursive_types(E)]
pub struct ExNbError<E>(nb::Error<E>);

} // verus!
