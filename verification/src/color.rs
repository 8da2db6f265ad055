//! The colour type of the `rgb` crate, made known to the verifier.

use vstd::prelude::*;

verus! {

/// `rgb::Rgb`: three public channels and nothing else, so the verifier reads
/// the type as it is declared.
#[verifier::external_type_specification]
#[verifier::reject_recursive_types(T)]
pub struct ExRgb<T>(rgb::Rgb<T>);

} // verus!
