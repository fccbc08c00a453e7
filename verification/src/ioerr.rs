//! Declaration of the raw failure type the native backends report.

use vstd::prelude::*;

verus! {

/// Relies on `std::io::Error` only as an opaque carrier of the raw
/// operating-system failure behind a native backend call. This layer wraps
/// such a value into the matching situated error and passes it through
/// without inspecting it.
#[verifier::external_type_specification]
#[verifier::external_body]
pub struct ExIoError(std::io::Error);

} // verus!
