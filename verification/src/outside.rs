//! The types of other crates that values of this library hold. Nothing is
//! known of what is inside them: they are carried, never read.

use vstd::prelude::*;

verus! {

/// `reqwest::Error`, the error with which the HTTP client gives up on a
/// request. It is declared as an opaque type: no field of it is visible and
/// nothing is claimed of it.
#[verifier::external_type_specification]
#[verifier::external_body]
pub struct ExTransportError(reqwest::Error);

/// `serde_json::Error`, the error with which the JSON parser gives up on a
/// text. It is declared as an opaque type: no field of it is visible and
/// nothing is claimed of it.
#[verifier::external_type_specification]
#[verifier::external_body]
pub struct ExDecodeError(serde_json::Error);

} // verus!
