//! The URL parse error that a request which cannot be addressed carries.

use vstd::prelude::*;

verus! {

/// Relies on url's parse error type: a malformed request URL, carried as it is.
#[verifier::external_type_specification]
#[verifier::external_body]
pub struct ExUrlParseError(url::ParseError);

} // verus!
