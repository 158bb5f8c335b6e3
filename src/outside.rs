use vstd::prelude::*;

verus! {

/// The HTTP client's error: an unreachable host, a refused connection, a
/// failed status, or a response body that could not be read or decoded.
#[verifier::external_type_specification]
#[verifier::external_body]
pub struct ExRequestError(reqwest::Error);

/// The XML decoder's error: a malformed document or one that does not match
/// the listing's schema.
#[verifier::external_type_specification]
#[verifier::external_body]
pub struct ExXmlError(serde_xml_rs::Error);

} // verus!
