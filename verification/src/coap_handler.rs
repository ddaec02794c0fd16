//! What a CoAP server answers for a handler that is kept behind a lock.
//!
//! A handler behind a lock can be asked only while nobody else holds the
//! lock. While it is held, the server answers in the handler's place that
//! the service is unavailable.

use vstd::prelude::*;

verus! {

/// The code and the payload of a response.
#[derive(Debug, PartialEq, Eq)]
pub struct FixedResponse {
    /// The code of the response, as it is sent.
    pub code: u8,
    /// The payload of the response.
    pub payload: Vec<u8>,
}

/// The code 5.03, "Service Unavailable".
///
/// This is the constant `coap_numbers::code::SERVICE_UNAVAILABLE`, which
/// that crate builds from the class 5 in the upper three bits and the
/// detail 3 in the lower five.
#[verifier::external_body]
fn service_unavailable() -> (r: u8)
    ensures
        r == 0xa3,
{
    coap_numbers::code::SERVICE_UNAVAILABLE
}

/// An upper bound for the length of the response: that of the handler
/// where it could be asked, and else 1.
pub fn estimate_length(handler_estimate: Option<usize>) -> (r: usize)
    ensures
        handler_estimate matches Some(estimate) ==> r == estimate,
        handler_estimate is None ==> r == 1,
{
    match handler_estimate {
        Some(estimate) => estimate,
        None => 1,
    }
}

/// The response that takes the place of a handler that could not be asked:
/// 5.03 without a payload.
pub fn unavailable_response() -> (r: FixedResponse)
    ensures
        r.code == 0xa3,
        r.payload@.len() == 0,
{
    FixedResponse { code: service_unavailable(), payload: Vec::new() }
}

} // verus!
