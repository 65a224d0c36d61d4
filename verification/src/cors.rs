//! The cross-origin policy of the registration service, as plain values for the web
//! layer to send.

use vstd::prelude::*;

verus! {

/// The HTTP status code for success.
pub const STATUS_OK: u16 = 200;

/// The cross-origin policy: every origin may call the service.
#[derive(Clone, Copy, Debug, PartialEq, Eq)]
pub struct CORS;

/// The headers of the policy, as pairs of name and value, in the order in which they
/// are set.
pub open spec fn cors_headers() -> Seq<(Seq<char>, Seq<char>)> {
    seq![
        ("Access-Control-Allow-Origin"@, "*"@),
        ("Access-Control-Allow-Methods"@, "POST, GET, PATCH, OPTIONS"@),
        ("Access-Control-Allow-Headers"@, "*"@),
        ("Access-Control-Allow-Credentials"@, "true"@),
    ]
}

impl CORS {
    /// The headers to set on every response, as pairs of name and value.
    pub fn on_response(&self) -> (headers: Vec<(&'static str, &'static str)>)
        ensures
            headers@.len() == cors_headers().len(),
            forall|i: int|
                0 <= i < headers@.len() ==> (#[trigger] headers@[i]).0@ == cors_headers()[i].0
                    && headers@[i].1@ == cors_headers()[i].1,
    {
        let mut headers: Vec<(&'static str, &'static str)> = Vec::new();
        headers.push(("Access-Control-Allow-Origin", "*"));
        headers.push(("Access-Control-Allow-Methods", "POST, GET, PATCH, OPTIONS"));
        headers.push(("Access-Control-Allow-Headers", "*"));
        headers.push(("Access-Control-Allow-Credentials", "true"));
        headers
    }
}

/// The answer to a preflight request: success, with no body.
pub fn options_handler() -> (status: u16)
    ensures
        status == STATUS_OK,
{
    STATUS_OK
}

} // verus!
