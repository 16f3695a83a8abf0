//! The response this library produces. The host framework converts it into
//! its own response type verbatim; nothing here depends on that framework.

use vstd::prelude::*;

verus! {

/// A rendered response: a status code, an optional content-type header
/// value, and a textual body.
#[derive(Debug)]
pub struct XmlResponse {
    pub status: u16,
    pub content_type: Option<String>,
    pub body: String,
}

/// Builds the response for an encode outcome: the encoded XML under
/// `Content-Type: application/xml` with the default success status, or an
/// internal-server-error response under `Content-Type: text/plain;
/// charset=utf-8` whose body is the encoder's message. An encoding failure
/// is thereby always rendered as a well-formed response.
pub fn response_for_encode_outcome(outcome: Result<String, String>) -> (r: XmlResponse)
    ensures
        (outcome matches Ok(x) ==> r.status == 200 && (r.content_type matches Some(c) && c@
            == "application/xml"@) && r.body@ == x@),
        (outcome matches Err(m) ==> r.status == 500 && (r.content_type matches Some(c) && c@
            == "text/plain; charset=utf-8"@) && r.body@ == m@),
{
    match outcome {
        Ok(x) => XmlResponse {
            status: 200,
            content_type: Some("application/xml".to_owned()),
            body: x,
        },
        Err(m) => XmlResponse {
            status: 500,
            content_type: Some("text/plain; charset=utf-8".to_owned()),
            body: m,
        },
    }
}

} // verus!
