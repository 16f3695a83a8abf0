//! The closed set of terminal extraction failures and how each one is
//! rendered as an HTTP response.

use crate::response::XmlResponse;
use vstd::prelude::*;

verus! {

/// A terminal, user-visible extraction failure.
#[derive(Debug)]
pub enum XmlRejection {
    /// The request body was not valid XML for the target type; holds the
    /// decoder's message.
    InvalidXMLBody(String),
    /// The request did not declare an XML-shaped content type.
    MissingXMLContentType,
    /// Reading the request body failed upstream; holds the status and
    /// message that the upstream body reader specified for its own
    /// response.
    BytesRejection { status: u16, message: String },
}

impl XmlRejection {
    /// The HTTP status this rejection renders to: unprocessable entity for
    /// an undecodable body, unsupported media type for a missing or
    /// non-XML content type, and the upstream reader's own status for a
    /// body-read failure.
    pub open spec fn spec_status(&self) -> u16 {
        match self {
            XmlRejection::InvalidXMLBody(_) => 422,
            XmlRejection::MissingXMLContentType => 415,
            XmlRejection::BytesRejection { status, .. } => *status,
        }
    }

    /// The response body this rejection renders to: the decoder's own
    /// message, the fixed missing-content-type message, or the upstream
    /// reader's message.
    pub open spec fn spec_body(&self) -> Seq<char> {
        match self {
            XmlRejection::InvalidXMLBody(m) => m@,
            XmlRejection::MissingXMLContentType => {
                "Expected request with Content-Type: application/xml"@
            },
            XmlRejection::BytesRejection { message, .. } => message@,
        }
    }

    /// The HTTP status of this rejection.
    pub fn status(&self) -> (s: u16)
        ensures
            s == self.spec_status(),
    {
        match self {
            XmlRejection::InvalidXMLBody(_) => 422,
            XmlRejection::MissingXMLContentType => 415,
            XmlRejection::BytesRejection { status, .. } => *status,
        }
    }

    /// The textual body of this rejection.
    pub fn body_text(&self) -> (t: String)
        ensures
            t@ == self.spec_body(),
    {
        match self {
            XmlRejection::InvalidXMLBody(m) => m.clone(),
            XmlRejection::MissingXMLContentType => {
                "Expected request with Content-Type: application/xml".to_owned()
            },
            XmlRejection::BytesRejection { message, .. } => message.clone(),
        }
    }

    /// Renders the rejection as a response: its status and its text, with
    /// no content-type header.
    pub fn into_response(self) -> (r: XmlResponse)
        ensures
            r.status == self.spec_status(),
            r.content_type is None,
            r.body@ == self.spec_body(),
    {
        let status = self.status();
        let body = self.body_text();
        XmlResponse { status, content_type: None, body }
    }
}

} // verus!
