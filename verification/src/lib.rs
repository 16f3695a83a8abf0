//! XML extraction and response encoding for a web framework.
//!
//! `Xml<T>` wraps a request or response payload. An inbound request is
//! accepted only when its declared content type is XML-shaped (see
//! [`media_type`]); its body is then decoded into `T`. An outbound `Xml<T>`
//! is encoded to XML with the matching content-type header, and an encoding
//! failure becomes a well-formed error response instead of a crash.
//!
//! The host framework stays outside this crate: it hands the declared
//! content type and the materialized body bytes in, and converts the
//! [`response::XmlResponse`] this crate hands back.

pub mod media_type;
pub mod rejection;
pub mod response;

use crate::media_type::is_xml_media_type;
use crate::media_type::spec_is_xml_media_type;
use crate::rejection::XmlRejection;
use crate::response::XmlResponse;
use crate::response::response_for_encode_outcome;
use vstd::prelude::*;

verus! {

/// XML extractor / response wrapper: holds exactly one fully decoded (or
/// to-be-encoded) value.
#[derive(Debug, Clone, Copy, Default)]
pub struct Xml<T>(pub T);

impl<T> Xml<T> {
    /// Returns the wrapped value.
    pub fn into_inner(self) -> (r: T)
        ensures
            r == self.0,
    {
        self.0
    }
}

impl<T> From<T> for Xml<T> {
    fn from(inner: T) -> Self {
        Xml(inner)
    }
}

impl<T> vstd::std_specs::convert::FromSpecImpl<T> for Xml<T> {
    open spec fn obeys_from_spec() -> bool {
        true
    }

    open spec fn from_spec(t: T) -> Self {
        Xml(t)
    }
}

/// Relies on quick_xml::de::from_reader: decodes XML bytes into `T` by
/// `T`'s serde data binding, or returns the decoder's message. It never
/// panics; nothing further can be stated of the result, which depends on
/// `T`'s binding.
#[verifier::external_body]
fn decode_xml<T: serde::de::DeserializeOwned>(bytes: &[u8]) -> Result<T, String> {
    match quick_xml::de::from_reader(bytes) {
        Ok(v) => Ok(v),
        Err(e) => Err(e.to_string()),
    }
}

/// Relies on quick_xml::se::to_string: encodes `value` as XML text with the
/// root tag taken from `T`'s serde name, or returns the encoder's message
/// (some types cannot be represented without a root tag). It never panics.
#[verifier::external_body]
fn encode_xml<T: serde::Serialize>(value: &T) -> Result<String, String> {
    match quick_xml::se::to_string(value) {
        Ok(s) => Ok(s),
        Err(e) => Err(e.to_string()),
    }
}

/// The first extraction step: accepts exactly the XML-shaped content types
/// and rejects everything else, an absent header included, with
/// `MissingXMLContentType`. The request body plays no part here, so a
/// caller can refuse a request without reading its body.
pub fn check_xml_content_type(content_type: Option<&[u8]>) -> (r: Result<(), XmlRejection>)
    ensures
        r is Ok <==> (content_type matches Some(s) && spec_is_xml_media_type(s@)),
        r is Err ==> r->Err_0 is MissingXMLContentType,
{
    match content_type {
        Some(s) => {
            if is_xml_media_type(s) {
                Ok(())
            } else {
                Err(XmlRejection::MissingXMLContentType)
            }
        },
        None => Err(XmlRejection::MissingXMLContentType),
    }
}

/// Maps a decode outcome to the extraction result: a decoded value is
/// wrapped, and a decode failure is exactly `InvalidXMLBody` carrying the
/// decoder's message.
pub fn extraction_for_decode_outcome<T>(outcome: Result<T, String>) -> (r: Result<
    Xml<T>,
    XmlRejection,
>)
    ensures
        (outcome matches Ok(v) ==> r == Ok::<Xml<T>, XmlRejection>(Xml(v))),
        (outcome matches Err(m) ==> r == Err::<Xml<T>, XmlRejection>(
            XmlRejection::InvalidXMLBody(m),
        )),
{
    match outcome {
        Ok(v) => Ok(Xml(v)),
        Err(m) => Err(XmlRejection::InvalidXMLBody(m)),
    }
}

impl<T: serde::de::DeserializeOwned> Xml<T> {
    /// Decodes an in-memory XML body into the wrapped type. A decode
    /// failure is always `InvalidXMLBody`, never a panic.
    pub fn from_xml_bytes(bytes: &[u8]) -> (r: Result<Xml<T>, XmlRejection>)
        ensures
            r is Err ==> r->Err_0 is InvalidXMLBody,
    {
        extraction_for_decode_outcome(decode_xml::<T>(bytes))
    }

    /// The whole extraction on materialized request parts: a request whose
    /// content type is not XML-shaped is rejected with
    /// `MissingXMLContentType` and its body is not examined; otherwise the
    /// body is decoded, and the only possible failure is `InvalidXMLBody`.
    pub fn from_request_parts(content_type: Option<&[u8]>, body: &[u8]) -> (r: Result<
        Xml<T>,
        XmlRejection,
    >)
        ensures
            !(content_type matches Some(s) && spec_is_xml_media_type(s@)) ==> r == Err::<
                Xml<T>,
                XmlRejection,
            >(XmlRejection::MissingXMLContentType),
            (content_type matches Some(s) && spec_is_xml_media_type(s@)) ==> (r is Err
                ==> r->Err_0 is InvalidXMLBody),
    {
        match check_xml_content_type(content_type) {
            Ok(()) => Self::from_xml_bytes(body),
            Err(rejection) => Err(rejection),
        }
    }
}

impl<T: serde::Serialize> Xml<T> {
    /// Encodes the wrapped value as the response body. On success the
    /// response carries `Content-Type: application/xml`; an encoding
    /// failure becomes a plain-text internal-server-error response rather
    /// than a crash.
    pub fn into_response(self) -> (r: XmlResponse)
        ensures
            r.status == 200 || r.status == 500,
            r.status == 200 ==> (r.content_type matches Some(c) && c@ == "application/xml"@),
            r.status == 500 ==> (r.content_type matches Some(c) && c@
                == "text/plain; charset=utf-8"@),
    {
        response_for_encode_outcome(encode_xml(&self.0))
    }
}

} // verus!
