use axum_xml_up::rejection::XmlRejection;
use axum_xml_up::Xml;
use std::collections::HashMap;
use std::ops::Range;

fn valid_xml_content_type(content_type: &[u8]) -> bool {
    axum_xml_up::check_xml_content_type(Some(content_type)).is_ok()
}

fn extract_map(
    content_type: Option<&[u8]>,
    body: &[u8],
) -> Result<Xml<HashMap<String, String>>, XmlRejection> {
    Xml::<HashMap<String, String>>::from_request_parts(content_type, body)
}

#[test]
fn xml_content_types() {
    assert!(valid_xml_content_type(b"application/xml"));
    assert!(valid_xml_content_type(b"application/xml; charset=utf-8"));
    assert!(valid_xml_content_type(b"application/xml;charset=utf-8"));
    assert!(valid_xml_content_type(b"application/cloudevents+xml"));
    assert!(valid_xml_content_type(b"text/xml"));
    assert!(!valid_xml_content_type(b"application/json"));
}

#[test]
fn content_type_edge_cases() {
    // case-insensitive on type, subtype and suffix
    assert!(valid_xml_content_type(b"Application/XML"));
    assert!(valid_xml_content_type(b"TEXT/xml"));
    assert!(valid_xml_content_type(b"application/CloudEvents+XML"));
    // the last '+' splits the subtype into a name and a suffix, and either
    // may be xml
    assert!(valid_xml_content_type(b"application/json+xml"));
    assert!(valid_xml_content_type(b"application/xml+json"));
    assert!(valid_xml_content_type(b"application/XML+der"));
    assert!(valid_xml_content_type(b"text/xml+"));
    assert!(valid_xml_content_type(b"application/x+xml"));
    // a '+' at the very start of the subtype introduces no suffix, and a
    // name other than xml with a suffix other than xml does not match
    assert!(!valid_xml_content_type(b"application/+xml"));
    assert!(!valid_xml_content_type(b"application/cloudevents+"));
    assert!(!valid_xml_content_type(b"application/svg+gzip"));
    // wrong type component
    assert!(!valid_xml_content_type(b"image/xml"));
    assert!(!valid_xml_content_type(b"text/html"));
    assert!(!valid_xml_content_type(b"text/plain"));
    // strings that do not parse as media types
    assert!(!valid_xml_content_type(b""));
    assert!(!valid_xml_content_type(b"application"));
    assert!(!valid_xml_content_type(b"application/"));
    assert!(!valid_xml_content_type(b"/xml"));
    assert!(!valid_xml_content_type(b"application /xml"));
    assert!(!valid_xml_content_type(b"application/ xml"));
    assert!(!valid_xml_content_type(b"application/xml "));
    // absent header
    assert!(axum_xml_up::check_xml_content_type(None).is_err());
}

#[test]
fn content_type_parameter_section() {
    // well-formed parameter sections
    assert!(valid_xml_content_type(b"text/xml; charset=utf-8"));
    assert!(valid_xml_content_type(b"text/xml;a=b;c=d"));
    assert!(valid_xml_content_type(b"text/xml; name=\"quoted value\""));
    assert!(valid_xml_content_type(b"text/xml; name=\"semi;colon\" ; a=b"));
    // a bare trailing separator, trailing spaces, and an empty value at the
    // very end all parse
    assert!(valid_xml_content_type(b"text/xml;"));
    assert!(valid_xml_content_type(b"text/xml; "));
    assert!(valid_xml_content_type(b"text/xml;charset="));
    // a parameter section that does not parse makes the whole header
    // non-matching
    assert!(!valid_xml_content_type(b"text/xml;="));
    assert!(!valid_xml_content_type(b"text/xml;charset"));
    assert!(!valid_xml_content_type(b"text/xml; charset utf-8"));
    assert!(!valid_xml_content_type(b"text/xml; charset =utf-8"));
    assert!(!valid_xml_content_type(b"text/xml; charset= utf-8"));
    assert!(!valid_xml_content_type(b"text/xml;;a=b"));
    assert!(!valid_xml_content_type(b"text/xml; a=\"unterminated"));
    assert!(!valid_xml_content_type(b"text/xml; a=\"\""));
    assert!(!valid_xml_content_type(b"text/xml; a=b c"));
    assert!(!valid_xml_content_type(b"text/xml; a=\"\xc3\xa9\""));
    assert!(!valid_xml_content_type(b"text/xml; a=b\x80"));
}

#[test]
fn deserialize_body() {
    let res = extract_map(Some(b"application/xml"), br#"<Input foo="bar"/>"#);
    let value = res.unwrap().into_inner();
    assert_eq!(value.get("@foo").map(|s| s.as_str()), Some("bar"));
}

#[test]
fn consume_body_to_xml_requires_xml_content_type() {
    let res = extract_map(None, br#"<Input foo="bar"/>"#);
    let rejection = match res {
        Err(r) => r,
        Ok(_) => panic!("extraction accepted a request without a content type"),
    };
    assert!(matches!(rejection, XmlRejection::MissingXMLContentType));
    assert_eq!(rejection.into_response().status, 415);
}

#[test]
fn require_content_type() {
    let res = extract_map(Some(b"application/json"), br#"<Input foo="bar"/>"#);
    let rejection = match res {
        Err(r) => r,
        Ok(_) => panic!("extraction accepted a non-XML content type"),
    };
    let response = rejection.into_response();
    assert_eq!(response.status, 415);
    assert!(response.content_type.is_none());
    assert_eq!(
        response.body,
        "Expected request with Content-Type: application/xml"
    );
}

#[test]
fn valid_content_types() {
    let body = br#"<Input foo="bar"/>"#;
    let accepted: [&[u8]; 4] = [
        b"application/xml",
        b"application/xml;charset=utf-8",
        b"application/cloudevents+xml",
        b"text/xml",
    ];
    for content_type in accepted {
        let res = extract_map(Some(content_type), body);
        let value = res.unwrap().into_inner();
        assert_eq!(value.get("@foo").map(|s| s.as_str()), Some("bar"));
    }
    let refused: [&[u8]; 2] = [b"application/json", b"text/html"];
    for content_type in refused {
        let res = extract_map(Some(content_type), body);
        let rejection = match res {
            Err(r) => r,
            Ok(_) => panic!("extraction accepted a non-XML content type"),
        };
        let response = rejection.into_response();
        assert_eq!(response.status, 415);
        assert_eq!(
            response.body,
            "Expected request with Content-Type: application/xml"
        );
    }
}

#[test]
fn round_trip_preserves_value() {
    // std's Range serializes as a struct with a root tag, so it survives
    // encoding and decoding unchanged.
    let original: Range<u32> = 3..9;
    let response = Xml(original.clone()).into_response();
    assert_eq!(response.status, 200);
    assert_eq!(response.content_type.as_deref(), Some("application/xml"));
    assert_eq!(response.body, "<Range><start>3</start><end>9</end></Range>");
    let decoded = Xml::<Range<u32>>::from_xml_bytes(response.body.as_bytes());
    assert_eq!(decoded.unwrap().into_inner(), original);
}

#[test]
fn malformed_xml_yields_invalid_xml_body() {
    let res = Xml::<HashMap<String, String>>::from_xml_bytes(b"<Input><open></Input>");
    let rejection = match res {
        Err(r) => r,
        Ok(_) => panic!("decoding accepted malformed XML"),
    };
    let message = match &rejection {
        XmlRejection::InvalidXMLBody(m) => m.clone(),
        _ => panic!("malformed XML did not yield InvalidXMLBody"),
    };
    assert!(!message.is_empty());
    let response = rejection.into_response();
    assert_eq!(response.status, 422);
    assert_eq!(response.body, message);
}

#[test]
fn malformed_xml_through_full_extraction() {
    let res = extract_map(Some(b"application/xml"), b"<a><b></a>");
    let rejection = match res {
        Err(r) => r,
        Ok(_) => panic!("extraction accepted malformed XML"),
    };
    assert!(matches!(rejection, XmlRejection::InvalidXMLBody(_)));
    assert_eq!(rejection.into_response().status, 422);
}

#[test]
fn encode_failure_becomes_error_response() {
    // a bare bool has no root tag, so the encoder refuses it
    let response = Xml(true).into_response();
    assert_eq!(response.status, 500);
    assert_eq!(
        response.content_type.as_deref(),
        Some("text/plain; charset=utf-8")
    );
    assert_eq!(
        response.body,
        "unsupported value: cannot serialize `bool` without defined root tag"
    );
}

#[test]
fn bytes_rejection_renders_upstream_response() {
    let rejection = XmlRejection::BytesRejection {
        status: 413,
        message: "length limit exceeded".to_string(),
    };
    assert_eq!(rejection.status(), 413);
    let response = rejection.into_response();
    assert_eq!(response.status, 413);
    assert!(response.content_type.is_none());
    assert_eq!(response.body, "length limit exceeded");
}

#[test]
fn wrapper_holds_value() {
    let wrapped: Xml<u32> = Xml::from(7u32);
    assert_eq!(wrapped.0, 7);
    assert_eq!(wrapped.into_inner(), 7);
}
