//! Tests of connection-string parsing: the round trip and every rejection.

use acs_email::endpoint::{parse_endpoint, ParseEndpointError};

#[test]
fn parse_endpoint_round_trip() {
    let p = parse_endpoint("endpoint=https://example.com;accesskey=QUJDRA==").unwrap();
    assert_eq!(p.host_name, "example.com");
    assert_eq!(p.access_key, "QUJDRA==");
}

#[test]
fn parse_endpoint_accepts_fields_in_either_order() {
    let p = parse_endpoint("accesskey=QUJDRA==;endpoint=https://example.com").unwrap();
    assert_eq!(p.host_name, "example.com");
    assert_eq!(p.access_key, "QUJDRA==");
}

#[test]
fn parse_endpoint_keeps_the_port_out_of_the_host() {
    let p = parse_endpoint("endpoint=https://example.com:8080/x;accesskey=K").unwrap();
    assert_eq!(p.host_name, "example.com");
}

#[test]
fn parse_endpoint_rejects_one_field() {
    let r = parse_endpoint("endpoint=https://example.com");
    assert!(matches!(r, Err(ParseEndpointError::MalformedConnectionString)));
}

#[test]
fn parse_endpoint_rejects_three_fields() {
    let r = parse_endpoint("endpoint=https://example.com;accesskey=K;extra=1");
    assert!(matches!(r, Err(ParseEndpointError::MalformedConnectionString)));
}

#[test]
fn parse_endpoint_rejects_empty_string() {
    let r = parse_endpoint("");
    assert!(matches!(r, Err(ParseEndpointError::MalformedConnectionString)));
}

#[test]
fn parse_endpoint_rejects_missing_endpoint_prefix() {
    let r = parse_endpoint("server=https://example.com;accesskey=K");
    assert!(matches!(r, Err(ParseEndpointError::InvalidEndpoint)));
}

#[test]
fn parse_endpoint_rejects_unparseable_url() {
    let r = parse_endpoint("endpoint=not a url;accesskey=K");
    assert!(matches!(r, Err(ParseEndpointError::InvalidEndpoint)));
}

#[test]
fn parse_endpoint_rejects_url_without_host() {
    let r = parse_endpoint("endpoint=mailto:user@example.com;accesskey=K");
    assert!(matches!(r, Err(ParseEndpointError::InvalidEndpoint)));
}

#[test]
fn parse_endpoint_rejects_missing_accesskey_prefix() {
    let r = parse_endpoint("endpoint=https://example.com;key=K");
    assert!(matches!(r, Err(ParseEndpointError::InvalidAccessKey)));
}

#[test]
fn parse_endpoint_rejects_two_endpoint_fields() {
    let r = parse_endpoint("endpoint=https://a.com;endpoint=https://b.com");
    assert!(matches!(r, Err(ParseEndpointError::InvalidAccessKey)));
}

#[test]
fn parse_endpoint_allows_empty_access_key_text() {
    let p = parse_endpoint("endpoint=https://example.com;accesskey=").unwrap();
    assert_eq!(p.access_key, "");
}
