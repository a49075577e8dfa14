//! Tests of the client builder, the header sets, and prepared requests.

use acs_email::client::{
    create_headers, ACSAuthMethod, ACSClient, ACSClientBuildError, ACSClientBuilder, HeaderError,
};
use acs_email::endpoint::ParseEndpointError;
use acs_email::headers::{build_string_to_sign, get_request_header};
use acs_email::signing::{compute_content_sha256, compute_signature};

const KEY: &str = "CwsLCwsLCwsLCwsLCwsLCwsLCws=";

#[test]
fn builder_from_connection_string() {
    let client = ACSClientBuilder::new()
        .connection_string("endpoint=https://example.com;accesskey=QUJDRA==")
        .build()
        .unwrap();
    assert_eq!(client.host(), "example.com");
    assert!(matches!(client.auth_method(), ACSAuthMethod::SharedKey(k) if k == "QUJDRA=="));
}

#[test]
fn builder_rejects_a_bad_connection_string() {
    let r = ACSClientBuilder::new().connection_string("nonsense").build();
    assert_eq!(
        r.unwrap_err(),
        ACSClientBuildError::ConnectionString(ParseEndpointError::MalformedConnectionString)
    );
}

#[test]
fn builder_requires_a_host_without_a_connection_string() {
    let r = ACSClientBuilder::new().managed_identity().build();
    assert_eq!(r.unwrap_err(), ACSClientBuildError::HostRequired);
}

#[test]
fn builder_requires_an_auth_method_with_only_a_host() {
    let r = ACSClientBuilder::new().host("example.com").build();
    assert_eq!(r.unwrap_err(), ACSClientBuildError::AuthMethodRequired);
}

#[test]
fn builder_with_service_principal() {
    let client = ACSClientBuilder::new()
        .host("example.com")
        .service_principal("tenant", "client", "secret")
        .build()
        .unwrap();
    assert!(matches!(
        client.auth_method(),
        ACSAuthMethod::ServicePrincipal { tenant_id, client_id, client_secret }
            if tenant_id == "tenant" && client_id == "client" && client_secret == "secret"
    ));
    assert!(client.auth_method().needs_bearer_token());
}

#[test]
fn shared_key_does_not_need_a_token() {
    assert!(!ACSAuthMethod::SharedKey(KEY.to_string()).needs_bearer_token());
    assert!(ACSAuthMethod::ManagedIdentity.needs_bearer_token());
}

#[test]
fn shared_key_headers_carry_hash_date_and_signature() {
    let date = "Fri, 15 May 2015 15:34:21 GMT";
    let body = "{\"senderAddress\":\"from@example.com\"}";
    let headers = get_request_header(
        "example.com",
        "/emails:send?api-version=2023-01-15-preview",
        "POST",
        "req-1",
        body,
        KEY,
        date,
    )
    .unwrap();
    let names: Vec<&str> = headers.iter().map(|h| h.name.as_str()).collect();
    assert_eq!(
        names,
        vec![
            "Content-Type",
            "repeatability-request-id",
            "repeatability-first-sent",
            "x-ms-date",
            "x-ms-content-sha256",
            "Authorization",
        ]
    );
    assert_eq!(headers[0].value, "application/json");
    assert_eq!(headers[1].value, "req-1");
    assert_eq!(headers[2].value, date);
    assert_eq!(headers[3].value, date);
    assert_eq!(headers[4].value, compute_content_sha256(body));

    let expected_sts = build_string_to_sign(
        "POST",
        "/emails:send?api-version=2023-01-15-preview",
        date,
        "example.com",
        &compute_content_sha256(body),
    );
    let expected_sig = compute_signature(&expected_sts, KEY).unwrap();
    assert_eq!(
        headers[5].value,
        format!(
            "HMAC-SHA256 SignedHeaders=x-ms-date;host;x-ms-content-sha256&Signature={}",
            expected_sig
        )
    );
}

#[test]
fn string_to_sign_has_the_canonical_shape() {
    let s = build_string_to_sign("POST", "/p?q=1", "DATE", "example.com", "HASH");
    assert_eq!(s, "POST\n/p?q=1\nDATE;example.com;HASH");
}

#[test]
fn bearer_headers_carry_the_token() {
    let auth = ACSAuthMethod::ManagedIdentity;
    let headers = create_headers(
        &auth,
        "example.com",
        "/emails:send?api-version=2023-01-15-preview",
        "POST",
        "req-2",
        "{}",
        "Fri, 15 May 2015 15:34:21 GMT",
        Some("tok-123"),
    )
    .unwrap();
    assert_eq!(headers.len(), 3);
    assert_eq!(headers[0].name, "Authorization");
    assert_eq!(headers[0].value, "Bearer tok-123");
    assert_eq!(headers[1].name, "Content-Type");
    assert_eq!(headers[1].value, "application/json");
    assert_eq!(headers[2].name, "x-ms-client-request-id");
    assert_eq!(headers[2].value, "req-2");
}

#[test]
fn token_methods_fail_without_a_token() {
    let auth = ACSAuthMethod::ManagedIdentity;
    let r = create_headers(&auth, "example.com", "/p", "POST", "req", "{}", "DATE", None);
    assert_eq!(r.unwrap_err(), HeaderError::MissingBearerToken);
}

#[test]
fn shared_key_headers_fail_on_an_invalid_key() {
    let auth = ACSAuthMethod::SharedKey("not base64!!".to_string());
    let r = create_headers(&auth, "example.com", "/p", "POST", "req", "{}", "DATE", None);
    assert_eq!(r.unwrap_err(), HeaderError::InvalidCredential);
}

#[test]
fn prepared_send_request_targets_the_send_endpoint() {
    let client = ACSClient {
        host: "https://example.com".to_string(),
        auth_method: ACSAuthMethod::SharedKey(KEY.to_string()),
    };
    let p = client.prepare_send_request("{}", None).unwrap();
    assert_eq!(p.method, "POST");
    assert_eq!(
        p.url,
        "https://example.com/emails:send?api-version=2023-01-15-preview"
    );
    assert_eq!(p.request_id.len(), 36);
    assert_eq!(p.headers.len(), 6);
    assert_eq!(p.headers[1].value, p.request_id);
    // the one clock reading lands in both date headers, in IMF-fixdate form
    assert_eq!(p.headers[2].value, p.headers[3].value);
    assert_eq!(p.headers[3].value.len(), 29);
    assert!(p.headers[3].value.ends_with(" GMT"));
}

#[test]
fn prepared_status_request_names_the_message() {
    let client = ACSClient {
        host: "example.com".to_string(),
        auth_method: ACSAuthMethod::ManagedIdentity,
    };
    let p = client.prepare_status_request("abc123", Some("tok")).unwrap();
    assert_eq!(p.method, "GET");
    assert_eq!(p.request_id, "abc123");
    assert_eq!(
        p.url,
        "https://example.com/emails/operations/abc123?api-version=2023-01-15-preview"
    );
    assert_eq!(p.headers.len(), 3);
    assert_eq!(p.headers[2].value, "abc123");
}

#[test]
fn prepared_request_fails_when_the_token_is_missing() {
    let client = ACSClient {
        host: "example.com".to_string(),
        auth_method: ACSAuthMethod::ManagedIdentity,
    };
    let r = client.prepare_send_request("{}", None);
    assert_eq!(r.unwrap_err(), HeaderError::MissingBearerToken);
}
