//! Building the header set of one request: the canonical string-to-sign and
//! the shared-key header list, or the bearer-token header list.

use vstd::prelude::*;
use vstd::string::{StringExecFns, StringSliceAdditionalSpecFns};
use vstd::utf8::encode_utf8;

use crate::signing::{
    base64_decoded, compute_content_sha256, compute_signature, spec_content_hash, spec_signature,
    SignError,
};

verus! {

/// One HTTP header, name and value.
#[derive(Debug, Clone)]
pub struct HttpHeader {
    pub name: String,
    pub value: String,
}

impl View for HttpHeader {
    type V = (Seq<char>, Seq<char>);

    open spec fn view(&self) -> (Seq<char>, Seq<char>) {
        (self.name@, self.value@)
    }
}

/// The name/value pairs of a header list.
pub open spec fn spec_header_views(h: Seq<HttpHeader>) -> Seq<(Seq<char>, Seq<char>)> {
    h.map_values(|x: HttpHeader| x@)
}

/// The canonical string the shared-key signature covers: method, path with
/// query, then date, host and content hash joined by semicolons — the exact
/// shape the service validates.
pub open spec fn spec_string_to_sign(
    method: Seq<char>,
    path_and_query: Seq<char>,
    date: Seq<char>,
    host: Seq<char>,
    content_hash: Seq<char>,
) -> Seq<char> {
    method + "\n"@ + path_and_query + "\n"@ + date + ";"@ + host + ";"@ + content_hash
}

/// The Authorization value for a shared-key request: the fixed algorithm and
/// signed-header list, then the signature.
pub open spec fn spec_authorization(signature: Seq<char>) -> Seq<char> {
    "HMAC-SHA256 SignedHeaders=x-ms-date;host;x-ms-content-sha256&Signature="@ + signature
}

/// The six headers of a shared-key request, in order.
pub open spec fn spec_shared_key_headers(
    request_id: Seq<char>,
    date: Seq<char>,
    content_hash: Seq<char>,
    authorization: Seq<char>,
) -> Seq<(Seq<char>, Seq<char>)> {
    seq![
        ("Content-Type"@, "application/json"@),
        ("repeatability-request-id"@, request_id),
        ("repeatability-first-sent"@, date),
        ("x-ms-date"@, date),
        ("x-ms-content-sha256"@, content_hash),
        ("Authorization"@, authorization),
    ]
}

/// The three headers of a bearer-token request, in order.
pub open spec fn spec_bearer_headers(token: Seq<char>, request_id: Seq<char>) -> Seq<
    (Seq<char>, Seq<char>),
> {
    seq![
        ("Authorization"@, "Bearer "@ + token),
        ("Content-Type"@, "application/json"@),
        ("x-ms-client-request-id"@, request_id),
    ]
}

/// Join method, path, date, host and content hash into the canonical
/// string-to-sign.
pub fn build_string_to_sign(
    method: &str,
    path_and_query: &str,
    date: &str,
    host: &str,
    content_hash: &str,
) -> (r: String)
    ensures
        r@ == spec_string_to_sign(method@, path_and_query@, date@, host@, content_hash@),
{
    let mut s = method.to_owned();
    s.append("\n");
    s.append(path_and_query);
    s.append("\n");
    s.append(date);
    s.append(";");
    s.append(host);
    s.append(";");
    s.append(content_hash);
    proof {
        assert(s@ =~= spec_string_to_sign(method@, path_and_query@, date@, host@, content_hash@));
    }
    s
}

/// The Authorization value carrying a computed signature.
pub fn build_authorization(signature: &str) -> (r: String)
    ensures
        r@ == spec_authorization(signature@),
{
    let mut s = String::from_str(
        "HMAC-SHA256 SignedHeaders=x-ms-date;host;x-ms-content-sha256&Signature=",
    );
    s.append(signature);
    s
}

/// The full shared-key header set for one request.
///
/// `host` is the bare authority the URL names, `path_and_query` the part of
/// the URL after it, and `http_date` the one clock reading for this call:
/// the same date lands in `repeatability-first-sent`, in `x-ms-date`, and
/// inside the signed string, so header and signature can never disagree
/// about the time.  Fails exactly when the access key is not valid base64.
pub fn get_request_header(
    host: &str,
    path_and_query: &str,
    http_method: &str,
    request_id: &str,
    json_payload: &str,
    access_key: &str,
    http_date: &str,
) -> (r: Result<Vec<HttpHeader>, SignError>)
    ensures
        r is Ok <==> base64_decoded(access_key@) is Some,
        r matches Err(e) ==> e == SignError::InvalidCredential,
        r matches Ok(h) ==> ({
            let hash = spec_content_hash(encode_utf8(json_payload@));
            let sts = spec_string_to_sign(http_method@, path_and_query@, http_date@, host@, hash);
            let sig = spec_signature(encode_utf8(sts), access_key@)->Some_0;
            spec_header_views(h@) == spec_shared_key_headers(
                request_id@,
                http_date@,
                hash,
                spec_authorization(sig),
            )
        }),
{
    let content_hash = compute_content_sha256(json_payload);
    let string_to_sign = build_string_to_sign(
        http_method,
        path_and_query,
        http_date,
        host,
        content_hash.as_str(),
    );
    let signature = match compute_signature(string_to_sign.as_str(), access_key) {
        Ok(s) => s,
        Err(e) => {
            return Err(e);
        },
    };
    let authorization = build_authorization(signature.as_str());
    let mut headers: Vec<HttpHeader> = Vec::new();
    headers.push(
        HttpHeader {
            name: String::from_str("Content-Type"),
            value: String::from_str("application/json"),
        },
    );
    headers.push(
        HttpHeader { name: String::from_str("repeatability-request-id"), value: request_id.to_owned() },
    );
    headers.push(
        HttpHeader { name: String::from_str("repeatability-first-sent"), value: http_date.to_owned() },
    );
    headers.push(HttpHeader { name: String::from_str("x-ms-date"), value: http_date.to_owned() });
    headers.push(HttpHeader { name: String::from_str("x-ms-content-sha256"), value: content_hash });
    headers.push(HttpHeader { name: String::from_str("Authorization"), value: authorization });
    proof {
        let hash = spec_content_hash(encode_utf8(json_payload@));
        let sts = spec_string_to_sign(http_method@, path_and_query@, http_date@, host@, hash);
        let sig = spec_signature(encode_utf8(sts), access_key@)->Some_0;
        assert(spec_header_views(headers@) =~= spec_shared_key_headers(
            request_id@,
            http_date@,
            hash,
            spec_authorization(sig),
        ));
    }
    Ok(headers)
}

/// The bearer-token header set for one request.
pub fn bearer_headers(token: &str, request_id: &str) -> (r: Vec<HttpHeader>)
    ensures
        spec_header_views(r@) == spec_bearer_headers(token@, request_id@),
{
    let mut authorization = String::from_str("Bearer ");
    authorization.append(token);
    let mut headers: Vec<HttpHeader> = Vec::new();
    headers.push(HttpHeader { name: String::from_str("Authorization"), value: authorization });
    headers.push(
        HttpHeader {
            name: String::from_str("Content-Type"),
            value: String::from_str("application/json"),
        },
    );
    headers.push(
        HttpHeader { name: String::from_str("x-ms-client-request-id"), value: request_id.to_owned() },
    );
    proof {
        assert(spec_header_views(headers@) =~= spec_bearer_headers(token@, request_id@));
    }
    headers
}

} // verus!
