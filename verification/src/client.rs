//! The client: which host it talks to, how it authenticates, and the fully
//! prepared request — method, URL, headers — for one send or status call.

use vstd::prelude::*;
use vstd::string::StringExecFns;
use vstd::utf8::encode_utf8;

use crate::dispatch::{
    bare_host, request_url, send_path_and_query, spec_bare_host, spec_opt_str_view,
    spec_request_url, spec_send_path, spec_status_path, status_path_and_query,
};
use crate::endpoint::{parse_endpoint, spec_parse_endpoint, ParseEndpointError};
use crate::headers::{
    bearer_headers, get_request_header, spec_authorization, spec_bearer_headers,
    spec_header_views, spec_shared_key_headers, spec_string_to_sign, HttpHeader,
};
use crate::signing::{base64_decoded, spec_content_hash, spec_signature};

verus! {

/// How the client authenticates to the service.
#[derive(Debug, Clone)]
pub enum ACSAuthMethod {
    /// A base64-encoded shared secret; requests are HMAC-signed with it.
    SharedKey(String),
    /// An application identity; requests carry a bearer token obtained from
    /// the identity provider with these three values.
    ServicePrincipal { tenant_id: String, client_id: String, client_secret: String },
    /// The hosting environment's identity; requests carry a bearer token it
    /// hands out.
    ManagedIdentity,
}

impl ACSAuthMethod {
    /// Whether requests under this method carry a bearer token (rather than
    /// a shared-key signature).
    pub fn needs_bearer_token(&self) -> (r: bool)
        ensures
            r == !(self is SharedKey),
    {
        match self {
            ACSAuthMethod::SharedKey(_) => false,
            ACSAuthMethod::ServicePrincipal { .. } => true,
            ACSAuthMethod::ManagedIdentity => true,
        }
    }
}

/// Why a header set could not be assembled.
#[derive(Clone, Copy, Debug, PartialEq, Eq, Structural)]
pub enum HeaderError {
    /// The shared key is not valid base64.
    InvalidCredential,
    /// The auth method needs a bearer token and none was supplied.
    MissingBearerToken,
}

/// The header set one request gets: the six signed shared-key headers, or
/// the three bearer-token headers, or the error that prevented either.
pub open spec fn spec_create_headers(
    auth_method: ACSAuthMethod,
    host: Seq<char>,
    path_and_query: Seq<char>,
    method: Seq<char>,
    request_id: Seq<char>,
    json_body: Seq<char>,
    date: Seq<char>,
    token: Option<Seq<char>>,
) -> Result<Seq<(Seq<char>, Seq<char>)>, HeaderError> {
    match auth_method {
        ACSAuthMethod::SharedKey(key) => {
            if base64_decoded(key@) is Some {
                let hash = spec_content_hash(encode_utf8(json_body));
                let sts = spec_string_to_sign(method, path_and_query, date, host, hash);
                let sig = spec_signature(encode_utf8(sts), key@)->Some_0;
                Ok(spec_shared_key_headers(request_id, date, hash, spec_authorization(sig)))
            } else {
                Err(HeaderError::InvalidCredential)
            }
        },
        _ => match token {
            Some(t) => Ok(spec_bearer_headers(t, request_id)),
            None => Err(HeaderError::MissingBearerToken),
        },
    }
}

/// Whether a header set can be assembled at all: a shared key must be valid
/// base64, a token method must have its token.
pub open spec fn spec_can_create_headers(
    auth_method: ACSAuthMethod,
    token: Option<Seq<char>>,
) -> bool {
    match auth_method {
        ACSAuthMethod::SharedKey(key) => base64_decoded(key@) is Some,
        _ => token is Some,
    }
}

/// Assemble the header set for one request under the given auth method.
///
/// `host` is the bare authority, `http_date` the one clock reading for the
/// call, and `bearer_token` the token a token-based method uses; a shared
/// key ignores it.
pub fn create_headers(
    auth_method: &ACSAuthMethod,
    host: &str,
    path_and_query: &str,
    method: &str,
    request_id: &str,
    json_body: &str,
    http_date: &str,
    bearer_token: Option<&str>,
) -> (r: Result<Vec<HttpHeader>, HeaderError>)
    ensures
        match r {
            Ok(h) => spec_create_headers(
                *auth_method,
                host@,
                path_and_query@,
                method@,
                request_id@,
                json_body@,
                http_date@,
                spec_opt_str_view(bearer_token),
            ) == Ok::<_, HeaderError>(spec_header_views(h@)),
            Err(e) => spec_create_headers(
                *auth_method,
                host@,
                path_and_query@,
                method@,
                request_id@,
                json_body@,
                http_date@,
                spec_opt_str_view(bearer_token),
            ) == Err::<Seq<(Seq<char>, Seq<char>)>, _>(e),
        },
        r is Ok <==> spec_can_create_headers(*auth_method, spec_opt_str_view(bearer_token)),
{
    match auth_method {
        ACSAuthMethod::SharedKey(key) => {
            match get_request_header(
                host,
                path_and_query,
                method,
                request_id,
                json_body,
                key.as_str(),
                http_date,
            ) {
                Ok(h) => Ok(h),
                Err(_) => Err(HeaderError::InvalidCredential),
            }
        },
        _ => match bearer_token {
            Some(t) => Ok(bearer_headers(t, request_id)),
            None => Err(HeaderError::MissingBearerToken),
        },
    }
}

/// Relies on httpdate::fmt_http_date over the system clock: whatever moment
/// the clock reads, the result is its fixed 29-character IMF-fixdate form.
#[verifier::external_body]
fn http_date_now() -> (r: String)
    ensures
        r@.len() == 29,
{
    httpdate::fmt_http_date(std::time::SystemTime::now())
}

/// Relies on uuid::Uuid::new_v4 and its hyphenated display form: a fresh
/// random identifier, 36 characters long; nothing else is assumed of it.
#[verifier::external_body]
fn new_request_id() -> (r: String)
    ensures
        r@.len() == 36,
{
    format!("{}", uuid::Uuid::new_v4())
}

/// Everything one HTTP call needs: the method, the full URL, the request id
/// the headers carry, and the headers themselves.
#[derive(Debug)]
pub struct PreparedRequest {
    pub method: String,
    pub url: String,
    pub request_id: String,
    pub headers: Vec<HttpHeader>,
}

/// A client for one service host under one auth method.
#[derive(Debug, Clone)]
pub struct ACSClient {
    pub host: String,
    pub auth_method: ACSAuthMethod,
}

impl ACSClient {
    /// The host this client talks to.
    pub fn host(&self) -> (r: &str)
        ensures
            r@ == self.host@,
    {
        self.host.as_str()
    }

    /// The auth method this client uses.
    pub fn auth_method(&self) -> (r: &ACSAuthMethod)
        ensures
            *r == self.auth_method,
    {
        &self.auth_method
    }

    /// Prepare one send call: a fresh request id, the send URL, and the
    /// header set, with the clock read once so the date headers and the
    /// signed string name the same moment.
    ///
    /// `json_body` is the serialized message the call will carry;
    /// `bearer_token` is required exactly when the auth method is
    /// token-based.
    pub fn prepare_send_request(&self, json_body: &str, bearer_token: Option<&str>) -> (r: Result<
        PreparedRequest,
        HeaderError,
    >)
        ensures
            r is Ok <==> spec_can_create_headers(self.auth_method, spec_opt_str_view(bearer_token)),
            r matches Ok(p) ==> {
                &&& p.method@ == "POST"@
                &&& p.request_id@.len() == 36
                &&& p.url@ == spec_request_url(self.host@, spec_send_path())
                &&& exists|date: Seq<char>|
                    spec_create_headers(
                        self.auth_method,
                        spec_bare_host(self.host@),
                        spec_send_path(),
                        "POST"@,
                        p.request_id@,
                        json_body@,
                        date,
                        spec_opt_str_view(bearer_token),
                    ) == Ok::<_, HeaderError>(spec_header_views(p.headers@))
            },
    {
        let date = http_date_now();
        let request_id = new_request_id();
        let bare = bare_host(self.host.as_str());
        let pq = send_path_and_query();
        let url = request_url(self.host.as_str(), pq.as_str());
        let headers = match create_headers(
            &self.auth_method,
            bare.as_str(),
            pq.as_str(),
            "POST",
            request_id.as_str(),
            json_body,
            date.as_str(),
            bearer_token,
        ) {
            Ok(h) => h,
            Err(e) => {
                return Err(e);
            },
        };
        proof {
            assert(spec_create_headers(
                self.auth_method,
                spec_bare_host(self.host@),
                spec_send_path(),
                "POST"@,
                request_id@,
                json_body@,
                date@,
                spec_opt_str_view(bearer_token),
            ) == Ok::<_, HeaderError>(spec_header_views(headers@)));
        }
        Ok(PreparedRequest { method: String::from_str("POST"), url, request_id, headers })
    }

    /// Prepare one status call for a message id: the status URL and the
    /// header set, with the message id doubling as the request id, as the
    /// service expects.
    pub fn prepare_status_request(&self, message_id: &str, bearer_token: Option<&str>) -> (r:
        Result<PreparedRequest, HeaderError>)
        ensures
            r is Ok <==> spec_can_create_headers(self.auth_method, spec_opt_str_view(bearer_token)),
            r matches Ok(p) ==> {
                &&& p.method@ == "GET"@
                &&& p.request_id@ == message_id@
                &&& p.url@ == spec_request_url(self.host@, spec_status_path(message_id@))
                &&& exists|date: Seq<char>|
                    spec_create_headers(
                        self.auth_method,
                        spec_bare_host(self.host@),
                        spec_status_path(message_id@),
                        "GET"@,
                        message_id@,
                        ""@,
                        date,
                        spec_opt_str_view(bearer_token),
                    ) == Ok::<_, HeaderError>(spec_header_views(p.headers@))
            },
    {
        let date = http_date_now();
        let bare = bare_host(self.host.as_str());
        let pq = status_path_and_query(message_id);
        let url = request_url(self.host.as_str(), pq.as_str());
        let headers = match create_headers(
            &self.auth_method,
            bare.as_str(),
            pq.as_str(),
            "GET",
            message_id,
            "",
            date.as_str(),
            bearer_token,
        ) {
            Ok(h) => h,
            Err(e) => {
                return Err(e);
            },
        };
        proof {
            assert(spec_create_headers(
                self.auth_method,
                spec_bare_host(self.host@),
                spec_status_path(message_id@),
                "GET"@,
                message_id@,
                ""@,
                date@,
                spec_opt_str_view(bearer_token),
            ) == Ok::<_, HeaderError>(spec_header_views(headers@)));
        }
        Ok(
            PreparedRequest {
                method: String::from_str("GET"),
                url,
                request_id: message_id.to_owned(),
                headers,
            },
        )
    }
}

/// Why a client could not be built.
#[derive(Clone, Copy, Debug, PartialEq, Eq, Structural)]
pub enum ACSClientBuildError {
    /// The connection string did not parse.
    ConnectionString(ParseEndpointError),
    /// No host was given and no connection string supplies one.
    HostRequired,
    /// No auth method was given and no connection string supplies one.
    AuthMethodRequired,
}

/// Assembles an [`ACSClient`]: either from a connection string, which names
/// both host and shared key, or from an explicit host plus auth method.
#[derive(Debug)]
pub struct ACSClientBuilder {
    pub host: Option<String>,
    pub connection_string: Option<String>,
    pub auth_method: Option<ACSAuthMethod>,
}

impl ACSClientBuilder {
    /// A builder with nothing set.
    pub fn new() -> (r: Self)
        ensures
            r.host is None,
            r.connection_string is None,
            r.auth_method is None,
    {
        ACSClientBuilder { host: None, connection_string: None, auth_method: None }
    }

    /// Set the host the client talks to.
    pub fn host(self, host: &str) -> (r: Self)
        ensures
            r.host matches Some(h) && h@ == host@,
            r.connection_string == self.connection_string,
            r.auth_method == self.auth_method,
    {
        ACSClientBuilder { host: Some(host.to_owned()), ..self }
    }

    /// Authenticate with a shared key via a connection string.
    pub fn connection_string(self, connection_string: &str) -> (r: Self)
        ensures
            r.connection_string matches Some(cs) && cs@ == connection_string@,
            r.host == self.host,
            r.auth_method == self.auth_method,
    {
        ACSClientBuilder { connection_string: Some(connection_string.to_owned()), ..self }
    }

    /// Authenticate as a service principal.
    pub fn service_principal(self, tenant_id: &str, client_id: &str, client_secret: &str) -> (r:
        Self)
        ensures
            r.auth_method matches Some(
                ACSAuthMethod::ServicePrincipal { tenant_id: t, client_id: c, client_secret: s },
            ) && t@ == tenant_id@ && c@ == client_id@ && s@ == client_secret@,
            r.host == self.host,
            r.connection_string == self.connection_string,
    {
        ACSClientBuilder {
            auth_method: Some(
                ACSAuthMethod::ServicePrincipal {
                    tenant_id: tenant_id.to_owned(),
                    client_id: client_id.to_owned(),
                    client_secret: client_secret.to_owned(),
                },
            ),
            ..self
        }
    }

    /// Authenticate with the hosting environment's managed identity.
    pub fn managed_identity(self) -> (r: Self)
        ensures
            r.auth_method matches Some(a) && a is ManagedIdentity,
            r.host == self.host,
            r.connection_string == self.connection_string,
    {
        ACSClientBuilder { auth_method: Some(ACSAuthMethod::ManagedIdentity), ..self }
    }

    /// The finished client.  A connection string, when given, takes
    /// precedence and supplies host and shared key; otherwise both an
    /// explicit host and an auth method must have been set.
    pub fn build(self) -> (r: Result<ACSClient, ACSClientBuildError>)
        ensures
            match self.connection_string {
                Some(cs) => match spec_parse_endpoint(cs@) {
                    Ok(hk) => {
                        &&& r matches Ok(c)
                        &&& c.host@ == hk.0
                        &&& c.auth_method matches ACSAuthMethod::SharedKey(key) && key@ == hk.1
                    },
                    Err(e) => r == Err::<ACSClient, _>(ACSClientBuildError::ConnectionString(e)),
                },
                None => match self.host {
                    None => r == Err::<ACSClient, _>(ACSClientBuildError::HostRequired),
                    Some(h) => match self.auth_method {
                        None => r == Err::<ACSClient, _>(ACSClientBuildError::AuthMethodRequired),
                        Some(a) => r matches Ok(c) && c.host == h && c.auth_method == a,
                    },
                },
            },
    {
        match self.connection_string {
            Some(cs) => match parse_endpoint(cs.as_str()) {
                Ok(p) => Ok(
                    ACSClient {
                        host: p.host_name,
                        auth_method: ACSAuthMethod::SharedKey(p.access_key),
                    },
                ),
                Err(e) => Err(ACSClientBuildError::ConnectionString(e)),
            },
            None => {
                let host = match self.host {
                    Some(h) => h,
                    None => {
                        return Err(ACSClientBuildError::HostRequired);
                    },
                };
                let auth_method = match self.auth_method {
                    Some(a) => a,
                    None => {
                        return Err(ACSClientBuildError::AuthMethodRequired);
                    },
                };
                Ok(ACSClient { host, auth_method })
            },
        }
    }
}

} // verus!
