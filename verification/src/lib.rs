//! Client-side core of a cloud email-sending REST service.
//!
//! The crate builds signed requests for the service's send and status
//! endpoints and decides how a caller should react to what the service
//! answers: shared-key requests are signed with HMAC-SHA256 over a canonical
//! string, connection strings are parsed into a host and an access key, and
//! the retry and polling rules for throttled sends and in-flight status
//! queries are pure decision functions.  All I/O — the HTTP calls, token
//! acquisition, timers — stays with the embedding application, which feeds
//! responses back into the decision functions here.

pub mod client;
pub mod dispatch;
pub mod endpoint;
pub mod errors;
pub mod headers;
pub mod models;
pub mod signing;
pub mod status;
pub mod strutil;
