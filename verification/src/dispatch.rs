//! Request targets and the decision rules of the send path: which URL a
//! call goes to, when a throttled send is retried and how long to wait, and
//! what a response body yields — the message id, the send status, or an
//! error.

use vstd::prelude::*;
use vstd::string::{StrSliceExecFns, StringExecFns};

use crate::errors::{
    create_missing_id_error, create_missing_status_error, spec_message_only_error,
    spec_missing_id_message, spec_missing_status_message, ErrorResponse,
};
use crate::models::SentEmailResponse;
use crate::status::{spec_is_terminal, EmailSendStatus, EmailSendStatusType};
use crate::strutil::{spec_starts_with, str_starts_with};

verus! {

/// The API version every request names.
pub open spec fn spec_api_version() -> Seq<char> {
    "2023-01-15-preview"@
}

/// The API version every request names.
pub fn api_version() -> (r: &'static str)
    ensures
        r@ == spec_api_version(),
{
    "2023-01-15-preview"
}

/// A host with any leading `https://` scheme stripped.
pub open spec fn spec_bare_host(host: Seq<char>) -> Seq<char> {
    if spec_starts_with(host, "https://"@) {
        host.skip("https://"@.len() as int)
    } else {
        host
    }
}

/// Strip a leading `https://` from a configured host, leaving the bare
/// authority that URLs and signatures name.
pub fn bare_host(host: &str) -> (r: String)
    ensures
        r@ == spec_bare_host(host@),
{
    proof {
        reveal_strlit("https://");
    }
    if str_starts_with(host, "https://") {
        let n = host.unicode_len();
        host.substring_char(8, n).to_owned()
    } else {
        host.to_owned()
    }
}

/// The path and query of the send endpoint.
pub open spec fn spec_send_path() -> Seq<char> {
    "/emails:send?api-version="@ + spec_api_version()
}

/// The path and query of the send endpoint.
pub fn send_path_and_query() -> (r: String)
    ensures
        r@ == spec_send_path(),
{
    let mut s = String::from_str("/emails:send?api-version=");
    s.append(api_version());
    s
}

/// The path and query of the status endpoint for one message.
pub open spec fn spec_status_path(message_id: Seq<char>) -> Seq<char> {
    "/emails/operations/"@ + message_id + "?api-version="@ + spec_api_version()
}

/// The path and query of the status endpoint for one message.
pub fn status_path_and_query(message_id: &str) -> (r: String)
    ensures
        r@ == spec_status_path(message_id@),
{
    let mut s = String::from_str("/emails/operations/");
    s.append(message_id);
    s.append("?api-version=");
    s.append(api_version());
    proof {
        assert(s@ =~= spec_status_path(message_id@));
    }
    s
}

/// The full URL for a host and a path with query.
pub open spec fn spec_request_url(host: Seq<char>, path_and_query: Seq<char>) -> Seq<char> {
    "https://"@ + spec_bare_host(host) + path_and_query
}

/// The full URL for a host — with or without its scheme — and a path with
/// query.
pub fn request_url(host: &str, path_and_query: &str) -> (r: String)
    ensures
        r@ == spec_request_url(host@, path_and_query@),
{
    let bare = bare_host(host);
    let mut s = String::from_str("https://");
    s.append(bare.as_str());
    s.append(path_and_query);
    proof {
        assert(s@ =~= spec_request_url(host@, path_and_query@));
    }
    s
}

/// `c` is an ASCII decimal digit.
pub open spec fn spec_is_digit(c: char) -> bool {
    48 <= c as int <= 57
}

/// The numeric value of a digit character.
pub open spec fn spec_digit_val(c: char) -> int {
    c as int - 48
}

/// Every character of `s` is a decimal digit.
pub open spec fn spec_all_digits(s: Seq<char>) -> bool {
    forall|j: int| 0 <= j < s.len() ==> spec_is_digit(s[j])
}

/// The number a digit string denotes, most significant digit first.
pub open spec fn spec_digits_value(s: Seq<char>) -> int
    decreases s.len(),
{
    if s.len() == 0 {
        0
    } else {
        spec_digits_value(s.drop_last()) * 10 + spec_digit_val(s.last())
    }
}

/// The digit part of a decimal string: everything after one optional
/// leading plus sign.
pub open spec fn spec_digits_of(s: Seq<char>) -> Seq<char> {
    if s.len() > 0 && s[0] == '+' {
        s.skip(1)
    } else {
        s
    }
}

/// What parsing a decimal string as a `u64` yields: the denoted number when
/// the digit part is non-empty, all digits, and within range; nothing
/// otherwise.
pub open spec fn spec_parse_u64(s: Seq<char>) -> Option<u64> {
    let d = spec_digits_of(s);
    if d.len() == 0 || !spec_all_digits(d) || spec_digits_value(d) > u64::MAX {
        None
    } else {
        Some(spec_digits_value(d) as u64)
    }
}

proof fn lemma_digits_value_nonneg(s: Seq<char>)
    requires
        spec_all_digits(s),
    ensures
        spec_digits_value(s) >= 0,
    decreases s.len(),
{
    if s.len() > 0 {
        assert(spec_all_digits(s.drop_last()));
        lemma_digits_value_nonneg(s.drop_last());
        assert(spec_digits_value(s.drop_last()) * 10 >= 0) by (nonlinear_arith)
            requires
                spec_digits_value(s.drop_last()) >= 0,
        ;
    }
}

proof fn lemma_digits_value_prefix_le(s: Seq<char>, m: int)
    requires
        spec_all_digits(s),
        0 <= m <= s.len(),
    ensures
        spec_digits_value(s.take(m)) <= spec_digits_value(s),
    decreases s.len() - m,
{
    if m < s.len() {
        assert(s.take(m + 1).drop_last() =~= s.take(m));
        assert(s.take(m + 1).last() == s[m]);
        assert(spec_all_digits(s.take(m)));
        lemma_digits_value_nonneg(s.take(m));
        assert(spec_digits_value(s.take(m)) * 10 >= spec_digits_value(s.take(m)))
            by (nonlinear_arith)
            requires
                spec_digits_value(s.take(m)) >= 0,
        ;
        lemma_digits_value_prefix_le(s, m + 1);
    } else {
        assert(s.take(m) =~= s);
    }
}

/// Parse a decimal string — at most one leading plus sign, then digits —
/// into a `u64`, refusing anything else and anything out of range.
pub fn parse_u64(s: &str) -> (r: Option<u64>)
    ensures
        r == spec_parse_u64(s@),
{
    let n = s.unicode_len();
    if n == 0 {
        return None;
    }
    let start: usize = if s.get_char(0) == '+' {
        1
    } else {
        0
    };
    let ghost d = spec_digits_of(s@);
    proof {
        assert(d =~= s@.subrange(start as int, n as int));
    }
    if start == n {
        return None;
    }
    let mut i: usize = start;
    let mut val: u64 = 0;
    while i < n
        invariant
            n == s@.len(),
            start <= i <= n,
            start <= 1,
            d == spec_digits_of(s@),
            d == s@.subrange(start as int, n as int),
            d.len() == n - start,
            spec_all_digits(d.take(i - start)),
            val as int == spec_digits_value(d.take(i - start)),
        decreases n - i,
    {
        let c = s.get_char(i);
        let cu = c as u32;
        proof {
            assert(d[i - start] == s@[i as int]);
        }
        if cu < 48 || cu > 57 {
            proof {
                assert(!spec_is_digit(d[i - start]));
                assert(!spec_all_digits(d)) by {
                    assert(0 <= i - start < d.len() && !spec_is_digit(d[i - start]));
                }
            }
            return None;
        }
        let dv: u64 = ((cu - 48) as u8) as u64;
        proof {
            assert(dv as int == spec_digit_val(d[i - start]));
            assert(d.take(i - start + 1).drop_last() =~= d.take(i - start));
            assert(d.take(i - start + 1).last() == d[i - start]);
        }
        if val > (u64::MAX - dv) / 10 {
            proof {
                assert((val as int) * 10 + (dv as int) > u64::MAX as int) by (nonlinear_arith)
                    requires
                        (val as int) > ((u64::MAX as int) - (dv as int)) / 10,
                        0 <= dv as int <= 9,
                        val as int >= 0,
                ;
                assert(spec_digits_value(d.take(i - start + 1)) == (val as int) * 10 + (
                dv as int));
                if spec_all_digits(d) {
                    lemma_digits_value_prefix_le(d, i - start + 1);
                    assert(spec_digits_value(d) > u64::MAX);
                }
            }
            return None;
        }
        proof {
            assert((val as int) * 10 + (dv as int) <= u64::MAX as int) by (nonlinear_arith)
                requires
                    (val as int) <= ((u64::MAX as int) - (dv as int)) / 10,
                    0 <= dv as int <= 9,
                    val as int >= 0,
            ;
        }
        val = val * 10 + dv;
        i += 1;
    }
    proof {
        assert(d.take(n - start) =~= d);
    }
    Some(val)
}

/// What the send loop does next after one response.
#[derive(Clone, Copy, Debug, PartialEq, Eq, Structural)]
pub enum RetryDecision {
    /// The send was accepted: read the message id from the body.
    Accept,
    /// Give up and surface the response's error body.
    Fail,
    /// Throttled: wait this many seconds, then send again.
    RetryAfter(u64),
}

/// The exponential backoff wait: two to the power of the retry about to be
/// made, in seconds.
pub open spec fn spec_backoff_secs(retries_done: u32) -> u64
    recommends
        retries_done <= 62,
{
    1u64 << ((retries_done + 1) as u64)
}

/// What the send loop does after a response with the given status code,
/// `Retry-After` header, and number of retries already made: an accepted
/// send is done; a throttled one is retried until the bound, waiting the
/// header's seconds or else backing off exponentially, and a malformed
/// header gives up at once; everything else gives up at once.
pub open spec fn spec_retry_decision(
    status: u16,
    retry_after: Option<Seq<char>>,
    retries_done: u32,
    max_retries: u32,
) -> RetryDecision {
    if status == 202 {
        RetryDecision::Accept
    } else if status == 429 || status == 503 {
        if retries_done >= max_retries {
            RetryDecision::Fail
        } else {
            match retry_after {
                Some(v) => match spec_parse_u64(v) {
                    Some(secs) => RetryDecision::RetryAfter(secs),
                    None => RetryDecision::Fail,
                },
                None => RetryDecision::RetryAfter(spec_backoff_secs(retries_done)),
            }
        }
    } else {
        RetryDecision::Fail
    }
}

/// The view of an optional header value.
pub open spec fn spec_opt_str_view(s: Option<&str>) -> Option<Seq<char>> {
    match s {
        Some(v) => Some(v@),
        None => None,
    }
}

/// Decide what the send loop does next.
///
/// `status` is the response's HTTP status code, `retry_after` its
/// `Retry-After` header if one came, and `retries_done` how many retries
/// have already been made against the bound `max_retries`.
pub fn retry_decision(
    status: u16,
    retry_after: Option<&str>,
    retries_done: u32,
    max_retries: u32,
) -> (r: RetryDecision)
    requires
        retries_done <= 62,
    ensures
        r == spec_retry_decision(status, spec_opt_str_view(retry_after), retries_done, max_retries),
{
    if status == 202 {
        RetryDecision::Accept
    } else if status == 429 || status == 503 {
        if retries_done >= max_retries {
            RetryDecision::Fail
        } else {
            match retry_after {
                Some(v) => match parse_u64(v) {
                    Some(secs) => RetryDecision::RetryAfter(secs),
                    None => RetryDecision::Fail,
                },
                None => RetryDecision::RetryAfter(1u64 << ((retries_done + 1) as u64)),
            }
        }
    } else {
        RetryDecision::Fail
    }
}

/// The first three backoff waits are 2, 4, and 8 seconds.
pub proof fn lemma_backoff_sequence()
    ensures
        spec_backoff_secs(0) == 2,
        spec_backoff_secs(1) == 4,
        spec_backoff_secs(2) == 8,
{
    assert(1u64 << 1u64 == 2) by (bit_vector);
    assert(1u64 << 2u64 == 4) by (bit_vector);
    assert(1u64 << 3u64 == 8) by (bit_vector);
}

/// Whether a status query's response code is the success code.
pub fn is_status_success(status: u16) -> (r: bool)
    ensures
        r == (status == 200),
{
    status == 200
}

/// The message id of an accepted send: the body's `id`, or the
/// missing-field error when the body carries none.
pub fn id_from_response(response: SentEmailResponse) -> (r: Result<String, ErrorResponse>)
    ensures
        r is Ok <==> response.id is Some,
        r matches Ok(id) ==> Some(id@) == response.id.deep_view(),
        r matches Err(e) ==> e@ == spec_message_only_error(spec_missing_id_message()),
{
    match response.id {
        Some(id) => Ok(id),
        None => Err(create_missing_id_error()),
    }
}

/// The send status a status query's success body reports: the body's
/// `status`, or the missing-field error when the body carries none.
pub fn status_from_response(response: SentEmailResponse) -> (r: Result<
    EmailSendStatusType,
    ErrorResponse,
>)
    ensures
        r is Ok <==> response.status is Some,
        r matches Ok(s) ==> response.status == Some(EmailSendStatus(s)),
        r matches Err(e) ==> e@ == spec_message_only_error(spec_missing_status_message()),
{
    match response.status {
        Some(st) => Ok(st.to_type()),
        None => Err(create_missing_status_error()),
    }
}

/// What one polling round reports and whether the poller stops.
#[derive(Debug)]
pub struct PollUpdate {
    /// The status handed to the caller's callback.
    pub status: EmailSendStatusType,
    /// The error detail handed along with it, if the query failed.
    pub error: Option<crate::errors::ErrorDetail>,
    /// Whether the poller is finished after this round.
    pub done: bool,
}

/// Turn one status-query outcome into what the poller reports and does: a
/// reported status is passed through and ends the loop exactly when it is
/// terminal; a failed query reports `Failed` with the underlying error
/// attached and always ends the loop.
pub fn poll_step(query_result: Result<EmailSendStatusType, ErrorResponse>) -> (r: PollUpdate)
    ensures
        match query_result {
            Ok(s) => {
                &&& r.status == s
                &&& r.error is None
                &&& r.done == spec_is_terminal(s)
            },
            Err(e) => {
                &&& r.status is Failed
                &&& r.error == e.error
                &&& r.done
            },
        },
{
    match query_result {
        Ok(s) => PollUpdate { status: s, error: None, done: s.is_terminal() },
        Err(e) => PollUpdate { status: EmailSendStatusType::Failed, error: e.error, done: true },
    }
}

} // verus!
