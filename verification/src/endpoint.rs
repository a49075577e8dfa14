//! Parsing of connection strings of the form
//! `endpoint=<url>;accesskey=<base64 key>` into a host and an access key.

use vstd::prelude::*;
use vstd::string::StrSliceExecFns;

use crate::models::EndPointParams;
use crate::strutil::{
    find_unique_char, spec_has_unique, spec_only_index_of, spec_starts_with, str_starts_with,
};

verus! {

/// The host component that url::Url::parse extracts from a string: the
/// normalized host when the string parses as a URL with one, nothing
/// otherwise.
pub uninterp spec fn url_host_of(s: Seq<char>) -> Option<Seq<char>>;

/// Relies on url::Url::parse and url::Url::host_str: both depend on the
/// input string alone, and a host comes back exactly when the string parses
/// as a URL that has a host component.
#[verifier::external_body]
fn url_host(s: &str) -> (r: Option<String>)
    ensures
        r is Some <==> url_host_of(s@) is Some,
        r matches Some(h) ==> url_host_of(s@) == Some(h@),
{
    match url::Url::parse(s) {
        Ok(u) => match u.host_str() {
            Some(h) => Some(h.to_string()),
            None => None,
        },
        Err(_) => None,
    }
}

/// Why a connection string was rejected.
#[derive(Clone, Copy, Debug, PartialEq, Eq, Structural)]
pub enum ParseEndpointError {
    /// The string does not consist of exactly two `;`-separated fields.
    MalformedConnectionString,
    /// No field carries the `endpoint=` prefix, or its URL has no host.
    InvalidEndpoint,
    /// No field carries the `accesskey=` prefix.
    InvalidAccessKey,
}

/// The URL text of the `endpoint=` field, taken from whichever of the two
/// fields carries the prefix.
pub open spec fn spec_endpoint_field(f1: Seq<char>, f2: Seq<char>) -> Option<Seq<char>> {
    if spec_starts_with(f1, "endpoint="@) {
        Some(f1.skip("endpoint="@.len() as int))
    } else if spec_starts_with(f2, "endpoint="@) {
        Some(f2.skip("endpoint="@.len() as int))
    } else {
        None
    }
}

/// The key text of the `accesskey=` field, taken from whichever of the two
/// fields carries the prefix.
pub open spec fn spec_accesskey_field(f1: Seq<char>, f2: Seq<char>) -> Option<Seq<char>> {
    if spec_starts_with(f1, "accesskey="@) {
        Some(f1.skip("accesskey="@.len() as int))
    } else if spec_starts_with(f2, "accesskey="@) {
        Some(f2.skip("accesskey="@.len() as int))
    } else {
        None
    }
}

/// What parsing a connection string yields: the host named by the
/// `endpoint=` field's URL and the text of the `accesskey=` field, or the
/// error that rules the string out.  The two fields may come in either
/// order.
pub open spec fn spec_parse_endpoint(s: Seq<char>) -> Result<
    (Seq<char>, Seq<char>),
    ParseEndpointError,
> {
    if !spec_has_unique(s, ';') {
        Err(ParseEndpointError::MalformedConnectionString)
    } else {
        let i = choose|i: int| spec_only_index_of(s, ';', i);
        let f1 = s.subrange(0, i);
        let f2 = s.subrange(i + 1, s.len() as int);
        match spec_endpoint_field(f1, f2) {
            None => Err(ParseEndpointError::InvalidEndpoint),
            Some(u) => match url_host_of(u) {
                None => Err(ParseEndpointError::InvalidEndpoint),
                Some(h) => match spec_accesskey_field(f1, f2) {
                    None => Err(ParseEndpointError::InvalidAccessKey),
                    Some(k) => Ok((h, k)),
                },
            },
        }
    }
}

/// Parse a connection string into its endpoint host and access key.
///
/// The string must hold exactly two `;`-separated fields, one prefixed
/// `endpoint=` with a URL that has a host, one prefixed `accesskey=`; the
/// errors say which part was missing or unusable.
pub fn parse_endpoint(endpoint: &str) -> (r: Result<EndPointParams, ParseEndpointError>)
    ensures
        match r {
            Ok(p) => spec_parse_endpoint(endpoint@) == Ok::<_, ParseEndpointError>(
                (p.host_name@, p.access_key@),
            ),
            Err(e) => spec_parse_endpoint(endpoint@) == Err::<(Seq<char>, Seq<char>), _>(e),
        },
{
    let idx = match find_unique_char(endpoint, ';') {
        Some(i) => i,
        None => {
            return Err(ParseEndpointError::MalformedConnectionString);
        },
    };
    proof {
        let m = choose|m: int| spec_only_index_of(endpoint@, ';', m);
        if m != idx as int {
            assert(endpoint@[idx as int] != ';');
        }
    }
    let n = endpoint.unicode_len();
    let f1 = endpoint.substring_char(0, idx);
    let f2 = endpoint.substring_char(idx + 1, n);

    let f1_len = f1.unicode_len();
    let f2_len = f2.unicode_len();
    proof {
        reveal_strlit("endpoint=");
        reveal_strlit("accesskey=");
    }
    let url_text: &str = if str_starts_with(f1, "endpoint=") {
        f1.substring_char(9, f1_len)
    } else if str_starts_with(f2, "endpoint=") {
        f2.substring_char(9, f2_len)
    } else {
        return Err(ParseEndpointError::InvalidEndpoint);
    };
    proof {
        assert(Some(url_text@) == spec_endpoint_field(f1@, f2@));
    }
    let host_name = match url_host(url_text) {
        Some(h) => h,
        None => {
            return Err(ParseEndpointError::InvalidEndpoint);
        },
    };
    let key_text: &str = if str_starts_with(f1, "accesskey=") {
        f1.substring_char(10, f1_len)
    } else if str_starts_with(f2, "accesskey=") {
        f2.substring_char(10, f2_len)
    } else {
        return Err(ParseEndpointError::InvalidAccessKey);
    };
    proof {
        assert(Some(key_text@) == spec_accesskey_field(f1@, f2@));
    }
    Ok(EndPointParams { host_name, access_key: key_text.to_owned() })
}

/// The field prefixes and separator, spelled out: neither prefix contains a
/// semicolon, and the separator is one.
proof fn lemma_prefixes_semicolon_free()
    ensures
        "endpoint="@.len() == 9,
        "accesskey="@.len() == 10,
        ";"@.len() == 1,
        ";"@[0] == ';',
        forall|j: int| 0 <= j < 9 ==> #[trigger] "endpoint="@[j] != ';',
        forall|j: int| 0 <= j < 10 ==> #[trigger] "accesskey="@[j] != ';',
{
    reveal_strlit("endpoint=");
    reveal_strlit("accesskey=");
    reveal_strlit(";");
    assert forall|j: int| 0 <= j < 9 implies #[trigger] "endpoint="@[j] != ';' by {
        if j == 0 {
            assert("endpoint="@[j] == 'e');
        } else if j == 1 {
            assert("endpoint="@[j] == 'n');
        } else if j == 2 {
            assert("endpoint="@[j] == 'd');
        } else if j == 3 {
            assert("endpoint="@[j] == 'p');
        } else if j == 4 {
            assert("endpoint="@[j] == 'o');
        } else if j == 5 {
            assert("endpoint="@[j] == 'i');
        } else if j == 6 {
            assert("endpoint="@[j] == 'n');
        } else if j == 7 {
            assert("endpoint="@[j] == 't');
        } else {
            assert("endpoint="@[j] == '=');
        }
    }
    assert forall|j: int| 0 <= j < 10 implies #[trigger] "accesskey="@[j] != ';' by {
        if j == 0 {
            assert("accesskey="@[j] == 'a');
        } else if j == 1 {
            assert("accesskey="@[j] == 'c');
        } else if j == 2 {
            assert("accesskey="@[j] == 'c');
        } else if j == 3 {
            assert("accesskey="@[j] == 'e');
        } else if j == 4 {
            assert("accesskey="@[j] == 's');
        } else if j == 5 {
            assert("accesskey="@[j] == 's');
        } else if j == 6 {
            assert("accesskey="@[j] == 'k');
        } else if j == 7 {
            assert("accesskey="@[j] == 'e');
        } else if j == 8 {
            assert("accesskey="@[j] == 'y');
        } else {
            assert("accesskey="@[j] == '=');
        }
    }
}

/// Round trip: a connection string assembled from a URL and a key — neither
/// containing a semicolon — parses back to exactly that URL's host and that
/// key, provided the URL has a host at all.
pub proof fn lemma_parse_endpoint_round_trip(u: Seq<char>, k: Seq<char>)
    requires
        forall|j: int| 0 <= j < u.len() ==> u[j] != ';',
        forall|j: int| 0 <= j < k.len() ==> k[j] != ';',
        url_host_of(u) is Some,
    ensures
        spec_parse_endpoint("endpoint="@ + u + ";"@ + "accesskey="@ + k) == Ok::<
            _,
            ParseEndpointError,
        >((url_host_of(u)->Some_0, k)),
{
    lemma_prefixes_semicolon_free();
    let s = "endpoint="@ + u + ";"@ + "accesskey="@ + k;
    let p = 9 + u.len() as int;
    assert(s.len() == 20 + u.len() + k.len());
    assert(s[p] == ';');
    assert forall|j: int| 0 <= j < s.len() && j != p implies s[j] != ';' by {
        if j < 9 {
            assert(s[j] == "endpoint="@[j]);
        } else if j < p {
            assert(s[j] == u[j - 9]);
        } else if j < p + 11 {
            assert(s[j] == "accesskey="@[j - p - 1]);
        } else {
            assert(s[j] == k[j - p - 11]);
        }
    }
    assert(spec_only_index_of(s, ';', p));
    let i = choose|i: int| spec_only_index_of(s, ';', i);
    if i != p {
        assert(s[p] != ';');
    }
    let f1 = s.subrange(0, p);
    let f2 = s.subrange(p + 1, s.len() as int);
    assert(f1 =~= "endpoint="@ + u);
    assert(f2 =~= "accesskey="@ + k);
    assert(spec_starts_with(f1, "endpoint="@)) by {
        assert(f1.subrange(0, 9) =~= "endpoint="@);
    }
    assert(f1.skip(9) =~= u);
    assert(spec_endpoint_field(f1, f2) == Some(u));
    assert(!spec_starts_with(f1, "accesskey="@)) by {
        if spec_starts_with(f1, "accesskey="@) {
            reveal_strlit("endpoint=");
            reveal_strlit("accesskey=");
            assert(f1.subrange(0, 10)[0] == f1[0]);
            assert(f1[0] == "endpoint="@[0]);
            assert("endpoint="@[0] == 'e' && "accesskey="@[0] == 'a');
        }
    }
    assert(spec_starts_with(f2, "accesskey="@)) by {
        assert(f2.subrange(0, 10) =~= "accesskey="@);
    }
    assert(f2.skip(10) =~= k);
    assert(spec_accesskey_field(f1, f2) == Some(k));
}

} // verus!
