//! Client configuration and the small decisions around each request: where it goes and
//! which replies count as success.

use crate::types::{Auth, DecodeError, Error, ServerError};
use vstd::prelude::*;
use vstd::string::{StrSliceExecFns, StringExecFns};
use vstd::utf8::{decode_utf8, valid_utf8};

verus! {

/// `reqwest::Client`: the HTTP transport, carried through unread.
#[verifier::external_type_specification]
#[verifier::external_body]
pub struct ExReqwestClient(reqwest::Client);

/// Collects what a client is built from: the transport, the server's base URL and the
/// authentication mode.
pub struct ClientBuilder {
    agent: Option<reqwest::Client>,
    host: Option<String>,
    auth: Option<Auth>,
}

/// A complete client configuration.
pub struct ClientSettings {
    /// The transport to use; `None` asks for a default one.
    pub agent: Option<reqwest::Client>,
    pub host: String,
    pub auth: Auth,
}

impl ClientBuilder {
    pub closed spec fn agent_spec(&self) -> Option<reqwest::Client> {
        self.agent
    }

    pub closed spec fn host_spec(&self) -> Option<String> {
        self.host
    }

    pub closed spec fn auth_spec(&self) -> Option<Auth> {
        self.auth
    }

    pub fn new() -> (b: Self)
        ensures
            b.agent_spec() is None,
            b.host_spec() is None,
            b.auth_spec() is None,
    {
        Self { agent: None, host: None, auth: None }
    }

    pub fn set_agent(self, agent: reqwest::Client) -> (b: Self)
        ensures
            b.agent_spec() == Some(agent),
            b.host_spec() == self.host_spec(),
            b.auth_spec() == self.auth_spec(),
    {
        ClientBuilder { agent: Some(agent), ..self }
    }

    pub fn set_host(self, host: String) -> (b: Self)
        ensures
            b.agent_spec() == self.agent_spec(),
            b.host_spec() == Some(host),
            b.auth_spec() == self.auth_spec(),
    {
        ClientBuilder { host: Some(host), ..self }
    }

    pub fn set_auth(self, auth: Auth) -> (b: Self)
        ensures
            b.agent_spec() == self.agent_spec(),
            b.host_spec() == self.host_spec(),
            b.auth_spec() == Some(auth),
    {
        ClientBuilder { auth: Some(auth), ..self }
    }

    /// Completes the configuration: the host is required, and the authentication mode
    /// defaults to Anonymous.
    pub fn settings(self) -> (r: Result<ClientSettings, Error>)
        ensures
            r is Err <==> self.host_spec() is None,
            r matches Err(e) ==> e.is_field_not_found("host"@),
            r matches Ok(s) ==> {
                &&& self.host_spec() == Some(s.host)
                &&& s.agent == self.agent_spec()
                &&& s.auth == match self.auth_spec() {
                    Some(a) => a,
                    None => Auth::Anonymous,
                }
            },
    {
        let ClientBuilder { agent, host, auth } = self;
        match host {
            None => Err(Error::field_not_found("host")),
            Some(host) => {
                let auth = match auth {
                    Some(a) => a,
                    None => Auth::Anonymous,
                };
                Ok(ClientSettings { agent, host, auth })
            },
        }
    }
}

/// `s` without the `/` characters at its end.
pub open spec fn trim_trailing_slashes(s: Seq<char>) -> Seq<char>
    decreases s.len(),
{
    if s.len() > 0 && s.last() == '/' {
        trim_trailing_slashes(s.drop_last())
    } else {
        s
    }
}

/// `s` without the `/` characters at its start.
pub open spec fn trim_leading_slashes(s: Seq<char>) -> Seq<char>
    decreases s.len(),
{
    if s.len() > 0 && s[0] == '/' {
        trim_leading_slashes(s.drop_first())
    } else {
        s
    }
}

/// `base` and `path` joined by exactly one `/`.
pub open spec fn joined(base: Seq<char>, path: Seq<char>) -> Seq<char> {
    trim_trailing_slashes(base) + seq!['/'] + trim_leading_slashes(path)
}

/// Joins a base (a host URL, or the path part of one) and a path with exactly one `/`
/// between them, whatever slashes either side carried.
pub fn join_path(base: &str, path: &str) -> (r: String)
    ensures
        r@ == joined(base@, path@),
{
    let mut end = base.unicode_len();
    assert(base@.subrange(0, end as int) =~= base@);
    while end > 0 && base.get_char(end - 1) == '/'
        invariant
            end <= base@.len(),
            trim_trailing_slashes(base@.subrange(0, end as int)) == trim_trailing_slashes(base@),
        decreases end,
    {
        assert(base@.subrange(0, end - 1) =~= base@.subrange(0, end as int).drop_last());
        end = end - 1;
    }
    let n = path.unicode_len();
    let mut start: usize = 0;
    assert(path@.subrange(0, n as int) =~= path@);
    while start < n && path.get_char(start) == '/'
        invariant
            start <= n,
            n == path@.len(),
            trim_leading_slashes(path@.subrange(start as int, n as int)) == trim_leading_slashes(
                path@,
            ),
        decreases n - start,
    {
        assert(path@.subrange(start + 1, n as int) =~= path@.subrange(
            start as int,
            n as int,
        ).drop_first());
        start = start + 1;
    }
    let mut r = base.substring_char(0, end).to_owned();
    r.append("/");
    r.append(path.substring_char(start, n));
    proof {
        reveal_strlit("/");
    }
    r
}

/// A status the DAV operations accept: any 2xx.
pub fn is_dav2xx(code: u16) -> (r: bool)
    ensures
        r == (200 <= code <= 299),
{
    code / 100 == 2
}

/// The error for a DAV reply whose status is not 2xx: the server's exception and message
/// where its body parsed as an error document, else a marker and the raw body.
pub fn server_error(response_code: u16, body: String, parsed: Option<(String, String)>) -> (e:
    Error)
    ensures
        e matches Error::Decode(DecodeError::Server(s)) && s.response_code == response_code && match parsed {
            Some((exception, message)) => s.exception == exception && s.message == message,
            None => s.exception@ == "server exception and parse error"@ && s.message == body,
        },
{
    let (exception, message) = match parsed {
        Some((exception, message)) => (exception, message),
        None => ("server exception and parse error".to_owned(), body),
    };
    Error::Decode(DecodeError::Server(ServerError { response_code, exception, message }))
}

/// The status a listing must come back with.
pub const MULTI_STATUS: u16 = 207;

/// Checks the status of a PROPFIND reply: only 207 (Multi-Status) carries a listing.
pub fn check_list_status(code: u16) -> (r: Result<(), Error>)
    ensures
        r is Ok <==> code == 207,
        r matches Err(e) ==> e.is_status_mismatch(code, 207),
{
    if code == MULTI_STATUS {
        Ok(())
    } else {
        Err(Error::status_mismatch(code, MULTI_STATUS))
    }
}

/// `needle` occurs in `haystack` as a run of consecutive characters.
pub open spec fn occurs_in(needle: Seq<char>, haystack: Seq<char>) -> bool {
    exists|i: int|
        0 <= i <= haystack.len() - needle.len() && #[trigger] haystack.subrange(i, i + needle.len())
            == needle
}

/// Tells whether `needle` occurs in `haystack`.
pub fn contains_text(haystack: &str, needle: &str) -> (r: bool)
    ensures
        r == occurs_in(needle@, haystack@),
{
    let h = haystack.unicode_len();
    let n = needle.unicode_len();
    if n > h {
        return false;
    }
    let mut i: usize = 0;
    while i <= h - n
        invariant
            h == haystack@.len(),
            n == needle@.len(),
            n <= h,
            i <= h - n,
            forall|k: int| 0 <= k < i ==> #[trigger] haystack@.subrange(k, k + n) != needle@,
        decreases h - n - i,
    {
        let mut j: usize = 0;
        let mut same = true;
        while same && j < n
            invariant
                h == haystack@.len(),
                n == needle@.len(),
                i + n <= h,
                j <= n,
                same ==> haystack@.subrange(i as int, i + j) == needle@.subrange(0, j as int),
                !same ==> haystack@.subrange(i as int, i + n) != needle@,
            decreases n - j + if same { 1int } else { 0int },
        {
            if haystack.get_char(i + j) != needle.get_char(j) {
                same = false;
                assert(haystack@.subrange(i as int, i + n)[j as int] != needle@[j as int]);
            } else {
                assert(haystack@.subrange(i as int, i + j + 1) =~= haystack@.subrange(i as int, i + j).push(
                    haystack@[i + j],
                ));
                assert(needle@.subrange(0, j + 1) =~= needle@.subrange(0, j as int).push(needle@[j as int]));
                j = j + 1;
            }
        }
        if same {
            assert(needle@.subrange(0, n as int) =~= needle@);
            return true;
        }
        if i == h - n {
            return false;
        }
        i = i + 1;
    }
    false
}

/// The text `s` upper-cased by Unicode's rules, as `str::to_uppercase` computes it.
pub uninterp spec fn uppercase_of(s: Seq<char>) -> Seq<char>;

/// Relies on str::to_uppercase, whose result depends on the text alone.
#[verifier::external_body]
fn uppercase(s: &str) -> (r: String)
    ensures
        r@ == uppercase_of(s@),
{
    s.to_uppercase()
}

/// Relies on std::str::from_utf8: the bytes are accepted exactly when they are valid UTF-8,
/// and then read as the characters they encode.
#[verifier::external_body]
fn utf8_text(bytes: &[u8]) -> (r: Option<&str>)
    ensures
        r is Some <==> valid_utf8(bytes@),
        r matches Some(s) ==> s@ == decode_utf8(bytes@),
{
    std::str::from_utf8(bytes).ok()
}

/// Tells whether upper-cased text holds a PEM armour line, `-----BEGIN`.
pub fn has_pem_armour(upper: &str) -> (r: bool)
    ensures
        r == occurs_in("-----BEGIN"@, upper@),
{
    contains_text(upper, "-----BEGIN")
}

/// Tells whether the first bytes of a certificate file announce PEM rather than DER: they
/// are UTF-8 and, upper-cased, hold `-----BEGIN`.
pub fn is_pem_header(bytes: &[u8]) -> (r: bool)
    ensures
        r == (valid_utf8(bytes@) && occurs_in("-----BEGIN"@, uppercase_of(decode_utf8(bytes@)))),
{
    match utf8_text(bytes) {
        Some(text) => {
            let upper = uppercase(text);
            has_pem_armour(upper.as_str())
        },
        None => false,
    }
}

} // verus!
