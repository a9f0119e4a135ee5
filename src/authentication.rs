//! The authentication lifecycle: which decoration a request gets, and the digest session
//! that is established by a probe and then answers every later challenge.

use crate::types::{Auth, DecodeError, Error, ReqwestDecodeError};
use digest_auth::Error as DigestAuthError;
use digest_auth::{AuthContext, HttpMethod, WwwAuthenticateHeader};
use vstd::prelude::*;
use vstd::utf8::is_ascii_chars;

verus! {

/// `digest_auth::WwwAuthenticateHeader`: a parsed digest challenge, carried through unread.
#[verifier::external_type_specification]
#[verifier::external_body]
pub struct ExWwwAuthenticateHeader(WwwAuthenticateHeader);

/// Whether the digest crate accepts `header` as a `WWW-Authenticate` challenge.
pub uninterp spec fn challenge_accepted(header: Seq<char>) -> bool;

/// Relies on digest_auth::parse: it reads a `WWW-Authenticate` value into a challenge or
/// rejects it, by the text alone. It slices the text by character positions, which are
/// byte positions only for ASCII text, hence the requirement.
#[verifier::external_body]
fn parse_challenge(header: &str) -> (r: Result<WwwAuthenticateHeader, DigestAuthError>)
    requires
        is_ascii_chars(header@),
    ensures
        r is Ok <==> challenge_accepted(header@),
{
    digest_auth::parse(header)
}

/// A computed `Authorization` value and the nonce-count it carries.
#[derive(Debug)]
pub struct DigestResponse {
    pub header: String,
    pub nc: u32,
}

/// Relies on WwwAuthenticateHeader::respond, which raises the challenge's counter by one
/// and puts the raised value in the response (it fails, before counting, only on a qop
/// list without `auth` or `auth-int`), and on AuthorizationHeader::to_header_string, whose
/// text starts with `Digest `. The counter is first set to the session's own count `nc`, so
/// the count the session keeps is the one the header carries.
#[verifier::external_body]
fn respond_to_challenge(
    challenge: &mut WwwAuthenticateHeader,
    nc: u32,
    username: &str,
    password: &str,
    uri: &str,
    method: &str,
) -> (r: Result<DigestResponse, DigestAuthError>)
    requires
        nc < u32::MAX,
    ensures
        r matches Ok(resp) ==> resp.nc == nc + 1 && "Digest "@.is_prefix_of(resp.header@),
{
    challenge.nc = nc;
    let mut context = AuthContext::new(username, password, uri);
    context.method = HttpMethod::from(method);
    match challenge.respond(&context) {
        Ok(answer) => Ok(DigestResponse { header: answer.to_header_string(), nc: answer.nc }),
        Err(e) => Err(e),
    }
}

/// The digest state a client shares between its requests. It is uninitialized until a
/// challenge is stored; from then on it answers that challenge, counting its responses.
#[derive(Debug)]
pub struct DigestSession {
    challenge: Option<WwwAuthenticateHeader>,
    nc: u32,
}

impl View for DigestSession {
    /// `None` while uninitialized; `Some(n)` once established, after `n` responses.
    type V = Option<nat>;

    closed spec fn view(&self) -> Option<nat> {
        match self.challenge {
            Some(_) => Some(self.nc as nat),
            None => None,
        }
    }
}

/// The session state after one more response has been computed.
pub open spec fn after_response(s: Option<nat>) -> Option<nat> {
    match s {
        Some(n) => Some(n + 1),
        None => None,
    }
}

/// The session state after `k` more responses.
pub open spec fn after_responses(s: Option<nat>, k: nat) -> Option<nat>
    decreases k,
{
    if k == 0 {
        s
    } else {
        after_response(after_responses(s, (k - 1) as nat))
    }
}

impl DigestSession {
    pub fn new() -> (s: DigestSession)
        ensures
            s@ is None,
    {
        DigestSession { challenge: None, nc: 0 }
    }

    pub fn is_established(&self) -> (r: bool)
        ensures
            r == self@ is Some,
    {
        self.challenge.is_some()
    }

    /// How many responses the established session has computed; 0 while uninitialized.
    pub fn nonce_count(&self) -> (r: u32)
        ensures
            self@ matches Some(n) ==> r == n,
            self@ is None ==> r == 0,
    {
        if self.challenge.is_some() {
            self.nc
        } else {
            0
        }
    }

    /// The stored challenge, if the session is established.
    pub fn challenge(&self) -> (r: Option<&WwwAuthenticateHeader>)
        ensures
            r is Some <==> self@ is Some,
    {
        match &self.challenge {
            Some(c) => Some(c),
            None => None,
        }
    }

    /// Stores the challenge that `header` holds, replacing any earlier one and starting its
    /// nonce-count afresh. A header the digest crate rejects leaves the session as it was.
    pub fn update_auth_context(&mut self, header: &str) -> (r: Result<(), Error>)
        requires
            is_ascii_chars(header@),
        ensures
            r is Ok <==> challenge_accepted(header@),
            r is Ok ==> final(self)@ == Some(0nat),
            r matches Err(e) ==> final(self)@ == old(self)@ && e matches Error::Decode(
                DecodeError::DigestAuth(_),
            ),
    {
        match parse_challenge(header) {
            Ok(challenge) => {
                self.challenge = Some(challenge);
                self.nc = 0;
                Ok(())
            },
            Err(e) => Err(Error::Decode(DecodeError::DigestAuth(e))),
        }
    }

    /// Takes in the answer to a probe: the only accepted outcome is status 401 with a
    /// `WWW-Authenticate` header, which establishes the session. Any other status, a missing
    /// or unreadable header, or a rejected challenge fails and leaves the session as it was.
    pub fn accept_probe_response(
        &mut self,
        status: u16,
        www_authenticate: Option<Result<String, http::header::ToStrError>>,
    ) -> (r: Result<(), Error>)
        requires
            www_authenticate matches Some(Ok(s)) ==> is_ascii_chars(s@),
        ensures
            status != 401 ==> (r matches Err(e) && e.is_status_mismatch(status, 401)),
            status == 401 ==> match www_authenticate {
                None => r matches Err(Error::Decode(DecodeError::NoAuthHeaderInResponse)),
                Some(Err(e)) => r matches Err(
                    Error::ReqwestDecode(ReqwestDecodeError::HeaderToString(e2)),
                ) && e2 == e,
                Some(Ok(s)) => {
                    &&& r is Ok <==> challenge_accepted(s@)
                    &&& (r matches Err(e) ==> e matches Error::Decode(DecodeError::DigestAuth(_)))
                },
            },
            r is Ok ==> final(self)@ == Some(0nat),
            r is Err ==> final(self)@ == old(self)@,
    {
        if status != 401 {
            return Err(Error::status_mismatch(status, 401));
        }
        match www_authenticate {
            None => Err(Error::Decode(DecodeError::NoAuthHeaderInResponse)),
            Some(Err(e)) => Err(Error::ReqwestDecode(ReqwestDecodeError::HeaderToString(e))),
            Some(Ok(header)) => self.update_auth_context(header.as_str()),
        }
    }

    /// Computes the `Authorization` value for one request from the stored challenge. Each
    /// computed response raises the nonce-count by one, whatever later becomes of the request.
    pub fn respond(&mut self, username: &str, password: &str, path: &str, method: &str) -> (r:
        Result<DigestResponse, Error>)
        requires
            old(self)@ matches Some(n) ==> n < u32::MAX,
        ensures
            old(self)@ is None ==> r matches Err(Error::MissingAuthContext),
            old(self)@ matches Some(n) ==> (r matches Ok(resp) ==> resp.nc == n + 1
                && "Digest "@.is_prefix_of(resp.header@)),
            r is Ok ==> final(self)@ == after_response(old(self)@),
            r matches Err(e) ==> final(self)@ == old(self)@,
            old(self)@ is Some ==> (r matches Err(e) ==> e matches Error::Decode(
                DecodeError::DigestAuth(_),
            )),
    {
        let nc = self.nc;
        match &mut self.challenge {
            None => Err(Error::MissingAuthContext),
            Some(challenge) => match respond_to_challenge(challenge, nc, username, password, path, method) {
                Ok(resp) => {
                    self.nc = resp.nc;
                    Ok(resp)
                },
                Err(e) => Err(Error::Decode(DecodeError::DigestAuth(e))),
            },
        }
    }
}

/// The decoration a request gets.
pub enum AuthStep {
    /// None: the request goes out as it is.
    Anonymous,
    /// HTTP Basic credentials, attached without any round trip.
    Basic(String, String),
    /// A digest header computed from these credentials, after a probe for a challenge
    /// when `probe_first` holds.
    Digest { username: String, password: String, probe_first: bool },
}

/// Chooses how a request is authenticated: Anonymous gets nothing, Basic its credentials,
/// and Digest a computed header, probing first only while the session is uninitialized.
pub fn authentication_step(auth: &Auth, established: bool) -> (r: AuthStep)
    ensures
        auth is Anonymous ==> r is Anonymous,
        auth matches Auth::Basic(u, p) ==> r matches AuthStep::Basic(u2, p2) && u2 == u && p2 == p,
        auth matches Auth::Digest(u, p) ==> r matches AuthStep::Digest {
            username,
            password,
            probe_first,
        } && username == u && password == p && probe_first == !established,
{
    match auth {
        Auth::Anonymous => AuthStep::Anonymous,
        Auth::Basic(username, password) => AuthStep::Basic(username.clone(), password.clone()),
        Auth::Digest(username, password) => AuthStep::Digest {
            username: username.clone(),
            password: password.clone(),
            probe_first: !established,
        },
    }
}

/// Counting from an established session, the Nth computed header carries nonce-count N.
pub proof fn lemma_nonce_count_sequence(k: nat)
    ensures
        after_responses(Some(0nat), k) == Some(k),
    decreases k,
{
    if k > 0 {
        lemma_nonce_count_sequence((k - 1) as nat);
    }
}

/// An established session stays established through any number of computed headers, so
/// the dispatcher never probes for it again.
pub proof fn lemma_established_never_reprobes(s: Option<nat>, k: nat)
    requires
        s is Some,
    ensures
        after_responses(s, k) is Some,
    decreases k,
{
    if k > 0 {
        lemma_established_never_reprobes(s, (k - 1) as nat);
    }
}

} // verus!
