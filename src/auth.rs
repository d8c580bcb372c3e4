//! Authentication of proxy clients: the order in which authenticators are
//! asked, and the decisions of the delegating authenticator.

use vstd::prelude::*;
use vstd::utf8::decode_utf8;

use crate::credentials::{Credentials, Error, proxy_authorization_value, tokens, is_credential_pair};
use crate::request::Request;
use crate::response::StatusCode;
use crate::text::{join, same_text, trim_end_slashes, trim_slashes};
use crate::uri::Uri;

verus! {

/// How authentication of one request ended.
#[derive(Clone, Debug, PartialEq, Eq)]
pub enum AuthOutcome {
    /// No authenticator is configured: every request passes, without
    /// credentials.
    Open,
    /// The request carries no `Proxy-Authorization` header.
    NoCredentials,
    /// An authenticator accepted these credentials.
    Authorized(Credentials),
    /// The header is malformed, or every authenticator refused; the error
    /// is the first one met.
    Rejected(Error),
}

/// Whether a request with this outcome goes on to the handlers.
pub open spec fn admitted(o: AuthOutcome) -> bool {
    o is Open || o is Authorized
}

impl AuthOutcome {
    pub fn admits(&self) -> (r: bool)
        ensures
            r == admitted(*self),
    {
        match self {
            AuthOutcome::Open => true,
            AuthOutcome::Authorized(_) => true,
            _ => false,
        }
    }
}

/// Where authentication of one request stands.
#[derive(Clone, Debug)]
pub enum AuthStep {
    Done(AuthOutcome),
    /// Authenticator `index` is to be asked about `credentials`;
    /// `first_error` is the refusal of the first one asked, if any was.
    Ask { index: usize, credentials: Credentials, first_error: Option<Error> },
}

/// Starts authenticating `request` against `count` authenticators.
pub fn begin(count: usize, request: &Request) -> (r: AuthStep)
    ensures
        count == 0 ==> r == AuthStep::Done(AuthOutcome::Open),
        count > 0 ==> match proxy_authorization_value(*request) {
            None => r == AuthStep::Done(AuthOutcome::NoCredentials),
            Some(v) => if is_credential_pair(tokens(v)) {
                &&& r matches AuthStep::Ask { index, credentials, first_error }
                &&& index == 0 && first_error is None
                &&& credentials.scheme_view() == decode_utf8(tokens(v)[0])
                &&& credentials.credentials_view() == decode_utf8(tokens(v)[1])
            } else {
                r == AuthStep::Done(AuthOutcome::Rejected(Error::InvalidFormat { n: tokens(v).len() as usize }))
            },
        },
{
    if count == 0 {
        return AuthStep::Done(AuthOutcome::Open);
    }
    match Credentials::get_from_request(request) {
        Ok(credentials) => AuthStep::Ask { index: 0, credentials, first_error: None },
        Err(Error::MissingHeader) => AuthStep::Done(AuthOutcome::NoCredentials),
        Err(e) => AuthStep::Done(AuthOutcome::Rejected(e)),
    }
}

/// Takes the answer of authenticator `index` about `credentials`: the
/// first success wins, and once all `count` have refused, the first refusal
/// is the answer.
pub fn advance(
    count: usize,
    index: usize,
    credentials: Credentials,
    first_error: Option<Error>,
    answer: Result<(), Error>,
) -> (r: AuthStep)
    requires
        index < count,
    ensures
        match answer {
            Ok(()) => r == AuthStep::Done(AuthOutcome::Authorized(credentials)),
            Err(e) => {
                let first = match first_error {
                    Some(f) => f,
                    None => e,
                };
                if index + 1 < count {
                    r == AuthStep::Ask { index: (index + 1) as usize, credentials, first_error: Some(first) }
                } else {
                    r == AuthStep::Done(AuthOutcome::Rejected(first))
                }
            },
        },
{
    match answer {
        Ok(()) => AuthStep::Done(AuthOutcome::Authorized(credentials)),
        Err(e) => {
            let first = match first_error {
                Some(f) => f,
                None => e,
            };
            if index + 1 < count {
                AuthStep::Ask { index: index + 1, credentials, first_error: Some(first) }
            } else {
                AuthStep::Done(AuthOutcome::Rejected(first))
            }
        },
    }
}

/// The lower-case form `str::to_lowercase` gives.
pub uninterp spec fn lower_of(s: Seq<char>) -> Seq<char>;

/// Relies on `str::to_lowercase`: the result depends on the characters alone.
#[verifier::external_body]
fn lowercase(s: &str) -> (r: String)
    ensures
        r@ == lower_of(s@),
{
    s.to_lowercase()
}

pub open spec fn bearer() -> Seq<char> {
    seq!['b', 'e', 'a', 'r', 'e', 'r']
}

pub open spec fn users_me_path() -> Seq<char> {
    seq!['/', 'a', 'p', 'i', '/', 'u', 's', 'e', 'r', 's', '/', 'm', 'e']
}

/// The identity query to make for accepted-looking credentials.
#[derive(Clone, Debug, PartialEq, Eq)]
pub struct IdentityQuery {
    /// `GET` target: the endpoint's base followed by `/api/users/me`.
    pub url: String,
    /// Sent as `Authorization: Bearer <token>`.
    pub token: String,
}

/// Checks a credential scheme, given its lower-case form `lowered`: only
/// `bearer` is accepted.
pub fn check_scheme(lowered: &str, scheme: &str) -> (r: Result<(), Error>)
    ensures
        lowered@ == bearer() ==> r is Ok,
        lowered@ != bearer() ==> match r {
            Err(Error::InvalidScheme { got, expect }) => got@ == scheme@ && expect@ == bearer(),
            _ => false,
        },
{
    let expected = "bearer";
    proof {
        reveal_strlit("bearer");
        assert(expected@ =~= bearer());
    }
    if same_text(lowered, expected) {
        Ok(())
    } else {
        Err(Error::InvalidScheme { got: scheme.to_string(), expect: expected.to_string() })
    }
}

/// Authenticates by asking an identity endpoint who holds a bearer token.
#[derive(Clone, Debug)]
pub struct Delegator {
    pub uri: Option<Uri>,
}

impl Delegator {
    pub fn new(uri: Option<Uri>) -> (r: Delegator)
        ensures
            r.uri == uri,
    {
        Delegator { uri }
    }

    /// Decides what to ask the identity endpoint, if anything: without an
    /// endpoint the credentials are refused, a scheme other than `bearer`
    /// (in any case) is refused, and otherwise the token is sent to
    /// `<base>/api/users/me`, the base being the endpoint without its
    /// trailing slashes.
    pub fn identity_query(&self, credentials: &Credentials) -> (r: Result<IdentityQuery, Error>)
        ensures
            match self.uri {
                None => r == Err::<IdentityQuery, Error>(Error::NotAuthenticated),
                Some(u) => if lower_of(credentials.scheme_view()) == bearer() {
                    &&& r is Ok
                    &&& r->Ok_0.url@ == trim_slashes(u.text@) + users_me_path()
                    &&& r->Ok_0.token@ == credentials.credentials_view()
                } else {
                    match r {
                        Err(Error::InvalidScheme { got, expect }) => got@ == credentials.scheme_view() && expect@ == bearer(),
                        _ => false,
                    }
                },
            },
    {
        match &self.uri {
            None => Err(Error::NotAuthenticated),
            Some(u) => {
                let lowered = lowercase(credentials.scheme());
                match check_scheme(lowered.as_str(), credentials.scheme()) {
                    Err(e) => Err(e),
                    Ok(()) => {
                        proof {
                            reveal_strlit("/api/users/me");
                        }
                        let base = trim_end_slashes(u.as_str());
                        let url = join(base, "/api/users/me");
                        Ok(IdentityQuery { url, token: credentials.credentials().to_string() })
                    },
                }
            },
        }
    }

    /// Reads the identity endpoint's answer: its status, or `None` where it
    /// could not be reached or read. Only a success status authenticates.
    pub fn conclude(reply: Option<StatusCode>) -> (r: Result<(), Error>)
        ensures
            match reply {
                Some(s) => if 200 <= s.code < 300 {
                    r is Ok
                } else {
                    r == Err::<(), Error>(Error::NotAuthenticated)
                },
                None => r == Err::<(), Error>(Error::NotAuthenticated),
            },
    {
        match reply {
            Some(s) => if s.is_success() {
                Ok(())
            } else {
                Err(Error::NotAuthenticated)
            },
            None => Err(Error::NotAuthenticated),
        }
    }
}

/// The same authenticator under the name the command-line proxy gives it.
pub type ServerAuth = Delegator;

} // verus!
