//! Proxy credentials, read from the `Proxy-Authorization` header.

use vstd::prelude::*;
use vstd::utf8::{decode_utf8, valid_utf8};

use crate::headers::{first_value, header_get, header_table, PROXY_AUTHORIZATION};
use crate::request::Request;

verus! {

/// Why a client could not be authenticated.
#[derive(Clone, Debug, PartialEq, Eq)]
pub enum Error {
    /// The request carries no `Proxy-Authorization` header.
    MissingHeader,
    /// The header value does not read as a scheme and a credential; `n` is
    /// the number of whitespace-separated tokens it holds.
    InvalidFormat { n: usize },
    /// An authenticator expected another scheme.
    InvalidScheme { got: String, expect: String },
    /// An authenticator refused the credentials.
    NotAuthenticated,
    Unknown,
}

/// A credential scheme and the credential data that follows it.
#[derive(Clone, Debug, PartialEq, Eq)]
pub struct Credentials {
    scheme: String,
    credentials: String,
}

/// The bytes that separate tokens: the ASCII whitespace that
/// `char::is_whitespace` accepts. Header values are bytes, and HTTP field
/// syntax separates with ASCII whitespace only; non-ASCII whitespace such as
/// U+00A0 is part of a token, by intent.
pub open spec fn is_space(b: u8) -> bool {
    b == 32 || (9 <= b && b <= 13)
}

/// Scanning `s` from the left: the tokens completed so far and the token
/// being read.
pub open spec fn scan(s: Seq<u8>) -> (Seq<Seq<u8>>, Seq<u8>)
    decreases s.len(),
{
    if s.len() == 0 {
        (seq![], seq![])
    } else {
        let prev = scan(s.drop_last());
        if is_space(s.last()) {
            if prev.1.len() > 0 {
                (prev.0.push(prev.1), seq![])
            } else {
                (prev.0, seq![])
            }
        } else {
            (prev.0, prev.1.push(s.last()))
        }
    }
}

/// The maximal runs of non-whitespace bytes of `s`, in order.
pub open spec fn tokens(s: Seq<u8>) -> Seq<Seq<u8>> {
    let st = scan(s);
    if st.1.len() > 0 {
        st.0.push(st.1)
    } else {
        st.0
    }
}

/// A character that separates tokens: the ASCII whitespace of `is_space`.
pub open spec fn is_space_char(c: char) -> bool {
    c == ' ' || ('\t' <= c && c <= '\r')
}

/// Text that reads as exactly one token: non-empty, with no whitespace.
pub open spec fn is_single_token(s: Seq<char>) -> bool {
    s.len() > 0 && forall|i: int| 0 <= i < s.len() ==> !is_space_char(#[trigger] s[i])
}

/// Two tokens, each of them UTF-8 text.
pub open spec fn is_credential_pair(t: Seq<Seq<u8>>) -> bool {
    t.len() == 2 && valid_utf8(t[0]) && valid_utf8(t[1])
}

pub open spec fn proxy_authorization_name() -> Seq<char> {
    seq!['p', 'r', 'o', 'x', 'y', '-', 'a', 'u', 't', 'h', 'o', 'r', 'i', 'z', 'a', 't', 'i', 'o', 'n']
}

/// The first `Proxy-Authorization` value of a request, if it has one.
pub open spec fn proxy_authorization_value(req: Request) -> Option<Seq<u8>> {
    first_value(header_table(req.headers), proxy_authorization_name())
}

/// Relies on `String::from_utf8`: it accepts exactly the valid UTF-8 byte
/// strings, and decodes them.
#[verifier::external_body]
fn utf8_string(bytes: Vec<u8>) -> (r: Option<String>)
    ensures
        match r {
            Some(s) => valid_utf8(bytes@) && s@ == decode_utf8(bytes@),
            None => !valid_utf8(bytes@),
        },
{
    String::from_utf8(bytes).ok()
}

/// Splits `v` into its whitespace-separated tokens.
pub fn split_tokens(v: &Vec<u8>) -> (r: Vec<Vec<u8>>)
    ensures
        r@.len() == tokens(v@).len(),
        forall|i: int| 0 <= i < r@.len() ==> (#[trigger] r@[i])@ == tokens(v@)[i],
{
    let mut done: Vec<Vec<u8>> = Vec::new();
    let mut cur: Vec<u8> = Vec::new();
    let mut i: usize = 0;
    while i < v.len()
        invariant
            i <= v@.len(),
            done@.len() == scan(v@.subrange(0, i as int)).0.len(),
            forall|k: int| 0 <= k < done@.len() ==> (#[trigger] done@[k])@ == scan(v@.subrange(0, i as int)).0[k],
            cur@ == scan(v@.subrange(0, i as int)).1,
        decreases v@.len() - i,
    {
        let b = v[i];
        proof {
            assert(v@.subrange(0, i + 1).drop_last() =~= v@.subrange(0, i as int));
        }
        if b == 32 || (9 <= b && b <= 13) {
            if cur.len() > 0 {
                done.push(cur);
                cur = Vec::new();
            }
        } else {
            cur.push(b);
        }
        i = i + 1;
    }
    proof {
        assert(v@.subrange(0, v@.len() as int) =~= v@);
    }
    if cur.len() > 0 {
        done.push(cur);
    }
    done
}

impl Credentials {
    /// Credentials from a scheme and a credential that are each a single
    /// token, as a `Proxy-Authorization` value of exactly two tokens holds.
    pub fn new(scheme: &str, credentials: &str) -> (r: Credentials)
        requires
            is_single_token(scheme@),
            is_single_token(credentials@),
        ensures
            r.scheme_view() == scheme@,
            r.credentials_view() == credentials@,
    {
        Credentials { scheme: scheme.to_string(), credentials: credentials.to_string() }
    }

    pub closed spec fn scheme_view(&self) -> Seq<char> {
        self.scheme@
    }

    pub closed spec fn credentials_view(&self) -> Seq<char> {
        self.credentials@
    }

    pub fn scheme(&self) -> (r: &str)
        ensures
            r@ == self.scheme_view(),
    {
        self.scheme.as_str()
    }

    pub fn credentials(&self) -> (r: &str)
        ensures
            r@ == self.credentials_view(),
    {
        self.credentials.as_str()
    }

    /// Reads the request's `Proxy-Authorization` header as a scheme and a
    /// credential separated by ASCII whitespace (see `is_space`). Every
    /// header value gives exactly one answer: the pair, `MissingHeader` or
    /// `InvalidFormat`; a value of two tokens that are not both UTF-8 is
    /// `InvalidFormat { n: 2 }`.
    pub fn get_from_request(request: &Request) -> (r: Result<Credentials, Error>)
        ensures
            match proxy_authorization_value(*request) {
                None => r == Err::<Credentials, Error>(Error::MissingHeader),
                Some(v) => if is_credential_pair(tokens(v)) {
                    &&& r is Ok
                    &&& r->Ok_0.scheme_view() == decode_utf8(tokens(v)[0])
                    &&& r->Ok_0.credentials_view() == decode_utf8(tokens(v)[1])
                } else {
                    r == Err::<Credentials, Error>(Error::InvalidFormat { n: tokens(v).len() as usize })
                },
            },
            r is Ok || r == Err::<Credentials, Error>(Error::MissingHeader) || r matches Err(Error::InvalidFormat { .. }),
    {
        proof {
            reveal_strlit("proxy-authorization");
            assert(PROXY_AUTHORIZATION@ == proxy_authorization_name());
        }
        match header_get(&request.headers, PROXY_AUTHORIZATION) {
            None => Err(Error::MissingHeader),
            Some(value) => {
                let mut parts = split_tokens(&value);
                let n = parts.len();
                if n != 2 {
                    return Err(Error::InvalidFormat { n });
                }
                let second = parts.pop().unwrap();
                let first = parts.pop().unwrap();
                proof {
                    assert(first@ == tokens(value@)[0]);
                    assert(second@ == tokens(value@)[1]);
                }
                match (utf8_string(first), utf8_string(second)) {
                    (Some(scheme), Some(credentials)) => Ok(Credentials { scheme, credentials }),
                    _ => Err(Error::InvalidFormat { n }),
                }
            },
        }
    }
}

/// Replacing a run of whitespace by a single space leaves the tokens, and
/// so the credentials read from a header value, unchanged.
pub proof fn whitespace_run_collapses(x: Seq<u8>, w: Seq<u8>, y: Seq<u8>)
    requires
        w.len() > 0,
        forall|i: int| 0 <= i < w.len() ==> is_space(#[trigger] w[i]),
    ensures
        tokens(x + w + y) == tokens(x + seq![32u8] + y),
{
    lemma_scan_space_run(x, w);
    lemma_scan_extend(x + w, x + seq![32u8], y);
}

proof fn lemma_scan_space_run(x: Seq<u8>, w: Seq<u8>)
    requires
        w.len() > 0,
        forall|i: int| 0 <= i < w.len() ==> is_space(#[trigger] w[i]),
    ensures
        scan(x + w) == scan(x + seq![32u8]),
        scan(x + w).1.len() == 0,
    decreases w.len(),
{
    assert((x + seq![32u8]).drop_last() =~= x);
    assert((x + seq![32u8]).last() == 32u8);
    assert((x + w).drop_last() =~= x + w.drop_last());
    assert((x + w).last() == w[w.len() - 1]);
    if w.len() > 1 {
        let w2 = w.drop_last();
        assert forall|i: int| 0 <= i < w2.len() implies is_space(#[trigger] w2[i]) by {
            assert(w2[i] == w[i]);
        }
        lemma_scan_space_run(x, w2);
    } else {
        assert(w.drop_last() =~= Seq::<u8>::empty());
        assert(x + w.drop_last() =~= x);
    }
}

proof fn lemma_scan_extend(u: Seq<u8>, v: Seq<u8>, q: Seq<u8>)
    requires
        scan(u) == scan(v),
    ensures
        scan(u + q) == scan(v + q),
    decreases q.len(),
{
    if q.len() == 0 {
        assert(u + q =~= u);
        assert(v + q =~= v);
    } else {
        lemma_scan_extend(u, v, q.drop_last());
        assert((u + q).drop_last() =~= u + q.drop_last());
        assert((v + q).drop_last() =~= v + q.drop_last());
        assert((u + q).last() == q.last());
        assert((v + q).last() == q.last());
    }
}

} // verus!
