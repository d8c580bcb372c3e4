//! Request targets, held as their text and the parts the proxy reads.

use vstd::prelude::*;

verus! {

/// The characters of an optional string.
pub open spec fn opt_chars(o: Option<String>) -> Option<Seq<char>> {
    match o {
        Some(s) => Some(s@),
        None => None,
    }
}

/// What `http::Uri` parses from a text: its authority, its host and its path,
/// or nothing where the text is not a URI.
pub uninterp spec fn uri_parts(s: Seq<char>) -> Option<(Option<Seq<char>>, Option<Seq<char>>, Seq<char>)>;

/// A request target: the text it was read from, with its authority
/// (`host:port`), its host and its path.
#[derive(Clone, Debug, PartialEq, Eq)]
pub struct Uri {
    pub text: String,
    pub authority: Option<String>,
    pub host: Option<String>,
    pub path: String,
}

/// Relies on `str::parse::<http::Uri>` and on the parsed value's
/// `authority`, `host` and `path`.
#[verifier::external_body]
fn parse_parts(s: &str) -> (r: Option<(Option<String>, Option<String>, String)>)
    ensures
        match r {
            Some(p) => uri_parts(s@) == Some((opt_chars(p.0), opt_chars(p.1), p.2@)),
            None => uri_parts(s@) is None,
        },
{
    s.parse::<http::Uri>().ok().map(
        |u|
            (
                u.authority().map(|a| a.as_str().to_string()),
                u.host().map(|h| h.to_string()),
                u.path().to_string(),
            ),
    )
}

impl Uri {
    /// Parses a request target; `None` where it is not a URI.
    pub fn parse(s: &str) -> (r: Option<Uri>)
        ensures
            match r {
                Some(u) => {
                    &&& u.text@ == s@
                    &&& uri_parts(s@) == Some((opt_chars(u.authority), opt_chars(u.host), u.path@))
                },
                None => uri_parts(s@) is None,
            },
    {
        match parse_parts(s) {
            Some((authority, host, path)) => Some(Uri { text: s.to_string(), authority, host, path }),
            None => None,
        }
    }

    pub fn as_str(&self) -> (r: &str)
        ensures
            r@ == self.text@,
    {
        self.text.as_str()
    }

    pub fn host(&self) -> (r: Option<&str>)
        ensures
            match r {
                Some(h) => opt_chars(self.host) == Some(h@),
                None => self.host is None,
            },
    {
        match &self.host {
            Some(h) => Some(h.as_str()),
            None => None,
        }
    }

    pub fn path(&self) -> (r: &str)
        ensures
            r@ == self.path@,
    {
        self.path.as_str()
    }
}

impl Default for Uri {
    /// The target `/`: a path alone, with no authority.
    fn default() -> (r: Uri)
        ensures
            r.text@ == seq!['/'],
            r.authority is None,
            r.host is None,
            r.path@ == seq!['/'],
    {
        proof {
            reveal_strlit("/");
        }
        Uri { text: String::from_str("/"), authority: None, host: None, path: String::from_str("/") }
    }
}

} // verus!
