//! JSON documents, kept as `serde_json::Value`, with JSONPath selection and
//! dotted-key insertion.

use json_dotpath::DotPaths;
use vstd::prelude::*;
use vstd::utf8::{decode_utf8, valid_utf8};

verus! {

#[verifier::external_type_specification]
#[verifier::external_body]
pub struct ExValue(serde_json::Value);

#[verifier::external_type_specification]
#[verifier::external_body]
pub struct ExCompiled(jsonpath_lib::Compiled);

/// Relies on `Value::clone`, a deep copy; nothing is claimed of the copy
/// here.
pub assume_specification[ <serde_json::Value as Clone>::clone ](v: &serde_json::Value) -> serde_json::Value;

/// The JSON document `serde_json` reads from `text`, if it holds one.
pub uninterp spec fn json_parse(text: Seq<char>) -> Option<serde_json::Value>;

/// The text `String::from_utf8_lossy` reads from `bytes`.
pub uninterp spec fn lossy_text(bytes: Seq<u8>) -> Seq<char>;

/// The JSON document a body holds, read as text with invalid UTF-8
/// replaced.
pub open spec fn body_json(bytes: Seq<u8>) -> Option<serde_json::Value> {
    json_parse(lossy_text(bytes))
}

/// Whether `jsonpath_lib` compiles `path`.
pub uninterp spec fn jsonpath_accepts(path: Seq<char>) -> bool;

/// The array of the values that `path` selects in `doc`, or nothing where
/// the selection fails.
pub uninterp spec fn json_select(path: Seq<char>, doc: serde_json::Value) -> Option<serde_json::Value>;

/// `doc` with `value` stored at the dotted `key`, or nothing where the key
/// cannot be set in `doc`.
pub uninterp spec fn json_dot_set(doc: serde_json::Value, key: Seq<char>, value: serde_json::Value) -> Option<serde_json::Value>;

/// The JSON array of `items`, in order.
pub uninterp spec fn json_array(items: Seq<serde_json::Value>) -> serde_json::Value;

/// The text `{}`.
pub open spec fn empty_object_text() -> Seq<char> {
    seq!['{', '}']
}

/// The empty JSON object.
pub open spec fn empty_object() -> serde_json::Value {
    json_parse(empty_object_text())->Some_0
}

/// Relies on `String::from_utf8_lossy`: valid UTF-8 is decoded as it is,
/// and each invalid sequence becomes U+FFFD.
#[verifier::external_body]
pub(crate) fn lossy_utf8(bytes: &[u8]) -> (r: String)
    ensures
        r@ == lossy_text(bytes@),
        valid_utf8(bytes@) ==> r@ == decode_utf8(bytes@),
{
    String::from_utf8_lossy(bytes).into_owned()
}

/// Relies on `serde_json::from_str`: the document the text holds.
#[verifier::external_body]
pub(crate) fn parse_json(text: &str) -> (r: Option<serde_json::Value>)
    ensures
        r == json_parse(text@),
{
    serde_json::from_str(text).ok()
}

/// Relies on `Map::new` under `Value::Object`: the value `serde_json` reads
/// from `{}`.
#[verifier::external_body]
pub(crate) fn new_empty_object() -> (r: serde_json::Value)
    ensures
        json_parse(empty_object_text()) == Some(r),
{
    serde_json::Value::Object(serde_json::Map::new())
}

/// Relies on `Value::Array`: the array of the items, in order.
#[verifier::external_body]
pub(crate) fn to_json_array(items: Vec<serde_json::Value>) -> (r: serde_json::Value)
    ensures
        r == json_array(items@),
{
    serde_json::Value::Array(items)
}

/// A JSONPath expression without filters (`?`) and without slices (`:`),
/// of at most 1024 characters. `jsonpath_lib` evaluates filters through
/// `unimplemented!` and `unwrap` sites, and a slice step of zero panics in
/// `step_by`; the plain forms select without panicking.
pub open spec fn is_plain_path(s: Seq<char>) -> bool {
    s.len() <= 1024 && forall|i: int| 0 <= i < s.len() ==> (#[trigger] s[i]) != '?' && s[i] != ':'
}

/// A dotted key without `>` and of at most 1024 characters. `dot_set`
/// computes `n + 1` for a segment `>n` on an array, which overflows for the
/// largest `n`; the other segments are handled without panicking.
pub open spec fn is_plain_key(s: Seq<char>) -> bool {
    s.len() <= 1024 && forall|i: int| 0 <= i < s.len() ==> (#[trigger] s[i]) != '>'
}

/// Whether `s` is at most `max` characters long and holds neither `a` nor `b`.
pub fn avoids_chars(s: &str, max: usize, a: char, b: char) -> (r: bool)
    ensures
        r == (s@.len() <= max && forall|i: int| 0 <= i < s@.len() ==> (#[trigger] s@[i]) != a && s@[i] != b),
{
    let n = s.unicode_len();
    if n > max {
        return false;
    }
    let mut i: usize = 0;
    while i < n
        invariant
            n == s@.len(),
            i <= n,
            forall|k: int| 0 <= k < i ==> (#[trigger] s@[k]) != a && s@[k] != b,
        decreases n - i,
    {
        let c = s.get_char(i);
        if c == a || c == b {
            return false;
        }
        i = i + 1;
    }
    true
}

/// Relies on `DotPaths::dot_set`: stores `value` at the dotted `key`. The
/// change is made on a copy, so a failed insertion leaves `doc` as it was.
#[verifier::external_body]
pub(crate) fn dot_set(doc: &mut serde_json::Value, key: &str, value: serde_json::Value) -> (ok: bool)
    requires
        is_plain_key(key@),
    ensures
        match json_dot_set(*old(doc), key@, value) {
            Some(n) => ok && *final(doc) == n,
            None => !ok && *final(doc) == *old(doc),
        },
{
    let mut next = doc.clone();
    match next.dot_set(key, value) {
        Ok(()) => {
            *doc = next;
            true
        },
        Err(_) => false,
    }
}

/// A JSONPath expression compiled once, with the text it was compiled from.
/// Only `JsonPath::compile` builds one, so the two always agree.
#[derive(Debug)]
pub struct JsonPath {
    source: String,
    compiled: jsonpath_lib::Compiled,
}

impl JsonPath {
    pub closed spec fn source_view(&self) -> Seq<char> {
        self.source@
    }

    /// Every compiled path is plain.
    #[verifier::type_invariant]
    pub open spec fn plain(&self) -> bool {
        is_plain_path(self.source_view())
    }

    /// Relies on `Compiled::compile`: it compiles exactly the paths that
    /// `jsonpath_accepts` names.
    #[verifier::external_body]
    pub(crate) fn compile(source: &str) -> (r: Result<JsonPath, String>)
        requires
            is_plain_path(source@),
        ensures
            r is Ok <==> jsonpath_accepts(source@),
            r is Ok ==> r->Ok_0.source_view() == source@,
    {
        jsonpath_lib::Compiled::compile(source).map(|compiled| JsonPath { source: source.to_string(), compiled })
    }

    /// Relies on `Compiled::select`: the values the path selects in `doc`,
    /// gathered into an array.
    #[verifier::external_body]
    pub(crate) fn select(&self, doc: &serde_json::Value) -> (r: Option<serde_json::Value>)
        requires
            is_plain_path(self.source_view()),
        ensures
            r == json_select(self.source_view(), *doc),
    {
        self.compiled.select(doc).ok().map(|found| serde_json::Value::Array(found.into_iter().cloned().collect()))
    }

    pub fn as_str(&self) -> (r: &str)
        ensures
            r@ == self.source_view(),
    {
        self.source.as_str()
    }
}

} // verus!
