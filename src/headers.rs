//! Header multi-map, kept as `http::HeaderMap` and described by its table
//! of lower-case names to the values stored under each name, in order.

use vstd::prelude::*;

verus! {

#[verifier::external_type_specification]
#[verifier::external_body]
#[verifier::reject_recursive_types(T)]
pub struct ExHeaderMap<T>(http::HeaderMap<T>);

#[verifier::external_type_specification]
#[verifier::external_body]
pub struct ExHeaderValue(http::header::HeaderValue);

/// Relies on `HeaderMap::clone`, which copies every entry; nothing is
/// claimed of the copy here.
pub assume_specification<T>[ <http::HeaderMap<T> as Clone>::clone ](m: &http::HeaderMap<T>) -> http::HeaderMap<T>
    where
        T: Clone,
;

/// The header multi-map type of requests and responses.
pub type Headers = http::HeaderMap;

/// Name of the header that carries proxy credentials.
pub const PROXY_AUTHORIZATION: &'static str = "proxy-authorization";

/// What a header map holds: each lower-case name with its values in
/// insertion order.
pub uninterp spec fn header_table(m: http::HeaderMap) -> Map<Seq<char>, Seq<Seq<u8>>>;

/// A character that may appear in a header name, after lower-casing.
pub open spec fn is_name_char(c: char) -> bool {
    ('a' <= c && c <= 'z') || ('0' <= c && c <= '9') || c == '!' || c == '"' || c == '#' || c == '$'
        || c == '%' || c == '&' || c == '\'' || c == '*' || c == '+' || c == '-' || c == '.'
        || c == '^' || c == '_' || c == '`' || c == '|' || c == '~'
}

/// A header name in canonical (lower-case) form.
pub open spec fn is_header_name(s: Seq<char>) -> bool {
    0 < s.len() < 65536 && forall|i: int| 0 <= i < s.len() ==> is_name_char(#[trigger] s[i])
}

/// A byte that may appear in a header value.
pub open spec fn is_value_byte(b: u8) -> bool {
    b == 9 || (b >= 32 && b != 127)
}

pub open spec fn is_header_value(v: Seq<u8>) -> bool {
    forall|i: int| 0 <= i < v.len() ==> is_value_byte(#[trigger] v[i])
}

/// Header maps stay below 6554 distinct names. With colliding names a
/// `HeaderMap` doubles its table whenever a fifth of it is in use; at most
/// 6553 names never ask for more than its largest table, beyond which it
/// panics.
pub open spec fn has_room(t: Map<Seq<char>, Seq<Seq<u8>>>, extra: nat) -> bool {
    t.dom().finite() && t.dom().len() + extra < 6554
}

/// Two header maps whose names fit in one map.
pub open spec fn fit_together(a: Map<Seq<char>, Seq<Seq<u8>>>, b: Map<Seq<char>, Seq<Seq<u8>>>) -> bool {
    has_room(a, 0) && has_room(b, 0) && a.dom().len() + b.dom().len() < 6554
}

/// The table of a map with no entries.
pub open spec fn no_headers() -> Map<Seq<char>, Seq<Seq<u8>>> {
    Map::empty()
}

/// The first value stored under `name`, if any.
pub open spec fn first_value(t: Map<Seq<char>, Seq<Seq<u8>>>, name: Seq<char>) -> Option<Seq<u8>> {
    if t.contains_key(name) && t[name].len() > 0 {
        Some(t[name][0])
    } else {
        None
    }
}

/// Relies on `HeaderMap::new`: a map with no entries.
#[verifier::external_body]
pub(crate) fn empty_headers() -> (r: Headers)
    ensures
        header_table(r) == no_headers(),
{
    http::HeaderMap::new()
}

/// Relies on `HeaderMap::get` with a lower-case name: the first value stored
/// under that name.
#[verifier::external_body]
pub(crate) fn header_get(m: &Headers, name: &str) -> (r: Option<Vec<u8>>)
    requires
        is_header_name(name@),
    ensures
        match r {
            Some(v) => first_value(header_table(*m), name@) == Some(v@),
            None => first_value(header_table(*m), name@) is None,
        },
{
    m.get(name).map(|v| v.as_bytes().to_vec())
}

/// Relies on `HeaderMap::insert`: every value under the name is replaced by
/// the one given. `HeaderName::from_bytes` and `HeaderValue::from_bytes`
/// accept exactly the names and values that `requires` admits.
#[verifier::external_body]
pub(crate) fn header_insert(m: &mut Headers, name: &str, value: &[u8])
    requires
        is_header_name(name@),
        is_header_value(value@),
        has_room(header_table(*old(m)), 1),
    ensures
        header_table(*final(m)) == header_table(*old(m)).insert(name@, seq![value@]),
        has_room(header_table(*final(m)), 0),
{
    let name = http::header::HeaderName::from_bytes(name.as_bytes()).unwrap();
    let value = http::header::HeaderValue::from_bytes(value).unwrap();
    m.insert(name, value);
}

/// Relies on `HeaderMap::extend` with another map: each name of `other`
/// keeps exactly the values that `other` holds under it.
#[verifier::external_body]
pub(crate) fn header_extend(m: &mut Headers, other: Headers)
    requires
        fit_together(header_table(*old(m)), header_table(other)),
    ensures
        header_table(*final(m)) == header_table(*old(m)).union_prefer_right(header_table(other)),
{
    m.extend(other);
}

/// The hop-by-hop headers, which concern one connection only and are not
/// passed on by the proxy.
pub open spec fn hop_by_hop_names() -> Set<Seq<char>> {
    set![
        seq!['c', 'o', 'n', 'n', 'e', 'c', 't', 'i', 'o', 'n'],
        seq!['p', 'r', 'o', 'x', 'y', '-', 'c', 'o', 'n', 'n', 'e', 'c', 't', 'i', 'o', 'n'],
        seq!['t', 'e'],
        seq!['t', 'r', 'a', 'i', 'l', 'e', 'r'],
        seq!['t', 'r', 'a', 'n', 's', 'f', 'e', 'r', '-', 'e', 'n', 'c', 'o', 'd', 'i', 'n', 'g'],
        seq!['u', 'p', 'g', 'r', 'a', 'd', 'e'],
    ]
}

/// Relies on `HeaderMap::remove` with a lower-case name: every value under
/// the name goes.
#[verifier::external_body]
pub(crate) fn header_remove(m: &mut Headers, name: &str)
    requires
        is_header_name(name@),
    ensures
        header_table(*final(m)) == header_table(*old(m)).remove(name@),
{
    m.remove(name);
}

/// Drops the hop-by-hop headers.
pub fn strip_hop_by_hop(headers: &mut Headers)
    ensures
        header_table(*final(headers)) == header_table(*old(headers)).remove_keys(hop_by_hop_names()),
{
    let ghost start = header_table(*headers);
    let name0 = "connection";
    proof {
        reveal_strlit("connection");
        assert(name0@ =~= seq!['c', 'o', 'n', 'n', 'e', 'c', 't', 'i', 'o', 'n']);
    }
    header_remove(headers, name0);
    let name1 = "proxy-connection";
    proof {
        reveal_strlit("proxy-connection");
        assert(name1@ =~= seq!['p', 'r', 'o', 'x', 'y', '-', 'c', 'o', 'n', 'n', 'e', 'c', 't', 'i', 'o', 'n']);
    }
    header_remove(headers, name1);
    let name2 = "te";
    proof {
        reveal_strlit("te");
        assert(name2@ =~= seq!['t', 'e']);
    }
    header_remove(headers, name2);
    let name3 = "trailer";
    proof {
        reveal_strlit("trailer");
        assert(name3@ =~= seq!['t', 'r', 'a', 'i', 'l', 'e', 'r']);
    }
    header_remove(headers, name3);
    let name4 = "transfer-encoding";
    proof {
        reveal_strlit("transfer-encoding");
        assert(name4@ =~= seq!['t', 'r', 'a', 'n', 's', 'f', 'e', 'r', '-', 'e', 'n', 'c', 'o', 'd', 'i', 'n', 'g']);
    }
    header_remove(headers, name4);
    let name5 = "upgrade";
    proof {
        reveal_strlit("upgrade");
        assert(name5@ =~= seq!['u', 'p', 'g', 'r', 'a', 'd', 'e']);
    }
    header_remove(headers, name5);
    proof {
        assert(header_table(*headers) =~= start.remove_keys(hop_by_hop_names()));
    }
}

/// The number of names of a table, or -1 for a table with infinitely
/// many, which no `HeaderMap` has.
pub open spec fn name_total(t: Map<Seq<char>, Seq<Seq<u8>>>) -> int {
    if t.dom().finite() {
        t.dom().len() as int
    } else {
        -1
    }
}

/// Relies on `HeaderMap::keys_len`: the number of distinct names.
#[verifier::external_body]
fn names_in(m: &Headers) -> (r: usize)
    ensures
        r as int == name_total(header_table(*m)),
{
    m.keys_len()
}

/// The number of distinct names in `m`, which the builders' bounds speak of.
pub fn name_count(m: &Headers) -> (r: usize)
    ensures
        header_table(*m).dom().finite(),
        r == header_table(*m).dom().len(),
{
    let r = names_in(m);
    r
}

/// Whether the names of `a` and `b` fit together in one map.
pub fn fits_together(a: &Headers, b: &Headers) -> (r: bool)
    ensures
        r == fit_together(header_table(*a), header_table(*b)),
{
    let x = name_count(a);
    let y = name_count(b);
    x < 6554 && y < 6554 && x + y < 6554
}

} // verus!
