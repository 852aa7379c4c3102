//! HTTP headers, kept in reqwest's `HeaderMap`: names compare without regard
//! to ASCII case, and each name holds one or more values in the order they
//! were added.
use vstd::prelude::*;
use reqwest::header::{HeaderMap, HeaderName, HeaderValue};

verus! {

/// reqwest's header map, carried as an opaque value; what it holds is
/// `map_contents`.
#[verifier::external_type_specification]
#[verifier::external_body]
#[verifier::reject_recursive_types(T)]
pub struct ExHeaderMap<T>(reqwest::header::HeaderMap<T>);

/// reqwest's header value, carried as an opaque value.
#[verifier::external_type_specification]
#[verifier::external_body]
pub struct ExHeaderValue(reqwest::header::HeaderValue);

/// For each normalized header name, the bytes of its values in the order
/// they were added.
pub type HeaderContents = Map<Seq<u8>, Seq<Seq<u8>>>;

/// What a header map holds.
pub uninterp spec fn map_contents(map: reqwest::header::HeaderMap) -> HeaderContents;

/// A byte of a header name as names are kept: ASCII letters in lower case,
/// the other token characters as they are, and 0 for a byte that no header
/// name may hold.
pub open spec fn name_byte(b: u8) -> u8 {
    if 65 <= b <= 90 {
        (b + 32) as u8
    } else if 97 <= b <= 122 || 48 <= b <= 57 || b == 33 || 35 <= b <= 39 || b == 42 || b == 43
        || b == 45 || b == 46 || 94 <= b <= 96 || b == 124 || b == 126 {
        b
    } else {
        0
    }
}

/// The longest header name, in bytes.
pub open spec fn max_name_len() -> int {
    65535
}

/// The normalized form of a header name, or nothing for a string that is
/// not a valid header name: one to `max_name_len` token bytes, letters
/// folded to lower case. Names that differ only in ASCII case have the same
/// normalized form.
pub open spec fn header_key(name: Seq<char>) -> Option<Seq<u8>> {
    let b = vstd::utf8::encode_utf8(name);
    if 1 <= b.len() <= max_name_len() && forall|i: int| 0 <= i < b.len() ==> name_byte(b[i]) != 0 {
        Some(b.map_values(|x: u8| name_byte(x)))
    } else {
        None
    }
}

/// A byte that a header value may hold: a tab, or a byte of 32 or more
/// other than 127.
pub open spec fn value_byte_ok(b: u8) -> bool {
    b == 9 || (b >= 32 && b != 127)
}

/// Whether a string is accepted as a header value.
pub open spec fn value_accepted(value: Seq<char>) -> bool {
    forall|i: int| 0 <= i < value_bytes(value).len() ==> value_byte_ok(value_bytes(value)[i])
}

/// A map with fewer names than this always has room for one more.
pub open spec fn has_room(h: HeaderContents) -> bool {
    h.len() < 4096
}

/// The bytes of a header value given as text.
pub open spec fn value_bytes(value: Seq<char>) -> Seq<u8> {
    vstd::utf8::encode_utf8(value)
}

/// Relies on http::HeaderMap::new: a new map holds no header.
#[verifier::external_body]
fn map_new() -> (r: HeaderMap)
    ensures
        map_contents(r) == HeaderContents::empty(),
{
    HeaderMap::new()
}

/// Relies on http::HeaderMap::keys_len: the number of distinct names.
#[verifier::external_body]
fn map_len(map: &HeaderMap) -> (r: usize)
    ensures
        r == map_contents(*map).len(),
{
    map.keys_len()
}

/// Relies on http::HeaderMap::try_insert, with HeaderName::from_bytes and
/// HeaderValue::from_str converting the arguments: the name's values are
/// replaced by the one value. A name or value they refuse, or a map at its
/// size limit, leaves the map as it was and gives `false`; the limit is not
/// reached while the map has fewer than 4096 names.
#[verifier::external_body]
fn map_insert(map: &mut HeaderMap, name: &str, value: &str) -> (r: bool)
    ensures
        r ==> header_key(name@) is Some && value_accepted(value@) && map_contents(*final(map))
            == map_contents(*old(map)).insert(header_key(name@)->0, seq![value_bytes(value@)]),
        !r ==> map_contents(*final(map)) == map_contents(*old(map)),
        header_key(name@) is None || !value_accepted(value@) ==> !r,
        header_key(name@) is Some && value_accepted(value@) && has_room(map_contents(*old(map)))
            ==> r,
{
    match (HeaderName::from_bytes(name.as_bytes()), HeaderValue::from_str(value)) {
        (Ok(n), Ok(v)) => map.try_insert(n, v).is_ok(),
        _ => false,
    }
}

/// Relies on http::HeaderMap::try_append, with HeaderName::from_bytes and
/// HeaderValue::from_str converting the arguments: the value goes after the
/// name's other values. A name or value they refuse, or a map at its size
/// limit, leaves the map as it was and gives `false`; the limit is not
/// reached while the map has fewer than 4096 names.
#[verifier::external_body]
fn map_append(map: &mut HeaderMap, name: &str, value: &str) -> (r: bool)
    ensures
        r ==> header_key(name@) is Some && value_accepted(value@) && map_contents(*final(map))
            == map_contents(*old(map)).insert(
            header_key(name@)->0,
            values_of(map_contents(*old(map)), header_key(name@)->0).push(value_bytes(value@)),
        ),
        !r ==> map_contents(*final(map)) == map_contents(*old(map)),
        header_key(name@) is None || !value_accepted(value@) ==> !r,
        header_key(name@) is Some && value_accepted(value@) && has_room(map_contents(*old(map)))
            ==> r,
{
    match (HeaderName::from_bytes(name.as_bytes()), HeaderValue::from_str(value)) {
        (Ok(n), Ok(v)) => map.try_append(n, v).is_ok(),
        _ => false,
    }
}

/// Relies on http::HeaderMap::remove: every value of the name goes; a
/// string that is no header name matches nothing.
#[verifier::external_body]
fn map_remove(map: &mut HeaderMap, name: &str)
    ensures
        map_contents(*final(map)) == without(map_contents(*old(map)), name@),
{
    map.remove(name);
}

/// Relies on http::HeaderMap::get_all (each value read by
/// HeaderValue::as_bytes): the name's values in order, none when the name is
/// absent or no header name.
#[verifier::external_body]
fn map_get(map: &HeaderMap, name: &str) -> (r: Vec<Vec<u8>>)
    ensures
        r@.map_values(|v: Vec<u8>| v@) == values_named(map_contents(*map), name@),
{
    map.get_all(name).iter().map(|v| v.as_bytes().to_vec()).collect()
}

/// The values recorded under the normalized name `key`, none if absent.
pub open spec fn values_of(h: HeaderContents, key: Seq<u8>) -> Seq<Seq<u8>> {
    if h.contains_key(key) {
        h[key]
    } else {
        Seq::empty()
    }
}

/// The values of the header `name`: none when it is no header name.
pub open spec fn values_named(h: HeaderContents, name: Seq<char>) -> Seq<Seq<u8>> {
    match header_key(name) {
        Some(k) => values_of(h, k),
        None => Seq::empty(),
    }
}

/// `h` without the header `name`.
pub open spec fn without(h: HeaderContents, name: Seq<char>) -> HeaderContents {
    match header_key(name) {
        Some(k) => h.remove(k),
        None => h,
    }
}

/// `after` is `before` with the header `name` set to the single value
/// `value`, or, when that was refused, `before` itself.
pub open spec fn set_or_kept(
    before: HeaderContents,
    after: HeaderContents,
    name: Seq<char>,
    value: Seq<char>,
) -> bool {
    ||| after == before
    ||| header_key(name) is Some && value_accepted(value) && after == before.insert(
        header_key(name)->0,
        seq![value_bytes(value)],
    )
}

/// A mapping from header names to one or more values.
#[derive(Debug)]
pub struct Headers {
    map: HeaderMap,
}

impl View for Headers {
    type V = HeaderContents;

    closed spec fn view(&self) -> HeaderContents {
        map_contents(self.map)
    }
}

impl Headers {
    /// An empty collection.
    pub fn new() -> (r: Headers)
        ensures
            r@ == HeaderContents::empty(),
    {
        Headers { map: map_new() }
    }

    /// The headers that `map` holds.
    pub fn from_map(map: HeaderMap) -> (r: Headers)
        ensures
            r@ == map_contents(map),
    {
        Headers { map }
    }

    /// The underlying map.
    pub fn as_map(&self) -> (r: &HeaderMap)
        ensures
            map_contents(*r) == self@,
    {
        &self.map
    }

    /// The number of distinct header names.
    pub fn len(&self) -> (r: usize)
        ensures
            r == self@.len(),
    {
        map_len(&self.map)
    }

    /// The values of the header `name`, in the order they were added.
    pub fn get(&self, name: &str) -> (r: Vec<Vec<u8>>)
        ensures
            r@.map_values(|v: Vec<u8>| v@) == values_named(self@, name@),
    {
        map_get(&self.map, name)
    }

    /// Set the header `name` to the single value `value`. `false` when the
    /// name or value is refused, or the map is full (never below 4096
    /// names); nothing changes then.
    pub fn set(&mut self, name: &str, value: &str) -> (r: bool)
        ensures
            r ==> header_key(name@) is Some && value_accepted(value@) && final(self)@ == old(
                self,
            )@.insert(header_key(name@)->0, seq![value_bytes(value@)]),
            !r ==> final(self)@ == old(self)@,
            header_key(name@) is None || !value_accepted(value@) ==> !r,
            header_key(name@) is Some && value_accepted(value@) && has_room(old(self)@) ==> r,
    {
        map_insert(&mut self.map, name, value)
    }

    /// Add `value` after the other values of the header `name`. `false` when
    /// the name or value is refused, or the map is full (never below 4096
    /// names); nothing changes then.
    pub fn append(&mut self, name: &str, value: &str) -> (r: bool)
        ensures
            r ==> header_key(name@) is Some && value_accepted(value@) && final(self)@ == old(
                self,
            )@.insert(
                header_key(name@)->0,
                values_of(old(self)@, header_key(name@)->0).push(value_bytes(value@)),
            ),
            !r ==> final(self)@ == old(self)@,
            header_key(name@) is None || !value_accepted(value@) ==> !r,
            header_key(name@) is Some && value_accepted(value@) && has_room(old(self)@) ==> r,
    {
        map_append(&mut self.map, name, value)
    }

    /// Remove every value of the header `name`.
    pub fn remove(&mut self, name: &str)
        ensures
            final(self)@ == without(old(self)@, name@),
    {
        map_remove(&mut self.map, name)
    }
}

} // verus!
