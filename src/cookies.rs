//! The cookie jar of a request, kept in the `cookie` crate's `CookieJar`.
use vstd::prelude::*;

verus! {

/// The `cookie` crate's jar, carried as an opaque value; what it holds is
/// `jar_contents`.
#[verifier::external_type_specification]
#[verifier::external_body]
pub struct ExCookieJar(cookie::CookieJar);

/// Cookie values by cookie name.
pub type CookieMap = Map<Seq<char>, Seq<char>>;

/// What a cookie jar holds: the value of each cookie name.
pub uninterp spec fn jar_contents(jar: cookie::CookieJar) -> CookieMap;

/// Relies on cookie::CookieJar::new: a new jar holds no cookie.
#[verifier::external_body]
pub(crate) fn jar_new() -> (r: cookie::CookieJar)
    ensures
        jar_contents(r) == CookieMap::empty(),
{
    cookie::CookieJar::new()
}

/// Relies on cookie::CookieJar::add (with cookie::Cookie::new building the
/// cookie): the jar's set is keyed by name, so the new cookie replaces any
/// cookie of the same name.
#[verifier::external_body]
pub(crate) fn jar_add(jar: &mut cookie::CookieJar, name: &str, value: &str)
    ensures
        jar_contents(*final(jar)) == jar_contents(*old(jar)).insert(name@, value@),
{
    jar.add(cookie::Cookie::new(name.to_owned(), value.to_owned()));
}

/// Relies on cookie::CookieJar::iter (with cookie::Cookie::name and
/// cookie::Cookie::value read from each item): it yields each live cookie of
/// the jar once, in no stated order.
#[verifier::external_body]
pub(crate) fn jar_pairs(jar: &cookie::CookieJar) -> (r: Vec<(String, String)>)
    ensures
        forall|i: int|
            0 <= i < r@.len() ==> jar_contents(*jar).contains_key(#[trigger] r@[i].0@)
                && jar_contents(*jar)[r@[i].0@] == r@[i].1@,
        forall|k: Seq<char>|
            jar_contents(*jar).contains_key(k) ==> exists|i: int|
                0 <= i < r@.len() && #[trigger] r@[i].0@ == k,
        forall|i: int, j: int|
            0 <= i < r@.len() && 0 <= j < r@.len() && i != j ==> #[trigger] r@[i].0@
                != #[trigger] r@[j].0@,
{
    jar.iter().map(|c| (c.name().to_owned(), c.value().to_owned())).collect()
}

} // verus!
