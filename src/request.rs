//! A request: a parsed absolute URL, a method, headers, cookies and a body.
use vstd::prelude::*;
use crate::cookies::{jar_add, jar_contents, jar_new, jar_pairs, CookieMap};
use crate::error::{Error, ErrorKind};
use crate::headers::{HeaderContents, Headers};

verus! {

/// The serialization of the URL that parsing `s` gives, or nothing when `s`
/// is not an absolute URL.
pub uninterp spec fn parsed_url(s: Seq<char>) -> Option<Seq<char>>;

/// Relies on url::Url::parse (re-exported by reqwest): it accepts or refuses
/// the text, and an accepted URL is handed back as its serialization.
#[verifier::external_body]
fn parse_url(s: &str) -> (r: Result<String, String>)
    ensures
        match r {
            Ok(u) => parsed_url(s@) == Some(u@),
            Err(_) => parsed_url(s@) is None,
        },
{
    reqwest::Url::parse(s).map(String::from).map_err(|e| e.to_string())
}

/// The request methods.
#[derive(Clone, Copy, Debug, PartialEq, Eq, Structural)]
pub enum Method {
    Get,
    Post,
    Put,
    Delete,
    Head,
    Options,
    Patch,
}

/// An HTTP request. `Request::new` is the one constructor, and it gives a
/// request whose destination is a successfully parsed URL (`wf`).
#[derive(Debug)]
pub struct Request {
    pub destination: String,
    pub method: Method,
    pub headers: Headers,
    pub cookies: cookie::CookieJar,
    pub body: Option<Vec<u8>>,
}

impl Request {
    /// The serialized destination URL.
    pub open spec fn url(&self) -> Seq<char> {
        self.destination@
    }

    /// The destination is what parsing some string gave.
    pub open spec fn wf(&self) -> bool {
        exists|s: Seq<char>| parsed_url(s) == Some(self.url())
    }

    /// The cookies, by name.
    pub open spec fn cookie_map(&self) -> CookieMap {
        jar_contents(self.cookies)
    }

    /// A `GET` request to `url` with no header, cookie or body; a string
    /// that is not an absolute URL is refused with `InvalidInput`.
    pub fn new(url: &str) -> (r: Result<Request, Error>)
        ensures
            r is Ok <==> parsed_url(url@) is Some,
            r matches Ok(req) ==> {
                &&& Some(req.url()) == parsed_url(url@)
                &&& req.wf()
                &&& req.method == Method::Get
                &&& req.headers@ == HeaderContents::empty()
                &&& req.cookie_map() == CookieMap::empty()
                &&& req.body is None
            },
            r matches Err(e) ==> e.kind == ErrorKind::InvalidInput && e.message@
                == "Unable to parse the URL"@,
    {
        match parse_url(url) {
            Ok(destination) => Ok(
                Request {
                    destination,
                    method: Method::Get,
                    headers: Headers::new(),
                    cookies: jar_new(),
                    body: None,
                },
            ),
            Err(cause) => {
                let e = Error::new(ErrorKind::InvalidInput, cause.as_str());
                Err(e.context("Unable to parse the URL"))
            },
        }
    }

    /// The serialized destination URL.
    pub fn destination(&self) -> (r: &str)
        ensures
            r@ == self.url(),
    {
        self.destination.as_str()
    }

    /// Add a cookie; one of the same name is replaced.
    pub fn add_cookie(&mut self, name: &str, value: &str)
        ensures
            final(self).cookie_map() == old(self).cookie_map().insert(name@, value@),
            final(self).url() == old(self).url(),
            final(self).method == old(self).method,
            final(self).headers == old(self).headers,
            final(self).body == old(self).body,
    {
        jar_add(&mut self.cookies, name, value);
    }

    /// Each cookie as a name and a value, every name once.
    pub fn cookie_pairs(&self) -> (r: Vec<(String, String)>)
        ensures
            forall|i: int|
                0 <= i < r@.len() ==> self.cookie_map().contains_key(#[trigger] r@[i].0@)
                    && self.cookie_map()[r@[i].0@] == r@[i].1@,
            forall|k: Seq<char>|
                self.cookie_map().contains_key(k) ==> exists|i: int|
                    0 <= i < r@.len() && #[trigger] r@[i].0@ == k,
            forall|i: int, j: int|
                0 <= i < r@.len() && 0 <= j < r@.len() && i != j ==> #[trigger] r@[i].0@
                    != #[trigger] r@[j].0@,
    {
        jar_pairs(&self.cookies)
    }
}

} // verus!
