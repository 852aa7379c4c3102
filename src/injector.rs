//! A plugin that marks each outgoing request with a header and strips that
//! header from each incoming response.
use vstd::prelude::*;
use crate::headers::{has_room, header_key, set_or_kept, value_accepted, value_bytes, without};
use crate::plugins::Plugin;
use crate::request::Request;
use crate::response::Response;

verus! {

/// The header that the injector sets.
pub open spec fn injected_name() -> Seq<char> {
    "some-dodgy-header"@
}

/// The value that the injector gives its header.
pub open spec fn injected_value() -> Seq<char> {
    "true"@
}

/// The injector's header name is a valid header name, and its value an
/// accepted value.
pub proof fn lemma_injected_header_accepted()
    ensures
        header_key(injected_name()) is Some,
        value_accepted(injected_value()),
{
    reveal_strlit("some-dodgy-header");
    reveal_strlit("true");
    let n = injected_name();
    let v = injected_value();
    assert(vstd::utf8::is_ascii_chars(n));
    assert(vstd::utf8::is_ascii_chars(v));
    vstd::utf8::is_ascii_chars_encode_utf8(n);
    vstd::utf8::is_ascii_chars_encode_utf8(v);
    let b = vstd::utf8::encode_utf8(n);
    assert forall|i: int| 0 <= i < b.len() implies crate::headers::name_byte(b[i]) != 0 by {
        assert(n[i] as u8 == b[i]);
    }
    let c = value_bytes(v);
    assert forall|i: int| 0 <= i < c.len() implies crate::headers::value_byte_ok(c[i]) by {
        assert(v[i] as u8 == c[i]);
    }
}

/// Sets `some-dodgy-header: true` on requests and removes that header from
/// responses.
#[derive(Debug, Default)]
pub struct Injector;

impl Plugin for Injector {
    open spec fn pre_send_effect(&self, before: Request, after: Request) -> bool {
        &&& set_or_kept(before.headers@, after.headers@, injected_name(), injected_value())
        &&& has_room(before.headers@) ==> after.headers@ == before.headers@.insert(
            header_key(injected_name())->0,
            seq![value_bytes(injected_value())],
        )
        &&& after.destination == before.destination
        &&& after.method == before.method
        &&& after.cookies == before.cookies
        &&& after.body == before.body
    }

    open spec fn post_receive_effect(&self, before: Response, after: Response) -> bool {
        &&& after.headers@ == without(before.headers@, injected_name())
        &&& after.status == before.status
        &&& after.body == before.body
    }

    fn name(&self) -> &'static str {
        "Header Injector"
    }

    fn on_plugin_load(&self) {
    }

    fn on_plugin_unload(&self) {
    }

    fn pre_send(&self, request: &mut Request) {
        proof {
            lemma_injected_header_accepted();
        }
        let _ = request.headers.set("some-dodgy-header", "true");
    }

    fn post_receive(&self, response: &mut Response) {
        response.headers.remove("some-dodgy-header");
    }
}

} // verus!
