//! The operations of the C-compatible surface, over handle tables.
//!
//! Every object that crosses the boundary is owned by a table and known to
//! the foreign caller only by its handle; 0 is the null handle. A failure is
//! recorded in the caller's last-error channel before a sentinel is
//! returned: the null handle, or a negative status.
use vstd::prelude::*;
use crate::error::{Error, ErrorKind};
use crate::error_channel::{kind_category, update_last_error, ErrorChannel};
use crate::buffer::{copy_into, written};
use crate::headers::HeaderContents;
use crate::pipeline::{accept_outcome, deliver};
use crate::plugins::{
    bridge_cause, bridge_message, calls, post_received, pre_sent, BridgeFailure, Hook, Plugin,
    PluginManager,
};
use crate::request::{parsed_url, Method, Request};
use crate::cookies::CookieMap;
use crate::response::{Reply, Response};
use crate::table::Table;

verus! {

/// The channel holds a failure of kind `kind`, recorded under that kind's
/// category.
pub open spec fn reported(errors: ErrorChannel, kind: ErrorKind) -> bool {
    errors.pending matches Some(last) && last.error.kind == kind && last.category
        == kind_category(kind)
}

/// Record a null-handle failure.
fn report_null(errors: &mut ErrorChannel, message: &str)
    ensures
        reported(*final(errors), ErrorKind::NullPointer),
        final(errors).pending->0.error.message@ == message@,
{
    update_last_error(errors, Error::new(ErrorKind::NullPointer, message));
}

/// Record that a table has no handle left.
fn report_full(errors: &mut ErrorChannel, message: &str)
    ensures
        reported(*final(errors), ErrorKind::General),
        final(errors).pending->0.error.message@ == message@,
{
    update_last_error(errors, Error::new(ErrorKind::General, message));
}

/// Construct a new `GET` request to `url`, returning its handle. A string
/// that is not an absolute URL gives the null handle and an `InvalidInput`
/// failure; so does a full table, with a general failure.
pub fn request_create(
    requests: &mut Table<Request>,
    errors: &mut ErrorChannel,
    url: &str,
) -> (h: usize)
    ensures
        parsed_url(url@) is None ==> {
            &&& h == 0
            &&& final(requests).live() == old(requests).live()
            &&& reported(*final(errors), ErrorKind::InvalidInput)
        },
        parsed_url(url@) is Some && old(requests).room() ==> {
            &&& h != 0
            &&& !old(requests).live().contains_key(h)
            &&& final(requests).live() == old(requests).live().insert(h, final(requests).live()[h])
            &&& Some(final(requests).live()[h].url()) == parsed_url(url@)
            &&& final(requests).live()[h].method == Method::Get
            &&& final(requests).live()[h].headers@ == HeaderContents::empty()
            &&& final(requests).live()[h].body is None
            &&& final(requests).live()[h].cookie_map() == CookieMap::empty()
            &&& *final(errors) == *old(errors)
        },
        parsed_url(url@) is Some && !old(requests).room() ==> {
            &&& h == 0
            &&& final(requests).live() == old(requests).live()
            &&& reported(*final(errors), ErrorKind::General)
        },
        h != 0 ==> parsed_url(url@) is Some,
{
    match Request::new(url) {
        Ok(req) => {
            if requests.has_room() {
                requests.insert(req)
            } else {
                report_full(errors, "No handle is left for the request");
                0
            }
        },
        Err(e) => {
            update_last_error(errors, e);
            0
        },
    }
}

/// Destroy a request. A handle that is null or already destroyed is left
/// alone.
pub fn request_destroy(requests: &mut Table<Request>, h: usize)
    ensures
        final(requests).live() == old(requests).live().remove(h),
{
    let _ = requests.take(h);
}

/// Send a request as it stands and return the handle of the response. A
/// dead request handle, a transport failure, an error status and a full
/// response table give the null handle and a recorded failure; a failure of
/// the exchange is recorded under "Sending request failed.".
pub fn request_send<F: Fn(&Request) -> Result<Reply, String>>(
    requests: &Table<Request>,
    responses: &mut Table<Response>,
    errors: &mut ErrorChannel,
    h: usize,
    transport: F,
) -> (r: usize)
    requires
        forall|q: &Request| transport.requires((q,)),
    ensures
        !requests.live().contains_key(h) ==> r == 0 && reported(
            *final(errors),
            ErrorKind::NullPointer,
        ) && final(responses).live() == old(responses).live(),
        requests.live().contains_key(h) ==> exists|
            reply: Result<Reply, String>,
            outcome: Result<Response, Error>,
        |
            {
                &&& transport.ensures((&requests.live()[h],), reply)
                &&& accept_outcome(reply, outcome)
                &&& match outcome {
                    Ok(res) => if old(responses).room() {
                        &&& r != 0
                        &&& !old(responses).live().contains_key(r)
                        &&& final(responses).live() == old(responses).live().insert(r, res)
                        &&& *final(errors) == *old(errors)
                    } else {
                        &&& r == 0
                        &&& final(responses).live() == old(responses).live()
                        &&& reported(*final(errors), ErrorKind::General)
                    },
                    Err(e) => {
                        &&& r == 0
                        &&& final(responses).live() == old(responses).live()
                        &&& final(errors).pending matches Some(last) && last.error.kind == e.kind
                            && last.error.chain() == seq!["Sending request failed."@] + e.chain()
                    },
                }
            },
{
    match requests.get(h) {
        None => {
            report_null(errors, "Received null pointer");
            0
        },
        Some(req) => match deliver(req, transport) {
            Ok(response) => {
                if responses.has_room() {
                    responses.insert(response)
                } else {
                    report_full(errors, "No handle is left for the response");
                    0
                }
            },
            Err(e) => {
                let e = e.context("Sending request failed.");
                update_last_error(errors, e);
                0
            },
        },
    }
}

/// Destroy a response. A handle that is null or already destroyed is left
/// alone.
pub fn response_destroy(responses: &mut Table<Response>, h: usize)
    ensures
        final(responses).live() == old(responses).live().remove(h),
{
    let _ = responses.take(h);
}

/// The length of a response's body; 0 and a recorded failure for a dead
/// handle.
pub fn response_body_length(
    responses: &Table<Response>,
    errors: &mut ErrorChannel,
    h: usize,
) -> (r: usize)
    ensures
        responses.live().contains_key(h) ==> r == responses.live()[h].body@.len() && *final(errors)
            == *old(errors),
        !responses.live().contains_key(h) ==> r == 0 && reported(
            *final(errors),
            ErrorKind::NullPointer,
        ),
{
    match responses.get(h) {
        Some(res) => res.body_len(),
        None => {
            report_null(errors, "Null pointer passed to response_body_length()");
            0
        },
    }
}

/// Copy a response's body into `buffer`, returning the number of bytes
/// copied. A dead handle, or a buffer shorter than the body, gives -1 and a
/// recorded failure, and nothing is written.
pub fn response_body(
    responses: &Table<Response>,
    errors: &mut ErrorChannel,
    h: usize,
    buffer: &mut [u8],
) -> (r: isize)
    requires
        old(buffer)@.len() <= isize::MAX,
    ensures
        !responses.live().contains_key(h) ==> r == -1 && final(buffer)@ == old(buffer)@
            && reported(*final(errors), ErrorKind::NullPointer),
        responses.live().contains_key(h) && responses.live()[h].body@.len() > old(buffer)@.len()
            ==> r == -1 && final(buffer)@ == old(buffer)@ && reported(
            *final(errors),
            ErrorKind::BufferTooSmall,
        ),
        responses.live().contains_key(h) && responses.live()[h].body@.len() <= old(buffer)@.len()
            ==> r == responses.live()[h].body@.len() && final(buffer)@ == written(
            old(buffer)@,
            responses.live()[h].body@,
        ) && *final(errors) == *old(errors),
{
    match responses.get(h) {
        None => {
            report_null(errors, "Null pointer passed to response_body()");
            -1
        },
        Some(res) => {
            if buffer.len() < res.body.len() {
                update_last_error(
                    errors,
                    Error::new(ErrorKind::BufferTooSmall, "Buffer is an insufficient length"),
                );
                return -1;
            }
            copy_into(buffer, res.body.as_slice());
            res.body.len() as isize
        },
    }
}

/// Create a new, empty plugin manager and return its handle; a full table
/// gives the null handle and a general failure.
pub fn plugin_manager_new<P: Plugin>(
    managers: &mut Table<PluginManager<P>>,
    errors: &mut ErrorChannel,
) -> (h: usize)
    ensures
        old(managers).room() ==> *final(errors) == *old(errors),
        !old(managers).room() ==> reported(*final(errors), ErrorKind::General),
        old(managers).room() ==> h != 0 && !old(managers).live().contains_key(h)
            && final(managers).live().contains_key(h) && final(managers).live()[h].plugins()
            == Seq::<P>::empty() && final(managers).live() == old(managers).live().insert(
            h,
            final(managers).live()[h],
        ),
        !old(managers).room() ==> h == 0 && final(managers).live() == old(managers).live(),
{
    if managers.has_room() {
        managers.insert(PluginManager::new())
    } else {
        report_full(errors, "No handle is left for the plugin manager");
        0
    }
}

/// Destroy a plugin manager: its plugins are unloaded first, in load order,
/// and the manager is then released. A handle that is null or already
/// destroyed is left alone. The result is the manager's hook history as the
/// unload left it.
pub fn plugin_manager_destroy<P: Plugin>(managers: &mut Table<PluginManager<P>>, h: usize) -> (last: Ghost<Seq<(Hook, P)>>)
    ensures
        final(managers).live() == old(managers).live().remove(h),
        old(managers).live().contains_key(h) ==> last@ == old(managers).live()[h].history() + calls(
            Hook::Unload,
            old(managers).live()[h].plugins(),
        ),
{
    match managers.take(h) {
        Some(manager) => {
            let mut manager = manager;
            manager.unload();
            Ghost(manager.history())
        },
        None => Ghost(Seq::empty()),
    }
}

/// Register what the bridge produced for the manager `h`: 0 on success, -1
/// with a recorded failure when the handle is dead or the bridge failed.
pub fn plugin_manager_load_plugin<P: Plugin>(
    managers: &mut Table<PluginManager<P>>,
    errors: &mut ErrorChannel,
    h: usize,
    bridged: Result<P, BridgeFailure>,
) -> (r: i32)
    ensures
        !old(managers).live().contains_key(h) ==> r == -1 && final(managers).live() == old(
            managers,
        ).live() && reported(*final(errors), ErrorKind::NullPointer),
        old(managers).live().contains_key(h) ==> match bridged {
            Ok(p) => {
                &&& r == 0
                &&& final(managers).live().contains_key(h)
                &&& final(managers).live()[h].plugins() == old(managers).live()[h].plugins().push(p)
                &&& final(managers).live() == old(managers).live().insert(h, final(managers).live()[h])
                &&& *final(errors) == *old(errors)
            },
            Err(f) => {
                &&& r == -1
                &&& final(managers).live() == old(managers).live()
                &&& final(errors).pending matches Some(last) && last.error.chain() == seq![
                    "Loading plugin failed"@,
                    bridge_message(f),
                    bridge_cause(f),
                ] && last.error.kind == (match f {
                    BridgeFailure::Open(_) => ErrorKind::LoadError,
                    BridgeFailure::Symbol(_) => ErrorKind::SymbolMissing,
                })
            },
        },
{
    match managers.take(h) {
        None => {
            report_null(errors, "Null pointer passed as the plugin manager");
            -1
        },
        Some(manager) => {
            let mut manager = manager;
            let outcome = manager.load_plugin(bridged);
            managers.put(h, manager);
            assert(final(managers).live() =~= old(managers).live().insert(h, final(managers).live()[h]));
            match outcome {
                Ok(()) => 0,
                Err(e) => {
                    let ghost inner = e.chain();
                    let e = e.context("Loading plugin failed");
                    assert(e.chain() =~= seq!["Loading plugin failed"@] + inner);
                    update_last_error(errors, e);
                    -1
                },
            }
        },
    }
}

/// Unload every plugin of the manager `h`, in load order: 0, or -1 with a
/// recorded failure when the handle is dead.
pub fn plugin_manager_unload<P: Plugin>(
    managers: &mut Table<PluginManager<P>>,
    errors: &mut ErrorChannel,
    h: usize,
) -> (r: i32)
    ensures
        !old(managers).live().contains_key(h) ==> r == -1 && final(managers).live() == old(
            managers,
        ).live() && reported(*final(errors), ErrorKind::NullPointer),
        old(managers).live().contains_key(h) ==> {
            &&& r == 0
            &&& final(managers).live().contains_key(h)
            &&& final(managers).live()[h].plugins() == Seq::<P>::empty()
            &&& final(managers).live()[h].history() == old(managers).live()[h].history() + calls(
                Hook::Unload,
                old(managers).live()[h].plugins(),
            )
            &&& final(managers).live() == old(managers).live().insert(h, final(managers).live()[h])
            &&& *final(errors) == *old(errors)
        },
{
    match managers.take(h) {
        None => {
            report_null(errors, "Null pointer passed as the plugin manager");
            -1
        },
        Some(manager) => {
            let mut manager = manager;
            manager.unload();
            managers.put(h, manager);
            assert(final(managers).live() =~= old(managers).live().insert(h, final(managers).live()[h]));
            0
        },
    }
}

/// Run the `pre_send` hooks of the manager `pm` on the request `req`: 0, or
/// -1 with a recorded failure when either handle is dead.
pub fn plugin_manager_pre_send<P: Plugin>(
    managers: &mut Table<PluginManager<P>>,
    requests: &mut Table<Request>,
    errors: &mut ErrorChannel,
    pm: usize,
    req: usize,
) -> (r: i32)
    ensures
        old(managers).live().contains_key(pm) && old(requests).live().contains_key(req) ==> {
            &&& r == 0
            &&& final(requests).live().contains_key(req)
            &&& final(managers).live().contains_key(pm)
            &&& pre_sent(
                old(managers).live()[pm].plugins(),
                old(requests).live()[req],
                final(requests).live()[req],
            )
            &&& final(requests).live() == old(requests).live().insert(req, final(requests).live()[req])
            &&& final(managers).live()[pm].plugins() == old(managers).live()[pm].plugins()
            &&& final(managers).live()[pm].history() == old(managers).live()[pm].history() + calls(
                Hook::PreSend,
                old(managers).live()[pm].plugins(),
            )
            &&& final(managers).live() == old(managers).live().insert(pm, final(managers).live()[pm])
            &&& *final(errors) == *old(errors)
        },
        !(old(managers).live().contains_key(pm) && old(requests).live().contains_key(req)) ==> r
            == -1 && final(requests).live() == old(requests).live() && final(managers).live() == old(
            managers,
        ).live() && reported(*final(errors), ErrorKind::NullPointer),
{
    if !managers.contains(pm) {
        report_null(errors, "Null pointer passed as the plugin manager");
        return -1;
    }
    match requests.take(req) {
        None => {
            report_null(errors, "Null pointer passed as the request");
            -1
        },
        Some(request) => {
            let mut request = request;
            match managers.take(pm) {
                Some(manager) => {
                    let mut manager = manager;
                    manager.pre_send(&mut request);
                    managers.put(pm, manager);
                },
                None => {},
            }
            requests.put(req, request);
            assert(final(requests).live() =~= old(requests).live().insert(req, final(requests).live()[req]));
            assert(final(managers).live() =~= old(managers).live().insert(pm, final(managers).live()[pm]));
            0
        },
    }
}

/// Run the `post_receive` hooks of the manager `pm` on the response `res`:
/// 0, or -1 with a recorded failure when either handle is dead.
pub fn plugin_manager_post_receive<P: Plugin>(
    managers: &mut Table<PluginManager<P>>,
    responses: &mut Table<Response>,
    errors: &mut ErrorChannel,
    pm: usize,
    res: usize,
) -> (r: i32)
    ensures
        old(managers).live().contains_key(pm) && old(responses).live().contains_key(res) ==> {
            &&& r == 0
            &&& final(responses).live().contains_key(res)
            &&& final(managers).live().contains_key(pm)
            &&& post_received(
                old(managers).live()[pm].plugins(),
                old(responses).live()[res],
                final(responses).live()[res],
            )
            &&& final(responses).live() == old(responses).live().insert(res, final(responses).live()[res])
            &&& final(managers).live()[pm].plugins() == old(managers).live()[pm].plugins()
            &&& final(managers).live()[pm].history() == old(managers).live()[pm].history() + calls(
                Hook::PostReceive,
                old(managers).live()[pm].plugins(),
            )
            &&& final(managers).live() == old(managers).live().insert(pm, final(managers).live()[pm])
            &&& *final(errors) == *old(errors)
        },
        !(old(managers).live().contains_key(pm) && old(responses).live().contains_key(res)) ==> r
            == -1 && final(responses).live() == old(responses).live() && final(managers).live()
            == old(managers).live() && reported(*final(errors), ErrorKind::NullPointer),
{
    if !managers.contains(pm) {
        report_null(errors, "Null pointer passed as the plugin manager");
        return -1;
    }
    match responses.take(res) {
        None => {
            report_null(errors, "Null pointer passed as the response");
            -1
        },
        Some(response) => {
            let mut response = response;
            match managers.take(pm) {
                Some(manager) => {
                    let mut manager = manager;
                    manager.post_receive(&mut response);
                    managers.put(pm, manager);
                },
                None => {},
            }
            responses.put(res, response);
            assert(final(responses).live() =~= old(responses).live().insert(res, final(responses).live()[res]));
            assert(final(managers).live() =~= old(managers).live().insert(pm, final(managers).live()[pm]));
            0
        },
    }
}

} // verus!
