//! The execution pipeline: `pre_send` hooks, the transport, the status
//! check, then `post_receive` hooks.
//!
//! The transport is whatever the caller hands in: a function from a request
//! to a reply or a failure message. Network I/O stays with the caller.
use vstd::prelude::*;
use crate::error::{Error, ErrorKind};
use crate::plugins::{calls, post_received, pre_sent, Hook, Plugin, PluginManager};
use crate::request::{Method, Request};
use crate::response::{is_error_status, Reply, Response};

verus! {

/// The response that a reply becomes once its status passed the check.
pub open spec fn reply_response(reply: Reply) -> Response {
    Response { status: reply.status, headers: reply.headers, body: reply.body }
}

/// What the pipeline reports for a transport outcome, given the plugins
/// whose `post_receive` hooks run on a response: a transport failure and an
/// error status are both `TransportError` and give no response.
pub open spec fn exchange_outcome<P: Plugin>(
    plugins: Seq<P>,
    reply: Result<Reply, String>,
    r: Result<Response, Error>,
) -> bool {
    match reply {
        Err(m) => r matches Err(e) && e.kind == ErrorKind::TransportError && e.chain() == seq![
            "The request failed"@,
            m@,
        ],
        Ok(rep) => if is_error_status(rep.status) {
            r matches Err(e) && e.kind == ErrorKind::TransportError
        } else {
            r matches Ok(res) && post_received(plugins, reply_response(rep), res)
        },
    }
}

/// What a transport outcome gives when no hook runs on the response.
pub open spec fn accept_outcome(reply: Result<Reply, String>, r: Result<Response, Error>) -> bool {
    match reply {
        Err(m) => r matches Err(e) && e.kind == ErrorKind::TransportError && e.chain() == seq![
            "The request failed"@,
            m@,
        ],
        Ok(rep) => if is_error_status(rep.status) {
            r matches Err(e) && e.kind == ErrorKind::TransportError
        } else {
            r == Ok::<Response, Error>(reply_response(rep))
        },
    }
}

/// Check a transport outcome: a failure or an error status becomes a
/// `TransportError`, any other reply a response.
fn accept(reply: Result<Reply, String>) -> (r: Result<Response, Error>)
    ensures
        accept_outcome(reply, r),
{
    match reply {
        Err(m) => {
            let e = Error::new(ErrorKind::TransportError, m.as_str());
            assert(e.chain() =~= seq![m@]);
            let e = e.context("The request failed");
            assert(e.chain() =~= seq!["The request failed"@, m@]);
            Err(e)
        },
        Ok(rep) => Response::from_reply(rep),
    }
}

/// Finish an exchange from the transport's outcome: check it, then run the
/// `post_receive` hooks, in load order, on the response.
pub fn complete_exchange<P: Plugin>(
    manager: &mut PluginManager<P>,
    reply: Result<Reply, String>,
) -> (r: Result<Response, Error>)
    ensures
        exchange_outcome(old(manager).plugins(), reply, r),
        final(manager).plugins() == old(manager).plugins(),
        r is Ok ==> final(manager).history() == old(manager).history() + calls(
            Hook::PostReceive,
            old(manager).plugins(),
        ),
        r is Err ==> final(manager).history() == old(manager).history(),
{
    match accept(reply) {
        Ok(response) => {
            let mut response = response;
            manager.post_receive(&mut response);
            Ok(response)
        },
        Err(e) => Err(e),
    }
}

/// Send a request: run the `pre_send` hooks on it in load order, hand the
/// result to `transport`, and finish the exchange from what came back.
pub fn send_request<P: Plugin, F: Fn(&Request) -> Result<Reply, String>>(
    manager: &mut PluginManager<P>,
    request: &mut Request,
    transport: F,
) -> (r: Result<Response, Error>)
    requires
        forall|q: &Request| transport.requires((q,)),
    ensures
        pre_sent(old(manager).plugins(), *old(request), *final(request)),
        exists|reply: Result<Reply, String>|
            transport.ensures((&*final(request),), reply) && exchange_outcome(
                old(manager).plugins(),
                reply,
                r,
            ),
        final(manager).plugins() == old(manager).plugins(),
        r is Ok ==> final(manager).history() == old(manager).history() + calls(
            Hook::PreSend,
            old(manager).plugins(),
        ) + calls(Hook::PostReceive, old(manager).plugins()),
        r is Err ==> final(manager).history() == old(manager).history() + calls(
            Hook::PreSend,
            old(manager).plugins(),
        ),
{
    manager.pre_send(request);
    let reply = transport(&*request);
    complete_exchange(manager, reply)
}

/// Hand a request to `transport` as it stands, with no hook, and check what
/// came back.
pub fn deliver<F: Fn(&Request) -> Result<Reply, String>>(request: &Request, transport: F) -> (r:
    Result<Response, Error>)
    requires
        forall|q: &Request| transport.requires((q,)),
    ensures
        exists|reply: Result<Reply, String>|
            transport.ensures((request,), reply) && accept_outcome(reply, r),
{
    let reply = transport(request);
    accept(reply)
}

/// Perform a single `GET` request without plugins: the request goes to
/// `transport` with its method set to `GET`.
pub fn get<F: Fn(&Request) -> Result<Reply, String>>(request: Request, transport: F) -> (r: Result<
    Response,
    Error,
>)
    requires
        forall|q: &Request| transport.requires((q,)),
    ensures
        exists|sent: Request, reply: Result<Reply, String>|
            {
                &&& sent.method == Method::Get
                &&& sent.destination == request.destination
                &&& sent.headers == request.headers
                &&& sent.cookies == request.cookies
                &&& sent.body == request.body
                &&& transport.ensures((&sent,), reply)
                &&& accept_outcome(reply, r)
            },
{
    let mut request = request;
    request.method = Method::Get;
    deliver(&request, transport)
}

} // verus!
