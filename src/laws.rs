//! Properties that relate several operations, proved over the models that
//! the operations' contracts use.
use vstd::prelude::*;
use crate::pipeline::{exchange_outcome, reply_response};
use crate::plugins::{calls, post_receive_chain, pre_send_chain, pre_sent, Hook, Plugin};
use crate::buffer::written;
use crate::pipeline::accept_outcome;
use crate::response::{is_error_status, Reply, Response};
use crate::table::Table;
use crate::error::Error;
use crate::request::Request;

verus! {

/// With no plugin loaded, running the `pre_send` hooks leaves a request as
/// it was.
pub proof fn lemma_pre_send_without_plugins<P: Plugin>(before: Request, after: Request)
    requires
        pre_sent(Seq::<P>::empty(), before, after),
    ensures
        after == before,
{
}

/// With no plugin loaded, a reply whose status is not an error comes back
/// as the response, status, headers and body unchanged.
pub proof fn lemma_exchange_without_plugins<P: Plugin>(reply: Reply, r: Result<Response, Error>)
    requires
        !is_error_status(reply.status),
        exchange_outcome(Seq::<P>::empty(), Ok::<Reply, String>(reply), r),
    ensures
        r == Ok::<Response, Error>(reply_response(reply)),
{
    let res = r->Ok_0;
    let states = choose|states: Seq<Response>|
        post_receive_chain(Seq::<P>::empty(), states) && states[0] == reply_response(reply)
            && states.last() == res;
    assert(states.len() == 1);
}

/// With one plugin loaded, running the `pre_send` hooks is running that
/// plugin's hook once.
pub proof fn lemma_pre_send_single<P: Plugin>(p: P, before: Request, after: Request)
    ensures
        pre_sent(seq![p], before, after) <==> p.pre_send_effect(before, after),
{
    if pre_sent(seq![p], before, after) {
        let states = choose|states: Seq<Request>|
            pre_send_chain(seq![p], states) && states[0] == before && states.last() == after;
        assert(seq![p][0].pre_send_effect(states[0], states[1]));
    }
    if p.pre_send_effect(before, after) {
        let states = seq![before, after];
        assert(pre_send_chain(seq![p], states));
        assert(states[0] == before && states.last() == after);
    }
}

/// Loading one more plugin runs its `pre_send` hook once, after the hooks
/// of all the plugins loaded before it, on the request they produced.
pub proof fn lemma_pre_send_load_order<P: Plugin>(
    plugins: Seq<P>,
    p: P,
    before: Request,
    after: Request,
)
    ensures
        pre_sent(plugins.push(p), before, after) <==> exists|mid: Request|
            pre_sent(plugins, before, mid) && p.pre_send_effect(mid, after),
{
    let all = plugins.push(p);
    let n = plugins.len() as int;
    if pre_sent(all, before, after) {
        let states = choose|states: Seq<Request>|
            pre_send_chain(all, states) && states[0] == before && states.last() == after;
        let front = states.subrange(0, n + 1);
        assert forall|i: int| 0 <= i < n implies #[trigger] plugins[i].pre_send_effect(
            front[i],
            front[i + 1],
        ) by {
            assert(all[i] == plugins[i]);
        }
        assert(pre_send_chain(plugins, front));
        assert(all[n] == p);
        assert(p.pre_send_effect(states[n], states[n + 1]));
        assert(front[0] == before && front.last() == states[n]);
        assert(pre_sent(plugins, before, states[n]));
    }
    if exists|mid: Request| pre_sent(plugins, before, mid) && p.pre_send_effect(mid, after) {
        let mid = choose|mid: Request| pre_sent(plugins, before, mid) && p.pre_send_effect(mid, after);
        let front = choose|states: Seq<Request>|
            pre_send_chain(plugins, states) && states[0] == before && states.last() == mid;
        let states = front.push(after);
        assert forall|i: int| 0 <= i < all.len() implies #[trigger] all[i].pre_send_effect(
            states[i],
            states[i + 1],
        ) by {
            if i < n {
                assert(all[i] == plugins[i]);
                assert(states[i] == front[i]);
                assert(states[i + 1] == front[i + 1]);
            } else {
                assert(all[i] == p);
                assert(states[i] == mid);
            }
        }
        assert(pre_send_chain(all, states));
        assert(states.last() == after);
    }
}

/// The hook history after unloading `plugins` on top of `history`.
pub open spec fn unloaded<P>(history: Seq<(Hook, P)>, plugins: Seq<P>) -> Seq<(Hook, P)> {
    history + calls(Hook::Unload, plugins)
}

/// Unloading twice is unloading once: the second unload finds no plugin and
/// fires nothing.
pub proof fn lemma_unload_twice<P>(history: Seq<(Hook, P)>, plugins: Seq<P>)
    ensures
        unloaded(unloaded(history, plugins), Seq::<P>::empty()) == unloaded(history, plugins),
        unloaded(history, plugins).len() == history.len() + plugins.len(),
        forall|i: int|
            0 <= i < plugins.len() ==> #[trigger] unloaded(history, plugins)[history.len() + i]
                == (Hook::Unload, plugins[i]),
{
    assert(unloaded(unloaded(history, plugins), Seq::<P>::empty()) =~= unloaded(history, plugins));
}

/// Destroying a handle twice is destroying it once, and afterwards it
/// designates nothing.
pub proof fn lemma_destroy_twice<T>(live: Map<usize, T>, h: usize)
    ensures
        live.remove(h).remove(h) == live.remove(h),
        !live.remove(h).contains_key(h),
{
    assert(live.remove(h).remove(h) =~= live.remove(h));
}

/// Destroying through the null handle leaves every table as it was.
pub proof fn lemma_destroy_null<T>(table: Table<T>)
    ensures
        table.live().remove(0) == table.live(),
{
    table.lemma_null_not_live();
    assert(table.live().remove(0) =~= table.live());
}

/// A reply whose status is not an error, sent with no hook, becomes a
/// response with the reply's body; copying that body into a buffer that can
/// hold it puts exactly those bytes at the buffer's start.
pub proof fn lemma_body_round_trip(
    reply: Reply,
    outcome: Result<Response, Error>,
    buffer: Seq<u8>,
)
    requires
        !is_error_status(reply.status),
        accept_outcome(Ok::<Reply, String>(reply), outcome),
        reply.body@.len() <= buffer.len(),
    ensures
        outcome matches Ok(res) && res.body == reply.body && written(buffer, res.body@).subrange(
            0,
            reply.body@.len() as int,
        ) == reply.body@,
{
    let res = outcome->Ok_0;
    assert(written(buffer, res.body@).subrange(0, reply.body@.len() as int) =~= reply.body@);
}

} // verus!
