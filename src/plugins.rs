//! Plugins and the manager that owns them and runs their hooks in load
//! order.
use vstd::prelude::*;
use crate::error::{Error, ErrorKind};
use crate::request::Request;
use crate::response::Response;

verus! {

/// A plugin which adds extra behaviour to the client.
///
/// An implementation may state what each interception hook does through
/// the relations `pre_send_effect` and `post_receive_effect`; the manager's
/// contracts compose those relations in load order. By default a hook may
/// make any change.
///
/// A hook is trusted not to panic past its own boundary; one that does is
/// a fatal error of the process.
pub trait Plugin {
    /// How `pre_send` may change a request.
    open spec fn pre_send_effect(&self, before: Request, after: Request) -> bool {
        true
    }

    /// How `post_receive` may change a response.
    open spec fn post_receive_effect(&self, before: Response, after: Response) -> bool {
        true
    }

    /// A name describing the plugin.
    fn name(&self) -> &'static str;

    /// Fired immediately after the plugin is loaded.
    fn on_plugin_load(&self);

    /// Fired immediately before the plugin is unloaded.
    fn on_plugin_unload(&self);

    /// Inspect and possibly change a request before it is sent.
    fn pre_send(&self, request: &mut Request)
        ensures
            self.pre_send_effect(*old(request), *final(request)),
    ;

    /// Inspect and possibly change a response after it is received.
    fn post_receive(&self, response: &mut Response)
        ensures
            self.post_receive_effect(*old(response), *final(response)),
    ;
}

/// `states` runs from the first request through each plugin's `pre_send`
/// in order: one step per plugin.
pub open spec fn pre_send_chain<P: Plugin>(plugins: Seq<P>, states: Seq<Request>) -> bool {
    &&& states.len() == plugins.len() + 1
    &&& forall|i: int|
        0 <= i < plugins.len() ==> #[trigger] plugins[i].pre_send_effect(states[i], states[i + 1])
}

/// `states` runs from the first response through each plugin's
/// `post_receive` in order: one step per plugin.
pub open spec fn post_receive_chain<P: Plugin>(plugins: Seq<P>, states: Seq<Response>) -> bool {
    &&& states.len() == plugins.len() + 1
    &&& forall|i: int|
        0 <= i < plugins.len() ==> #[trigger] plugins[i].post_receive_effect(
            states[i],
            states[i + 1],
        )
}

/// Running every plugin's `pre_send` in load order takes `before` to `after`.
pub open spec fn pre_sent<P: Plugin>(plugins: Seq<P>, before: Request, after: Request) -> bool {
    exists|states: Seq<Request>|
        pre_send_chain(plugins, states) && states[0] == before && states.last() == after
}

/// Running every plugin's `post_receive` in load order takes `before` to
/// `after`.
pub open spec fn post_received<P: Plugin>(
    plugins: Seq<P>,
    before: Response,
    after: Response,
) -> bool {
    exists|states: Seq<Response>|
        post_receive_chain(plugins, states) && states[0] == before && states.last() == after
}

/// A hook call that the manager made.
pub enum Hook {
    Load,
    Unload,
    PreSend,
    PostReceive,
}

/// The calls of hook `hook` on each of `plugins`, in order.
pub open spec fn calls<P>(hook: Hook, plugins: Seq<P>) -> Seq<(Hook, P)> {
    plugins.map_values(|p: P| (hook, p))
}

/// Why the dynamic-library bridge could not produce a plugin, with the
/// loader's own message.
#[derive(Debug)]
pub enum BridgeFailure {
    /// The path is not a loadable native module here.
    Open(String),
    /// The module does not export the plugin entry symbol.
    Symbol(String),
}

/// The message with which a load failure is reported.
pub open spec fn bridge_message(f: BridgeFailure) -> Seq<char> {
    match f {
        BridgeFailure::Open(_) => "Unable to load the plugin"@,
        BridgeFailure::Symbol(_) => "The plugin entry symbol wasn't found"@,
    }
}

/// The loader's message inside a bridge failure.
pub open spec fn bridge_cause(f: BridgeFailure) -> Seq<char> {
    match f {
        BridgeFailure::Open(m) => m@,
        BridgeFailure::Symbol(m) => m@,
    }
}

/// The error that reports a bridge failure: `LoadError` for a module that
/// does not load, `SymbolMissing` for one without the entry symbol.
pub fn bridge_error(failure: BridgeFailure) -> (r: Error)
    ensures
        r.kind == (match failure {
            BridgeFailure::Open(_) => ErrorKind::LoadError,
            BridgeFailure::Symbol(_) => ErrorKind::SymbolMissing,
        }),
        r.chain() == seq![bridge_message(failure), bridge_cause(failure)],
{
    let r = match failure {
        BridgeFailure::Open(m) => Error::new(ErrorKind::LoadError, m.as_str()).context(
            "Unable to load the plugin",
        ),
        BridgeFailure::Symbol(m) => Error::new(ErrorKind::SymbolMissing, m.as_str()).context(
            "The plugin entry symbol wasn't found",
        ),
    };
    assert(r.chain() =~= seq![bridge_message(failure), bridge_cause(failure)]);
    r
}

/// Owns the loaded plugins, in load order. `unload` is what tells them
/// they are going away; a plugin that needs that notice even when its
/// manager is dropped without `unload` gives it in its own `Drop`.
pub struct PluginManager<P: Plugin> {
    plugins: Vec<P>,
    history: Ghost<Seq<(Hook, P)>>,
}

impl<P: Plugin> PluginManager<P> {
    /// The loaded plugins, in load order.
    pub closed spec fn plugins(&self) -> Seq<P> {
        self.plugins@
    }

    /// Every hook call the manager has made, oldest first.
    pub closed spec fn history(&self) -> Seq<(Hook, P)> {
        self.history@
    }

    /// An empty manager.
    pub fn new() -> (r: PluginManager<P>)
        ensures
            r.plugins() == Seq::<P>::empty(),
            r.history() == Seq::<(Hook, P)>::empty(),
    {
        PluginManager { plugins: Vec::new(), history: Ghost(Seq::empty()) }
    }

    /// The number of loaded plugins.
    pub fn len(&self) -> (r: usize)
        ensures
            r == self.plugins().len(),
    {
        self.plugins.len()
    }

    /// Register what the bridge produced: a plugin is told it was loaded and
    /// then goes after the others; a bridge failure is reported and leaves
    /// the manager as it was.
    pub fn load_plugin(&mut self, bridged: Result<P, BridgeFailure>) -> (r: Result<(), Error>)
        ensures
            match bridged {
                Ok(p) => {
                    &&& r is Ok
                    &&& final(self).plugins() == old(self).plugins().push(p)
                    &&& final(self).history() == old(self).history().push((Hook::Load, p))
                },
                Err(f) => {
                    &&& r matches Err(e) && e.chain() == seq![bridge_message(f), bridge_cause(f)]
                        && e.kind == (match f {
                        BridgeFailure::Open(_) => ErrorKind::LoadError,
                        BridgeFailure::Symbol(_) => ErrorKind::SymbolMissing,
                    })
                    &&& *final(self) == *old(self)
                },
            },
    {
        match bridged {
            Ok(plugin) => {
                plugin.on_plugin_load();
                self.history = Ghost(self.history@.push((Hook::Load, plugin)));
                self.plugins.push(plugin);
                Ok(())
            },
            Err(failure) => Err(bridge_error(failure)),
        }
    }

    /// Run every plugin's `pre_send` hook on `request`, once each, in load
    /// order.
    pub fn pre_send(&mut self, request: &mut Request)
        ensures
            pre_sent(old(self).plugins(), *old(request), *final(request)),
            final(self).plugins() == old(self).plugins(),
            final(self).history() == old(self).history() + calls(Hook::PreSend, old(self).plugins()),
    {
        let ghost all = self.plugins();
        let ghost start = self.history@;
        let ghost mut states: Seq<Request> = seq![*request];
        let mut i: usize = 0;
        while i < self.plugins.len()
            invariant
                i <= self.plugins@.len(),
                self.plugins() == all,
                all.len() == self.plugins@.len(),
                self.history@ == start + calls(Hook::PreSend, all.subrange(0, i as int)),
                states.len() == i + 1,
                states[0] == *old(request),
                states[i as int] == *request,
                forall|j: int|
                    0 <= j < i ==> #[trigger] all[j].pre_send_effect(states[j], states[j + 1]),
            decreases self.plugins@.len() - i,
        {
            self.plugins[i].pre_send(request);
            proof {
                assert(all.subrange(0, i + 1) =~= all.subrange(0, i as int).push(all[i as int]));
                assert(calls(Hook::PreSend, all.subrange(0, i + 1)) =~= calls(
                    Hook::PreSend,
                    all.subrange(0, i as int),
                ).push((Hook::PreSend, all[i as int])));
                states = states.push(*request);
            }
            self.history = Ghost(self.history@.push((Hook::PreSend, all[i as int])));
            i = i + 1;
        }
        assert(all.subrange(0, i as int) =~= all);
        assert(pre_send_chain(all, states) && states.last() == *request);
    }

    /// Run every plugin's `post_receive` hook on `response`, once each, in
    /// load order.
    pub fn post_receive(&mut self, response: &mut Response)
        ensures
            post_received(old(self).plugins(), *old(response), *final(response)),
            final(self).plugins() == old(self).plugins(),
            final(self).history() == old(self).history() + calls(
                Hook::PostReceive,
                old(self).plugins(),
            ),
    {
        let ghost all = self.plugins();
        let ghost start = self.history@;
        let ghost mut states: Seq<Response> = seq![*response];
        let mut i: usize = 0;
        while i < self.plugins.len()
            invariant
                i <= self.plugins@.len(),
                self.plugins() == all,
                all.len() == self.plugins@.len(),
                self.history@ == start + calls(Hook::PostReceive, all.subrange(0, i as int)),
                states.len() == i + 1,
                states[0] == *old(response),
                states[i as int] == *response,
                forall|j: int|
                    0 <= j < i ==> #[trigger] all[j].post_receive_effect(states[j], states[j + 1]),
            decreases self.plugins@.len() - i,
        {
            self.plugins[i].post_receive(response);
            proof {
                assert(all.subrange(0, i + 1) =~= all.subrange(0, i as int).push(all[i as int]));
                assert(calls(Hook::PostReceive, all.subrange(0, i + 1)) =~= calls(
                    Hook::PostReceive,
                    all.subrange(0, i as int),
                ).push((Hook::PostReceive, all[i as int])));
                states = states.push(*response);
            }
            self.history = Ghost(self.history@.push((Hook::PostReceive, all[i as int])));
            i = i + 1;
        }
        assert(all.subrange(0, i as int) =~= all);
        assert(post_receive_chain(all, states) && states.last() == *response);
    }

    /// Unload every plugin in load order: each is told it is being unloaded
    /// and is then released. Afterwards the manager is empty; on an empty
    /// manager this does nothing.
    pub fn unload(&mut self)
        ensures
            final(self).plugins() == Seq::<P>::empty(),
            final(self).history() == old(self).history() + calls(Hook::Unload, old(self).plugins()),
    {
        let ghost all = self.plugins();
        let ghost start = self.history@;
        while self.plugins.len() > 0
            invariant
                self.plugins@.len() <= all.len(),
                self.plugins() == all.subrange(all.len() - self.plugins@.len(), all.len() as int),
                self.history@ == start + calls(
                    Hook::Unload,
                    all.subrange(0, all.len() - self.plugins@.len()),
                ),
            decreases self.plugins@.len(),
        {
            let ghost done = all.len() - self.plugins@.len();
            let ghost rest = self.plugins@;
            let entry = self.plugins.remove(0);
            proof {
                assert(rest[0] == all[done]);
                assert(all.subrange(0, done + 1) =~= all.subrange(0, done).push(all[done]));
                assert(calls(Hook::Unload, all.subrange(0, done + 1)) =~= calls(
                    Hook::Unload,
                    all.subrange(0, done),
                ).push((Hook::Unload, all[done])));
                assert(self.plugins() =~= all.subrange(
                    all.len() - self.plugins@.len(),
                    all.len() as int,
                ));
            }
            entry.on_plugin_unload();
            self.history = Ghost(self.history@.push((Hook::Unload, entry)));
        }
        assert(all.subrange(0, all.len() as int) =~= all);
        assert(self.plugins() =~= Seq::<P>::empty());
    }
}

} // verus!
