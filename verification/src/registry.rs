//! The command registry: an immutable mapping from command name to handler,
//! built once at startup, plus the dispatch step that resolves an inbound
//! interaction to exactly one handler invocation.
//!
//! Handlers form a closed set of variants behind one capability: given the
//! interaction and the shared context (cache, application identity),
//! produce a response or fail. The dispatcher knows nothing of handler
//! internals beyond that capability.

use vstd::prelude::*;
use vstd::pervasive::VecAdditionalExecFns;

use crate::cache::StateCache;
use crate::endpoint::ApplicationEndpoint;
use crate::events::{Interaction, ResourceKey, ResourceKind};

verus! {

/// The response a handler produced; the process around the core renders it
/// and sends it through the interaction-response endpoint.
#[derive(Clone, Debug, PartialEq, Eq)]
pub enum Response {
    /// A fixed text reply.
    Text(String),
    /// The cached payload of the targeted resource.
    ResourceContent(u64),
}

/// Why a handler could not produce a response.
#[derive(Clone, Copy, Debug, PartialEq, Eq, Structural)]
pub enum HandlerError {
    /// The command needs a cached snapshot of its target and none is
    /// retained.
    TargetNotCached,
}

/// Why an interaction was not answered.
#[derive(Clone, Copy, Debug, PartialEq, Eq, Structural)]
pub enum DispatchError {
    /// No handler is registered under the interaction's command name.
    UnknownCommand,
    /// The application identity is not resolved yet; the caller reports
    /// "not ready" rather than blocking.
    NotReady,
    /// The handler ran and failed; the failure is isolated to this one
    /// interaction.
    HandlerFailed(HandlerError),
}

/// One command handler. Adding a command means adding a variant here and
/// registering it at startup; the dispatcher never changes.
#[derive(Clone, Debug)]
pub enum CommandHandler {
    /// Replies with a fixed text.
    Reply(String),
    /// Looks the targeted message up in the cache and reports its payload.
    ShowMessage,
}

impl CommandHandler {
    /// The outcome of running this handler on an interaction against a
    /// cache state: the single capability the dispatcher relies on.
    pub open spec fn spec_outcome(
        self,
        interaction: Interaction,
        cache: Map<ResourceKey, u64>,
    ) -> Result<Response, HandlerError> {
        match self {
            CommandHandler::Reply(text) => Ok(Response::Text(text)),
            CommandHandler::ShowMessage => {
                let key = ResourceKey {
                    kind: ResourceKind::Message,
                    guild_id: interaction.guild_id,
                    resource_id: interaction.target_id,
                };
                if cache.contains_key(key) {
                    Ok(Response::ResourceContent(cache[key]))
                } else {
                    Err(HandlerError::TargetNotCached)
                }
            },
        }
    }

    /// Runs the handler, reading the shared cache, never mutating it.
    pub fn execute(&self, interaction: &Interaction, cache: &StateCache) -> (r: Result<
        Response,
        HandlerError,
    >)
        requires
            cache.wf(),
        ensures
            r == self.spec_outcome(*interaction, cache@),
    {
        match self {
            CommandHandler::Reply(text) => Ok(Response::Text(text.clone())),
            CommandHandler::ShowMessage => {
                let key = ResourceKey {
                    kind: ResourceKind::Message,
                    guild_id: interaction.guild_id,
                    resource_id: interaction.target_id,
                };
                match cache.get(key) {
                    Some(snapshot) => Ok(Response::ResourceContent(snapshot.content)),
                    None => Err(HandlerError::TargetNotCached),
                }
            },
        }
    }
}

/// No two registered names are the same.
pub open spec fn unique_names(s: Seq<(String, CommandHandler)>) -> bool {
    forall|i: int, j: int| 0 <= i < j < s.len() ==> (#[trigger] s[i]).0@ != (#[trigger] s[j]).0@
}

/// The mapping a registration sequence stands for; later entries win.
pub open spec fn names_map(s: Seq<(String, CommandHandler)>) -> Map<Seq<char>, CommandHandler>
    decreases s.len(),
{
    if s.len() == 0 {
        Map::empty()
    } else {
        names_map(s.drop_last()).insert(s.last().0@, s.last().1)
    }
}

/// Mapping from command name to handler; built at startup, read-only
/// afterwards, safe for unsynchronized concurrent reads.
pub struct CommandRegistry {
    /// The registered commands, at most one entry per name.
    pub entries: Vec<(String, CommandHandler)>,
}

impl View for CommandRegistry {
    type V = Map<Seq<char>, CommandHandler>;

    open spec fn view(&self) -> Map<Seq<char>, CommandHandler> {
        names_map(self.entries@)
    }
}

impl CommandRegistry {
    /// One handler per name.
    pub open spec fn wf(&self) -> bool {
        unique_names(self.entries@)
    }

    /// An empty registry.
    pub fn new() -> (r: CommandRegistry)
        ensures
            r.wf(),
            r@ == Map::<Seq<char>, CommandHandler>::empty(),
    {
        CommandRegistry { entries: Vec::new() }
    }

    /// Index of the entry registered under `name`, if any.
    fn find(&self, name: &String) -> (r: Option<usize>)
        ensures
            match r {
                Some(i) => i < self.entries@.len() && self.entries@[i as int].0@ == name@,
                None => forall|j: int|
                    0 <= j < self.entries@.len() ==> (#[trigger] self.entries@[j]).0@ != name@,
            },
    {
        let mut i: usize = 0;
        while i < self.entries.len()
            invariant
                i <= self.entries@.len(),
                forall|j: int| 0 <= j < i ==> (#[trigger] self.entries@[j]).0@ != name@,
            decreases self.entries@.len() - i,
        {
            if self.entries[i].0.eq(name) {
                return Some(i);
            }
            i = i + 1;
        }
        None
    }

    /// Registers `handler` under `name` at startup, replacing an earlier
    /// registration of the same name.
    pub fn register(&mut self, name: String, handler: CommandHandler)
        requires
            old(self).wf(),
        ensures
            final(self).wf(),
            final(self)@ == old(self)@.insert(name@, handler),
    {
        match self.find(&name) {
            Some(i) => {
                proof {
                    lemma_names_map_set(self.entries@, i as int, (name, handler));
                }
                self.entries.set(i, (name, handler));
            },
            None => {
                proof {
                    lemma_names_map_push(self.entries@, (name, handler));
                }
                self.entries.push((name, handler));
            },
        }
    }

    /// The handler registered under `name`, if any.
    pub fn lookup(&self, name: &String) -> (r: Option<&CommandHandler>)
        requires
            self.wf(),
        ensures
            r is Some <==> self@.contains_key(name@),
            r is Some ==> *r->0 == self@[name@],
    {
        proof {
            lemma_names_map_props(self.entries@);
        }
        match self.find(name) {
            Some(i) => Some(&self.entries[i].1),
            None => None,
        }
    }

    /// Resolves the interaction's command name and invokes the one handler
    /// registered under it, exactly once.
    ///
    /// - An unregistered name is `UnknownCommand`, and no handler runs.
    /// - A registered name with the application identity still unresolved
    ///   is `NotReady`: the caller reports that rather than blocking.
    /// - Otherwise the outcome is exactly one execution of the registered
    ///   handler, its failure translated to `HandlerFailed`.
    pub fn dispatch(
        &self,
        interaction: &Interaction,
        cache: &StateCache,
        endpoint: &ApplicationEndpoint,
    ) -> (r: Result<Response, DispatchError>)
        requires
            self.wf(),
            cache.wf(),
        ensures
            r is Err && r->Err_0 == DispatchError::UnknownCommand <==> !self@.contains_key(
                interaction.command@,
            ),
            self@.contains_key(interaction.command@) && endpoint.value is None <==> r is Err
                && r->Err_0 == DispatchError::NotReady,
            self@.contains_key(interaction.command@) && endpoint.value is Some ==> r == (
            match self@[interaction.command@].spec_outcome(*interaction, cache@) {
                Ok(response) => Ok(response),
                Err(cause) => Err(DispatchError::HandlerFailed(cause)),
            }),
    {
        let handler = match self.lookup(&interaction.command) {
            Some(h) => h,
            None => {
                return Err(DispatchError::UnknownCommand);
            },
        };
        if endpoint.current().is_none() {
            return Err(DispatchError::NotReady);
        }
        match handler.execute(interaction, cache) {
            Ok(response) => Ok(response),
            Err(cause) => Err(DispatchError::HandlerFailed(cause)),
        }
    }
}

/// In a duplicate-free registration sequence, the mapping holds exactly the
/// registered names, each at its handler.
pub proof fn lemma_names_map_props(s: Seq<(String, CommandHandler)>)
    requires
        unique_names(s),
    ensures
        forall|n: Seq<char>| #[trigger]
            names_map(s).contains_key(n) ==> exists|i: int| 0 <= i < s.len() && s[i].0@ == n,
        forall|i: int|
            0 <= i < s.len() ==> names_map(s).contains_key((#[trigger] s[i]).0@)
                && names_map(s)[s[i].0@] == s[i].1,
    decreases s.len(),
{
    if s.len() > 0 {
        lemma_names_map_props(s.drop_last());
        assert forall|i: int|
            0 <= i < s.len() implies names_map(s).contains_key((#[trigger] s[i]).0@)
            && names_map(s)[s[i].0@] == s[i].1 by {
            if i < s.len() - 1 {
                assert(s.drop_last()[i] == s[i]);
                assert(s[i].0@ != s.last().0@);
            }
        }
        assert forall|n: Seq<char>| #[trigger]
            names_map(s).contains_key(n) implies exists|i: int| 0 <= i < s.len() && s[i].0@ == n by {
            if n != s.last().0@ {
                assert(names_map(s.drop_last()).contains_key(n));
                let i = choose|i: int| 0 <= i < s.drop_last().len() && s.drop_last()[i].0@ == n;
                assert(s[i].0@ == n);
            } else {
                assert(s[s.len() - 1].0@ == n);
            }
        }
    }
}

/// Replacing the entry at `i` by one of the same name updates the mapping
/// at that name alone.
pub proof fn lemma_names_map_set(s: Seq<(String, CommandHandler)>, i: int, v: (String, CommandHandler))
    requires
        unique_names(s),
        0 <= i < s.len(),
        s[i].0@ == v.0@,
    ensures
        unique_names(s.update(i, v)),
        names_map(s.update(i, v)) == names_map(s).insert(v.0@, v.1),
    decreases s.len(),
{
    let t = s.update(i, v);
    assert forall|x: int, y: int| 0 <= x < y < t.len() implies (#[trigger] t[x]).0@ != (
    #[trigger] t[y]).0@ by {
        assert(s[x].0@ != s[y].0@);
    }
    if i == s.len() - 1 {
        assert(t.drop_last() =~= s.drop_last());
        assert(names_map(t) =~= names_map(s).insert(v.0@, v.1));
    } else {
        assert(t.drop_last() =~= s.drop_last().update(i, v));
        assert(t.last() == s.last());
        lemma_names_map_set(s.drop_last(), i, v);
        assert(s[i].0@ != s.last().0@);
        assert(names_map(t) =~= names_map(s).insert(v.0@, v.1));
    }
}

/// Appending an entry with a fresh name adds exactly that name.
pub proof fn lemma_names_map_push(s: Seq<(String, CommandHandler)>, v: (String, CommandHandler))
    requires
        unique_names(s),
        forall|j: int| 0 <= j < s.len() ==> (#[trigger] s[j]).0@ != v.0@,
    ensures
        unique_names(s.push(v)),
        names_map(s.push(v)) == names_map(s).insert(v.0@, v.1),
{
    assert(s.push(v).drop_last() =~= s);
    assert(s.push(v).last() == v);
}

} // verus!
