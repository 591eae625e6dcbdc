//! The composition root: one cluster, one cache, the application-identity
//! holder and the command registry, owned together and wired so that the
//! driver consumes events and command handlers reach only the shared
//! context, never the cluster.

use vstd::prelude::*;

use crate::cache::{spec_apply, StateCache};
use crate::cluster::ShardCluster;
use crate::config::{ClusterConfig, ConfigError};
use crate::endpoint::{ApplicationEndpoint, ApplicationIdentity};
use crate::events::{DispatchEvent, RESOURCE_MESSAGE};
use crate::registry::{CommandHandler, CommandRegistry, DispatchError, Response};

verus! {

/// The command table this bot starts with: `ping` answers with a fixed
/// text, `message` reports the cached payload of the targeted message.
pub fn build_registry() -> (r: CommandRegistry)
    ensures
        r.wf(),
        r@.contains_key("ping"@),
        r@["ping"@] matches CommandHandler::Reply(t) && t@ == "pong"@,
        r@.contains_key("message"@),
        r@["message"@] is ShowMessage,
        forall|n: Seq<char>| #[trigger] r@.contains_key(n) ==> n == "ping"@ || n == "message"@,
{
    proof {
        reveal_strlit("ping");
        reveal_strlit("message");
        assert("ping"@.len() == 4);
        assert("message"@.len() == 7);
    }
    let mut registry = CommandRegistry::new();
    registry.register("ping".to_owned(), CommandHandler::Reply("pong".to_owned()));
    registry.register("message".to_owned(), CommandHandler::ShowMessage);
    registry
}

/// Everything one bot process owns: built once at startup by
/// [`BotRuntime::new`], driven from outside by feeding decoded events to
/// [`BotRuntime::dispatch`].
pub struct BotRuntime {
    /// The configuration the process was started with.
    pub config: ClusterConfig,
    /// The shard sessions of this process, stepped by the driver.
    pub cluster: ShardCluster,
    /// Shared snapshot store; written only through [`BotRuntime::dispatch`].
    pub cache: StateCache,
    /// The lazily-resolved application identity.
    pub endpoint: ApplicationEndpoint,
    /// The immutable command table.
    pub registry: CommandRegistry,
}

impl BotRuntime {
    /// Every component is internally consistent.
    pub open spec fn wf(&self) -> bool {
        &&& self.cluster.wf()
        &&& self.cache.wf()
        &&& self.registry.wf()
    }

    /// Builds the runtime for a valid configuration: the cluster with one
    /// fresh session per shard id in `0 .. shards_per_cluster`, an empty
    /// cache retaining only message resources, an unresolved application
    /// identity, and the populated command table.
    pub fn new(config: ClusterConfig) -> (r: Result<BotRuntime, ConfigError>)
        ensures
            r is Ok <==> config.is_valid(),
            r is Err ==> r->Err_0 == (if config.shards_per_cluster == 0 {
                ConfigError::ZeroShardsPerCluster
            } else {
                ConfigError::ZeroTotalClusters
            }),
            r is Ok ==> {
                let rt = r->Ok_0;
                &&& rt.wf()
                &&& rt.config == config
                &&& rt.cluster.sessions@.len() == config.shards_per_cluster
                &&& forall|i: int|
                    0 <= i < rt.cluster.sessions@.len() ==> (
                    #[trigger] rt.cluster.sessions@[i]).state is Disconnected
                        && !rt.cluster.sessions@[i].halted
                &&& rt.cache.mask == RESOURCE_MESSAGE
                &&& rt.cache@ == Map::<crate::events::ResourceKey, u64>::empty()
                &&& rt.endpoint.value is None
                &&& rt.registry@.contains_key("ping"@)
                &&& rt.registry@.contains_key("message"@)
            },
    {
        let cluster = match ShardCluster::build(&config) {
            Ok(c) => c,
            Err(e) => {
                return Err(e);
            },
        };
        Ok(
            BotRuntime {
                config,
                cluster,
                cache: StateCache::new(RESOURCE_MESSAGE),
                endpoint: ApplicationEndpoint::new(),
                registry: build_registry(),
            },
        )
    }

    /// Handles one decoded event from the merged sequence: a state update
    /// is folded into the cache and produces no response; an interaction is
    /// dispatched to its registered handler, whose response the caller
    /// sends through the interaction-response endpoint.
    pub fn dispatch(&mut self, event: &DispatchEvent) -> (r: Result<Option<Response>, DispatchError>)
        requires
            old(self).wf(),
        ensures
            final(self).wf(),
            final(self).config == old(self).config,
            final(self).cluster == old(self).cluster,
            final(self).endpoint == old(self).endpoint,
            final(self).registry == old(self).registry,
            final(self).cache.mask == old(self).cache.mask,
            event matches DispatchEvent::StateUpdate { shard_id, event: update }
                ==> final(self).cache@ == spec_apply(old(self).cache@, old(self).cache.mask, *update)
                    && r == Ok::<Option<Response>, DispatchError>(None),
            event matches DispatchEvent::Interaction { shard_id, interaction } ==> {
                &&& final(self).cache == old(self).cache
                &&& (r is Err && r->Err_0 == DispatchError::UnknownCommand
                    <==> !old(self).registry@.contains_key(interaction.command@))
                &&& (old(self).registry@.contains_key(interaction.command@)
                    && old(self).endpoint.value is None
                    <==> r is Err && r->Err_0 == DispatchError::NotReady)
                &&& old(self).registry@.contains_key(interaction.command@)
                    && old(self).endpoint.value is Some
                    ==> r == (match old(self).registry@[interaction.command@].spec_outcome(
                        *interaction, old(self).cache@,
                    ) {
                        Ok(response) => Ok(Some(response)),
                        Err(cause) => Err(DispatchError::HandlerFailed(cause)),
                    })
            },
    {
        match event {
            DispatchEvent::StateUpdate { shard_id: _, event: update } => {
                self.cache.update(*update);
                Ok(None)
            },
            DispatchEvent::Interaction { shard_id: _, interaction } => {
                match self.registry.dispatch(interaction, &self.cache, &self.endpoint) {
                    Ok(response) => Ok(Some(response)),
                    Err(e) => Err(e),
                }
            },
        }
    }

    /// The shared cache, for command handlers and read-side lookups.
    pub fn cache(&self) -> (r: &StateCache)
        ensures
            r == &self.cache,
    {
        &self.cache
    }

    /// The application identity, or `None` while resolution is pending.
    pub fn application(&self) -> (r: Option<ApplicationIdentity>)
        ensures
            r == self.endpoint.value,
    {
        self.endpoint.current()
    }

    /// Stores the identity the driver's self-lookup returned; the first
    /// resolution wins and later ones observe it unchanged.
    pub fn resolve_application(&mut self, fetched: ApplicationIdentity) -> (r: ApplicationIdentity)
        requires
            old(self).wf(),
        ensures
            final(self).wf(),
            final(self).endpoint.value is Some,
            r == final(self).endpoint.value->0,
            old(self).endpoint.value is Some
                ==> final(self).endpoint.value == old(self).endpoint.value,
            old(self).endpoint.value is None ==> final(self).endpoint.value == Some(fetched),
            final(self).config == old(self).config,
            final(self).cluster == old(self).cluster,
            final(self).cache == old(self).cache,
            final(self).registry == old(self).registry,
    {
        self.endpoint.resolve(fetched)
    }
}

} // verus!
