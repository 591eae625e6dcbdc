//! The cluster and the composition root: shard assignment, configuration
//! rejection, event routing, resolution and shutdown.

use starboard::cluster::ShardCluster;
use starboard::config::{
    ClusterConfig, ConfigError, INTENT_GUILDS, INTENT_GUILD_MEMBERS, INTENT_GUILD_MESSAGES,
    INTENT_GUILD_MESSAGE_REACTIONS,
};
use starboard::endpoint::ApplicationIdentity;
use starboard::events::{
    DispatchEvent, Interaction, ResourceEvent, ResourceKey, ResourceKind, ResourceSnapshot,
};
use starboard::registry::{DispatchError, Response};
use starboard::runtime::BotRuntime;
use starboard::session::{SessionAction, SessionEvent, SessionState};

fn config(shards: u32, clusters: u32) -> ClusterConfig {
    ClusterConfig {
        token: "example-token".to_string(),
        shards_per_cluster: shards,
        total_clusters: clusters,
        intents: INTENT_GUILDS | INTENT_GUILD_MEMBERS | INTENT_GUILD_MESSAGES
            | INTENT_GUILD_MESSAGE_REACTIONS,
    }
}

#[test]
fn cluster_starts_one_session_per_shard_with_contiguous_ids() {
    let cluster = ShardCluster::build(&config(4, 2)).expect("valid configuration");
    assert_eq!(cluster.shard_count(), 4);
    for id in 0..4u32 {
        let session = cluster.session(id).expect("id in range");
        assert_eq!(session.id, id);
        assert_eq!(session.state, SessionState::Disconnected);
        assert!(!session.halted);
    }
    assert!(cluster.session(4).is_none());
}

#[test]
fn zero_shards_per_cluster_is_rejected() {
    assert!(matches!(
        ShardCluster::build(&config(0, 2)),
        Err(ConfigError::ZeroShardsPerCluster)
    ));
    assert!(matches!(
        BotRuntime::new(config(0, 2)),
        Err(ConfigError::ZeroShardsPerCluster)
    ));
}

#[test]
fn zero_total_clusters_is_rejected() {
    assert!(matches!(
        ShardCluster::build(&config(3, 0)),
        Err(ConfigError::ZeroTotalClusters)
    ));
    assert!(matches!(BotRuntime::new(config(3, 0)), Err(ConfigError::ZeroTotalClusters)));
}

#[test]
fn total_shards_is_the_product_of_the_counts() {
    assert_eq!(config(4, 2).total_shards(), 8);
    assert_eq!(config(1, 1).total_shards(), 1);
    assert_eq!(config(u32::MAX, u32::MAX).total_shards(), (u32::MAX as u64) * (u32::MAX as u64));
}

#[test]
fn default_intents_cover_the_guild_message_categories() {
    let intents = ClusterConfig::default_intents();
    assert_eq!(
        intents,
        INTENT_GUILDS | INTENT_GUILD_MEMBERS | INTENT_GUILD_MESSAGES
            | INTENT_GUILD_MESSAGE_REACTIONS
    );
    assert_ne!(intents & INTENT_GUILD_MESSAGES, 0);
}

#[test]
fn stepping_one_shard_leaves_the_others_alone() {
    let mut cluster = ShardCluster::build(&config(3, 1)).expect("valid configuration");
    let action = cluster.step_shard(1, SessionEvent::ConnectRequested);
    assert_eq!(action, Some(SessionAction::OpenTransport));
    assert_eq!(cluster.session(0).unwrap().state, SessionState::Disconnected);
    assert_eq!(cluster.session(1).unwrap().state, SessionState::Connecting);
    assert_eq!(cluster.session(2).unwrap().state, SessionState::Disconnected);
    // An id outside this process's range is not ours to step.
    assert_eq!(cluster.step_shard(9, SessionEvent::ConnectRequested), None);
}

#[test]
fn one_halting_session_does_not_stop_the_others() {
    let mut cluster = ShardCluster::build(&config(2, 1)).expect("valid configuration");
    cluster.step_shard(0, SessionEvent::ConnectRequested);
    cluster.step_shard(0, SessionEvent::TransportUp);
    assert_eq!(
        cluster.step_shard(0, SessionEvent::AuthRejected),
        Some(SessionAction::ReportFatal)
    );
    assert!(cluster.session(0).unwrap().halted);
    // The sibling shard still connects and identifies.
    assert_eq!(
        cluster.step_shard(1, SessionEvent::ConnectRequested),
        Some(SessionAction::OpenTransport)
    );
    assert_eq!(
        cluster.step_shard(1, SessionEvent::TransportUp),
        Some(SessionAction::SendIdentify)
    );
}

#[test]
fn shutdown_halts_every_session() {
    let mut cluster = ShardCluster::build(&config(3, 1)).expect("valid configuration");
    cluster.step_shard(0, SessionEvent::ConnectRequested);
    cluster.shutdown();
    for id in 0..3u32 {
        let session = cluster.session(id).unwrap();
        assert!(session.halted);
        assert_eq!(session.state, SessionState::Disconnected);
        assert_eq!(
            cluster.step_shard(id, SessionEvent::ConnectRequested),
            Some(SessionAction::NoAction)
        );
    }
}

#[test]
fn runtime_wires_cache_updates_and_dispatch_together() {
    let mut runtime = BotRuntime::new(config(2, 1)).expect("valid configuration");
    let key = ResourceKey { kind: ResourceKind::Message, guild_id: 3, resource_id: 14 };

    // A state update is folded into the cache and produces no response.
    let update = DispatchEvent::StateUpdate {
        shard_id: 0,
        event: ResourceEvent::Created(ResourceSnapshot { key, content: 55 }),
    };
    assert_eq!(runtime.dispatch(&update), Ok(None));
    assert_eq!(runtime.cache().get(key).unwrap().content, 55);

    // Before resolution an interaction reports "not ready".
    let interaction = DispatchEvent::Interaction {
        shard_id: 0,
        interaction: Interaction { command: "message".to_string(), guild_id: 3, target_id: 14 },
    };
    assert_eq!(runtime.application(), None);
    assert_eq!(runtime.dispatch(&interaction), Err(DispatchError::NotReady));

    // After resolution the handler answers from the cache.
    runtime.resolve_application(ApplicationIdentity { id: 900 });
    assert_eq!(runtime.application(), Some(ApplicationIdentity { id: 900 }));
    assert_eq!(
        runtime.dispatch(&interaction),
        Ok(Some(Response::ResourceContent(55)))
    );

    // An unregistered command name reaches no handler.
    let unknown = DispatchEvent::Interaction {
        shard_id: 1,
        interaction: Interaction { command: "missing".to_string(), guild_id: 3, target_id: 14 },
    };
    assert_eq!(runtime.dispatch(&unknown), Err(DispatchError::UnknownCommand));
}
