//! Cluster configuration: the gateway token, the shard range this process is
//! responsible for, and the intent bitmask declaring which event categories
//! the sessions subscribe to.

use vstd::prelude::*;

verus! {

/// Intent bit subscribing to guild lifecycle events.
pub const INTENT_GUILDS: u64 = 0x1;

/// Intent bit subscribing to guild member events.
pub const INTENT_GUILD_MEMBERS: u64 = 0x2;

/// Intent bit subscribing to guild message events.
pub const INTENT_GUILD_MESSAGES: u64 = 0x200;

/// Intent bit subscribing to guild message reaction events.
pub const INTENT_GUILD_MESSAGE_REACTIONS: u64 = 0x400;

/// Immutable configuration for one process's shard cluster.
///
/// The global shard space has `shards_per_cluster * total_clusters` ids;
/// this process owns the contiguous range `[0, shards_per_cluster)`.
pub struct ClusterConfig {
    /// Gateway authentication token. Opaque to the core; only carried.
    pub token: String,
    /// Number of shard sessions this process runs.
    pub shards_per_cluster: u32,
    /// Number of cooperating processes sharing the global shard space.
    pub total_clusters: u32,
    /// Intent bitmask sent with every identify request.
    pub intents: u64,
}

/// Why a configuration was rejected.
#[derive(Clone, Copy, Debug, PartialEq, Eq, Structural)]
pub enum ConfigError {
    /// `shards_per_cluster` is zero: no session could be assigned.
    ZeroShardsPerCluster,
    /// `total_clusters` is zero: the global shard space would be empty.
    ZeroTotalClusters,
}

impl ClusterConfig {
    /// A configuration is valid when the global shard space is non-empty,
    /// which for a product of counts means both factors are at least one.
    pub open spec fn is_valid(&self) -> bool {
        &&& self.shards_per_cluster >= 1
        &&& self.total_clusters >= 1
    }

    /// Size of the global shard space, `shards_per_cluster * total_clusters`.
    pub open spec fn spec_total_shards(&self) -> int {
        self.shards_per_cluster * self.total_clusters
    }

    /// Checks the configuration, naming the first violated rule.
    pub fn validate(&self) -> (r: Result<(), ConfigError>)
        ensures
            r is Ok <==> self.is_valid(),
            r == Err::<(), ConfigError>(ConfigError::ZeroShardsPerCluster)
                <==> self.shards_per_cluster == 0,
            r == Err::<(), ConfigError>(ConfigError::ZeroTotalClusters)
                <==> (self.shards_per_cluster >= 1 && self.total_clusters == 0),
    {
        if self.shards_per_cluster == 0 {
            Err(ConfigError::ZeroShardsPerCluster)
        } else if self.total_clusters == 0 {
            Err(ConfigError::ZeroTotalClusters)
        } else {
            Ok(())
        }
    }

    /// Size of the global shard space, carried in the identify request of
    /// every session as the second half of its `(id, total)` pair.
    pub fn total_shards(&self) -> (r: u64)
        ensures
            r == self.spec_total_shards(),
    {
        proof {
            assert((self.shards_per_cluster as int) * (self.total_clusters as int)
                <= 0xffff_ffffu64 * 0xffff_ffffu64) by (nonlinear_arith)
                requires
                    self.shards_per_cluster <= 0xffff_ffffu64,
                    self.total_clusters <= 0xffff_ffffu64,
            ;
        }
        (self.shards_per_cluster as u64) * (self.total_clusters as u64)
    }

    /// The intent bits this bot subscribes to: guilds, members, messages
    /// and message reactions.
    pub fn default_intents() -> (r: u64)
        ensures
            r == (INTENT_GUILDS | INTENT_GUILD_MEMBERS | INTENT_GUILD_MESSAGES
                | INTENT_GUILD_MESSAGE_REACTIONS),
    {
        INTENT_GUILDS | INTENT_GUILD_MEMBERS | INTENT_GUILD_MESSAGES
            | INTENT_GUILD_MESSAGE_REACTIONS
    }
}

} // verus!
