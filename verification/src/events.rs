//! The decoded events the driver hands to the core: state updates feeding the
//! cache, and interactions feeding command dispatch. All payloads are reduced
//! to the plain fields this system reads.

use vstd::prelude::*;

verus! {

/// Remote resource kinds the cache can be asked to track, one mask bit each.
#[derive(Clone, Copy, Debug, PartialEq, Eq, Structural, Hash)]
pub enum ResourceKind {
    Guild,
    Channel,
    Member,
    Message,
    Reaction,
}

pub const RESOURCE_GUILD: u32 = 0x1;
pub const RESOURCE_CHANNEL: u32 = 0x2;
pub const RESOURCE_MEMBER: u32 = 0x4;
pub const RESOURCE_MESSAGE: u32 = 0x8;
pub const RESOURCE_REACTION: u32 = 0x10;

impl ResourceKind {
    /// The mask bit of this kind.
    pub open spec fn spec_bit(self) -> u32 {
        match self {
            ResourceKind::Guild => RESOURCE_GUILD,
            ResourceKind::Channel => RESOURCE_CHANNEL,
            ResourceKind::Member => RESOURCE_MEMBER,
            ResourceKind::Message => RESOURCE_MESSAGE,
            ResourceKind::Reaction => RESOURCE_REACTION,
        }
    }

    /// The mask bit of this kind.
    pub fn bit(self) -> (r: u32)
        ensures
            r == self.spec_bit(),
    {
        match self {
            ResourceKind::Guild => RESOURCE_GUILD,
            ResourceKind::Channel => RESOURCE_CHANNEL,
            ResourceKind::Member => RESOURCE_MEMBER,
            ResourceKind::Message => RESOURCE_MESSAGE,
            ResourceKind::Reaction => RESOURCE_REACTION,
        }
    }

    /// Whether this kind is enabled by `mask`.
    pub open spec fn spec_in_mask(self, mask: u32) -> bool {
        self.spec_bit() & mask != 0
    }

    /// Whether this kind is enabled by `mask`.
    pub fn in_mask(self, mask: u32) -> (r: bool)
        ensures
            r == self.spec_in_mask(mask),
    {
        self.bit() & mask != 0
    }
}

/// Identity of one remote resource: its kind within its owning guild.
#[derive(Clone, Copy, Debug, PartialEq, Eq, Structural, Hash)]
pub struct ResourceKey {
    pub kind: ResourceKind,
    pub guild_id: u64,
    pub resource_id: u64,
}

/// Snapshot of one remote resource: its identity plus the decoded payload,
/// reduced to the single field this system reads from it.
#[derive(Clone, Copy, Debug, PartialEq, Eq, Structural)]
pub struct ResourceSnapshot {
    pub key: ResourceKey,
    /// The decoded payload of the resource as last observed.
    pub content: u64,
}

/// A state-update event: creation, update or deletion of one resource.
#[derive(Clone, Copy, Debug, PartialEq, Eq, Structural)]
pub enum ResourceEvent {
    Created(ResourceSnapshot),
    Updated(ResourceSnapshot),
    Deleted(ResourceKey),
}

impl ResourceEvent {
    /// The resource identity this event is about.
    pub open spec fn spec_key(self) -> ResourceKey {
        match self {
            ResourceEvent::Created(s) => s.key,
            ResourceEvent::Updated(s) => s.key,
            ResourceEvent::Deleted(k) => k,
        }
    }

    /// The resource identity this event is about.
    #[verifier::when_used_as_spec(spec_key)]
    pub fn key(self) -> (k: ResourceKey)
        ensures
            k == self.spec_key(),
    {
        match self {
            ResourceEvent::Created(s) => s.key,
            ResourceEvent::Updated(s) => s.key,
            ResourceEvent::Deleted(k) => k,
        }
    }
}

/// An inbound user-triggered command invocation awaiting a response.
#[derive(Clone, Debug)]
pub struct Interaction {
    /// Name of the invoked command, looked up in the registry.
    pub command: String,
    /// Guild the interaction came from.
    pub guild_id: u64,
    /// Resource the command targets, resolved against the cache.
    pub target_id: u64,
}

/// One decoded gateway event, tagged with the shard that produced it.
pub enum DispatchEvent {
    /// A state update to be folded into the cache.
    StateUpdate { shard_id: u32, event: ResourceEvent },
    /// An interaction to be dispatched to a command handler.
    Interaction { shard_id: u32, interaction: Interaction },
}

} // verus!
