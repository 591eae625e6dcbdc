//! The shard cluster: owns one session per shard id in this process's
//! range, routes observed events to the owning session, and shuts every
//! session down on request.
//!
//! The driver runs one task per session and merges their emitted events;
//! only the per-shard order is preserved across that merge. One session
//! halting never stops the others: each is stepped independently.

use vstd::prelude::*;
use vstd::pervasive::VecAdditionalExecFns;

use crate::config::{ClusterConfig, ConfigError};
use crate::session::{SessionAction, SessionEvent, ShardSession};

verus! {

/// The full set of shard sessions assigned to this process.
pub struct ShardCluster {
    /// One session per shard id, at position `id`.
    pub sessions: Vec<ShardSession>,
}

impl ShardCluster {
    /// Every session is internally consistent and sits at the position of
    /// its shard id, so each id in range is assigned to exactly one session.
    pub open spec fn wf(&self) -> bool {
        forall|i: int|
            0 <= i < self.sessions@.len() ==> (#[trigger] self.sessions@[i]).wf()
                && self.sessions@[i].id == i as u32
    }

    /// Builds the cluster for a valid configuration: exactly
    /// `shards_per_cluster` fresh sessions with the contiguous ids
    /// `0 .. shards_per_cluster`, all disconnected and ready to start.
    pub fn build(config: &ClusterConfig) -> (r: Result<ShardCluster, ConfigError>)
        ensures
            r is Ok <==> config.is_valid(),
            r is Err ==> r->Err_0 == (if config.shards_per_cluster == 0 {
                ConfigError::ZeroShardsPerCluster
            } else {
                ConfigError::ZeroTotalClusters
            }),
            r is Ok ==> {
                let c = r->Ok_0;
                &&& c.wf()
                &&& c.sessions@.len() == config.shards_per_cluster
                &&& forall|i: int|
                    0 <= i < c.sessions@.len() ==> (#[trigger] c.sessions@[i]).state
                        is Disconnected && !c.sessions@[i].halted
            },
    {
        if let Err(e) = config.validate() {
            return Err(e);
        }
        let count = config.shards_per_cluster;
        let mut sessions: Vec<ShardSession> = Vec::new();
        let mut id: u32 = 0;
        while id < count
            invariant
                id <= count,
                sessions@.len() == id,
                forall|i: int|
                    0 <= i < id ==> (#[trigger] sessions@[i]).wf() && sessions@[i].id == i as u32
                        && sessions@[i].state is Disconnected && !sessions@[i].halted,
            decreases count - id,
        {
            sessions.push(ShardSession::new(id));
            id = id + 1;
        }
        Ok(ShardCluster { sessions })
    }

    /// Number of sessions this cluster owns.
    pub fn shard_count(&self) -> (r: usize)
        ensures
            r == self.sessions@.len(),
    {
        self.sessions.len()
    }

    /// A copy of the session for `shard_id`, if that id is in range.
    pub fn session(&self, shard_id: u32) -> (r: Option<ShardSession>)
        ensures
            r is Some <==> shard_id < self.sessions@.len(),
            r is Some ==> r->0 == self.sessions@[shard_id as int],
    {
        if (shard_id as usize) < self.sessions.len() {
            Some(self.sessions[shard_id as usize])
        } else {
            None
        }
    }

    /// Steps the session owning `shard_id` by one observed event, leaving
    /// every other session untouched, and returns the driver's next
    /// obligation for that shard; `None` if the id is outside this
    /// process's range.
    pub fn step_shard(&mut self, shard_id: u32, event: SessionEvent) -> (r: Option<SessionAction>)
        requires
            old(self).wf(),
        ensures
            final(self).wf(),
            final(self).sessions@.len() == old(self).sessions@.len(),
            r is Some <==> shard_id < old(self).sessions@.len(),
            shard_id < old(self).sessions@.len() ==> {
                let stepped = old(self).sessions@[shard_id as int].spec_step(event);
                &&& final(self).sessions@ == old(self).sessions@.update(
                    shard_id as int,
                    stepped.0,
                )
                &&& r == Some(stepped.1)
            },
            shard_id >= old(self).sessions@.len() ==> *final(self) == *old(self),
    {
        let idx = shard_id as usize;
        if idx < self.sessions.len() {
            let mut session = self.sessions[idx];
            let action = session.step(event);
            self.sessions.set(idx, session);
            Some(action)
        } else {
            None
        }
    }

    /// Signals every session to close its transport and stop retrying.
    /// After this, every session is halted and the merged event sequence
    /// the driver runs can terminate promptly.
    pub fn shutdown(&mut self)
        requires
            old(self).wf(),
        ensures
            final(self).wf(),
            final(self).sessions@.len() == old(self).sessions@.len(),
            forall|i: int|
                0 <= i < final(self).sessions@.len() ==> (#[trigger] final(self).sessions@[i]).halted
                    && final(self).sessions@[i].state is Disconnected,
    {
        let mut idx: usize = 0;
        while idx < self.sessions.len()
            invariant
                self.wf(),
                idx <= self.sessions@.len(),
                self.sessions@.len() == old(self).sessions@.len(),
                forall|i: int|
                    0 <= i < idx ==> (#[trigger] self.sessions@[i]).halted && self.sessions@[i].state
                        is Disconnected,
            decreases self.sessions@.len() - idx,
        {
            let mut session = self.sessions[idx];
            session.close();
            self.sessions.set(idx, session);
            idx = idx + 1;
        }
    }
}

} // verus!
