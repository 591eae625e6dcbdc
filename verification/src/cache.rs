//! The in-memory projection of remote state: a mapping from resource
//! identity to the last observed snapshot, restricted to the resource kinds
//! enabled by the mask fixed at construction.
//!
//! The cache is a best-effort view: a miss means "not tracked" or "not yet
//! observed", never an error. Updates are idempotent and, within one shard's
//! ordered stream, the cache always reflects the last non-deleted event for
//! each key.

use vstd::prelude::*;
use vstd::pervasive::VecAdditionalExecFns;

use crate::events::{ResourceEvent, ResourceKey, ResourceKind, ResourceSnapshot};

verus! {

/// No two entries share a key.
pub open spec fn unique_keys(s: Seq<ResourceSnapshot>) -> bool {
    forall|i: int, j: int| 0 <= i < j < s.len() ==> (#[trigger] s[i]).key != (#[trigger] s[j]).key
}

/// The mapping an entry sequence stands for; later entries win.
pub open spec fn entries_map(s: Seq<ResourceSnapshot>) -> Map<ResourceKey, u64>
    decreases s.len(),
{
    if s.len() == 0 {
        Map::empty()
    } else {
        entries_map(s.drop_last()).insert(s.last().key, s.last().content)
    }
}

/// What one event does to the mapping: events of a kind outside the mask
/// are ignored, creations and updates upsert, deletions remove.
pub open spec fn spec_apply(
    m: Map<ResourceKey, u64>,
    mask: u32,
    event: ResourceEvent,
) -> Map<ResourceKey, u64> {
    if !event.spec_key().kind.spec_in_mask(mask) {
        m
    } else {
        match event {
            ResourceEvent::Created(s) => m.insert(s.key, s.content),
            ResourceEvent::Updated(s) => m.insert(s.key, s.content),
            ResourceEvent::Deleted(k) => m.remove(k),
        }
    }
}

/// The mapping implied by replaying a whole event sequence into an empty
/// cache under `mask`.
pub open spec fn spec_replay(mask: u32, events: Seq<ResourceEvent>) -> Map<ResourceKey, u64>
    decreases events.len(),
{
    if events.len() == 0 {
        Map::empty()
    } else {
        spec_apply(spec_replay(mask, events.drop_last()), mask, events.last())
    }
}

/// The state of one resource implied by an event sequence alone: the
/// snapshot carried by the last event about `key`, or nothing if that event
/// was a deletion or no event mentioned `key`.
pub open spec fn spec_key_state(events: Seq<ResourceEvent>, key: ResourceKey) -> Option<u64>
    decreases events.len(),
{
    if events.len() == 0 {
        None
    } else if events.last().spec_key() == key {
        match events.last() {
            ResourceEvent::Created(s) => Some(s.content),
            ResourceEvent::Updated(s) => Some(s.content),
            ResourceEvent::Deleted(_) => None,
        }
    } else {
        spec_key_state(events.drop_last(), key)
    }
}

/// Shared snapshot store of remote resources, written only by the driver.
pub struct StateCache {
    /// Bitmask of the resource kinds this cache retains, fixed for life.
    pub mask: u32,
    /// The retained snapshots, at most one per resource identity.
    pub entries: Vec<ResourceSnapshot>,
}

impl View for StateCache {
    type V = Map<ResourceKey, u64>;

    open spec fn view(&self) -> Map<ResourceKey, u64> {
        entries_map(self.entries@)
    }
}

impl StateCache {
    /// Internal consistency: one entry per key, every entry of an enabled
    /// kind.
    pub open spec fn wf(&self) -> bool {
        &&& unique_keys(self.entries@)
        &&& forall|i: int|
            0 <= i < self.entries@.len() ==> (#[trigger] self.entries@[i]).key.kind.spec_in_mask(
                self.mask,
            )
    }

    /// An empty cache retaining exactly the kinds enabled by `mask`.
    pub fn new(mask: u32) -> (c: StateCache)
        ensures
            c.wf(),
            c.mask == mask,
            c@ == Map::<ResourceKey, u64>::empty(),
    {
        StateCache { mask, entries: Vec::new() }
    }

    /// Index of the entry for `key`, if one is retained.
    fn find(&self, key: ResourceKey) -> (r: Option<usize>)
        ensures
            match r {
                Some(i) => i < self.entries@.len() && self.entries@[i as int].key == key,
                None => forall|j: int|
                    0 <= j < self.entries@.len() ==> (#[trigger] self.entries@[j]).key != key,
            },
    {
        let mut i: usize = 0;
        while i < self.entries.len()
            invariant
                i <= self.entries@.len(),
                forall|j: int| 0 <= j < i ==> (#[trigger] self.entries@[j]).key != key,
            decreases self.entries@.len() - i,
        {
            if self.entries[i].key == key {
                return Some(i);
            }
            i = i + 1;
        }
        None
    }

    /// Folds one state-update event into the cache, exactly as
    /// [`spec_apply`] states: ignored when its kind is outside the mask,
    /// an upsert for a creation or update, a removal for a deletion.
    pub fn update(&mut self, event: ResourceEvent)
        requires
            old(self).wf(),
        ensures
            final(self).wf(),
            final(self).mask == old(self).mask,
            final(self)@ == spec_apply(old(self)@, old(self).mask, event),
    {
        let key = event.key();
        if !key.kind.in_mask(self.mask) {
            return;
        }
        match event {
            ResourceEvent::Created(snap) => self.upsert(snap),
            ResourceEvent::Updated(snap) => self.upsert(snap),
            ResourceEvent::Deleted(k) => {
                if let Some(i) = self.find(k) {
                    proof {
                        lemma_entries_map_remove(self.entries@, i as int);
                    }
                    self.entries.remove(i);
                } else {
                    proof {
                        lemma_entries_map_props(self.entries@);
                        assert(self@.remove(k) =~= self@);
                    }
                }
            },
        }
    }

    /// Stores `snap`, replacing any retained snapshot of the same resource.
    fn upsert(&mut self, snap: ResourceSnapshot)
        requires
            old(self).wf(),
            snap.key.kind.spec_in_mask(old(self).mask),
        ensures
            final(self).wf(),
            final(self).mask == old(self).mask,
            final(self)@ == old(self)@.insert(snap.key, snap.content),
    {
        match self.find(snap.key) {
            Some(i) => {
                proof {
                    lemma_entries_map_set(self.entries@, i as int, snap);
                }
                self.entries.set(i, snap);
            },
            None => {
                proof {
                    lemma_entries_map_push(self.entries@, snap);
                }
                self.entries.push(snap);
            },
        }
    }

    /// Looks the resource up without blocking. `None` means "untracked or
    /// not yet observed", and is all a kind outside the mask can ever get.
    pub fn get(&self, key: ResourceKey) -> (r: Option<ResourceSnapshot>)
        requires
            self.wf(),
        ensures
            r is Some <==> self@.contains_key(key),
            r is Some ==> r->0.key == key && r->0.content == self@[key],
            !key.kind.spec_in_mask(self.mask) ==> r is None,
    {
        proof {
            lemma_entries_map_props(self.entries@);
        }
        match self.find(key) {
            Some(i) => Some(self.entries[i]),
            None => None,
        }
    }
}

/// In a duplicate-free entry sequence, the mapping holds exactly the entries'
/// keys, each at the entry's content.
pub proof fn lemma_entries_map_props(s: Seq<ResourceSnapshot>)
    requires
        unique_keys(s),
    ensures
        forall|k: ResourceKey| #[trigger]
            entries_map(s).contains_key(k) ==> exists|i: int| 0 <= i < s.len() && s[i].key == k,
        forall|i: int|
            0 <= i < s.len() ==> entries_map(s).contains_key((#[trigger] s[i]).key)
                && entries_map(s)[s[i].key] == s[i].content,
    decreases s.len(),
{
    if s.len() > 0 {
        lemma_entries_map_props(s.drop_last());
        assert forall|i: int|
            0 <= i < s.len() implies entries_map(s).contains_key((#[trigger] s[i]).key)
            && entries_map(s)[s[i].key] == s[i].content by {
            if i < s.len() - 1 {
                assert(s.drop_last()[i] == s[i]);
                assert(s[i].key != s.last().key);
            }
        }
        assert forall|k: ResourceKey| #[trigger]
            entries_map(s).contains_key(k) implies exists|i: int|
            0 <= i < s.len() && s[i].key == k by {
            if k != s.last().key {
                assert(entries_map(s.drop_last()).contains_key(k));
                let i = choose|i: int| 0 <= i < s.drop_last().len() && s.drop_last()[i].key == k;
                assert(s[i].key == k);
            } else {
                assert(s[s.len() - 1].key == k);
            }
        }
    }
}

/// Replacing the entry at `i` by a snapshot of the same key updates the
/// mapping at that key alone.
pub proof fn lemma_entries_map_set(s: Seq<ResourceSnapshot>, i: int, v: ResourceSnapshot)
    requires
        unique_keys(s),
        0 <= i < s.len(),
        s[i].key == v.key,
    ensures
        unique_keys(s.update(i, v)),
        entries_map(s.update(i, v)) == entries_map(s).insert(v.key, v.content),
    decreases s.len(),
{
    let t = s.update(i, v);
    assert forall|x: int, y: int| 0 <= x < y < t.len() implies (#[trigger] t[x]).key != (
    #[trigger] t[y]).key by {
        assert(s[x].key != s[y].key);
    }
    if i == s.len() - 1 {
        assert(t.drop_last() =~= s.drop_last());
        assert(entries_map(t) =~= entries_map(s).insert(v.key, v.content));
    } else {
        assert(t.drop_last() =~= s.drop_last().update(i, v));
        assert(t.last() == s.last());
        lemma_entries_map_set(s.drop_last(), i, v);
        assert(s[i].key != s.last().key);
        assert(entries_map(t) =~= entries_map(s).insert(v.key, v.content));
    }
}

/// Appending an entry with a fresh key adds exactly that key to the mapping.
pub proof fn lemma_entries_map_push(s: Seq<ResourceSnapshot>, v: ResourceSnapshot)
    requires
        unique_keys(s),
        forall|j: int| 0 <= j < s.len() ==> (#[trigger] s[j]).key != v.key,
    ensures
        unique_keys(s.push(v)),
        entries_map(s.push(v)) == entries_map(s).insert(v.key, v.content),
{
    assert(s.push(v).drop_last() =~= s);
    assert(s.push(v).last() == v);
}

/// Removing the entry at `i` removes exactly its key from the mapping.
pub proof fn lemma_entries_map_remove(s: Seq<ResourceSnapshot>, i: int)
    requires
        unique_keys(s),
        0 <= i < s.len(),
    ensures
        unique_keys(s.remove(i)),
        entries_map(s.remove(i)) == entries_map(s).remove(s[i].key),
    decreases s.len(),
{
    let t = s.remove(i);
    assert forall|x: int, y: int| 0 <= x < y < t.len() implies (#[trigger] t[x]).key != (
    #[trigger] t[y]).key by {
        let sx = if x < i {
            x
        } else {
            x + 1
        };
        let sy = if y < i {
            y
        } else {
            y + 1
        };
        assert(t[x] == s[sx]);
        assert(t[y] == s[sy]);
        assert(s[sx].key != s[sy].key);
    }
    if i == s.len() - 1 {
        assert(t =~= s.drop_last());
        lemma_entries_map_props(s.drop_last());
        assert forall|j: int|
            0 <= j < s.drop_last().len() implies (#[trigger] s.drop_last()[j]).key != s[i].key by {
            assert(s[j].key != s[i].key);
        }
        assert(!entries_map(s.drop_last()).contains_key(s[i].key));
        assert(entries_map(t) =~= entries_map(s).remove(s[i].key));
    } else {
        assert(t.drop_last() =~= s.drop_last().remove(i));
        assert(t.last() == s.last());
        lemma_entries_map_remove(s.drop_last(), i);
        assert(s.drop_last()[i] == s[i]);
        assert(s[i].key != s.last().key);
        assert(entries_map(t) =~= entries_map(s).remove(s[i].key));
    }
}

/// Folding the same event in twice leaves the same mapping as folding it in
/// once: cache updates are idempotent under duplicate delivery.
pub proof fn lemma_apply_idempotent(m: Map<ResourceKey, u64>, mask: u32, event: ResourceEvent)
    ensures
        spec_apply(spec_apply(m, mask, event), mask, event) == spec_apply(m, mask, event),
{
    assert(spec_apply(spec_apply(m, mask, event), mask, event) =~= spec_apply(m, mask, event));
}

/// Replaying one more event is one [`spec_apply`] step: a cache kept up to
/// date by [`StateCache::update`] always holds the replay of the events fed
/// to it so far.
pub proof fn lemma_replay_extends(mask: u32, events: Seq<ResourceEvent>, event: ResourceEvent)
    ensures
        spec_replay(mask, events.push(event)) == spec_apply(
            spec_replay(mask, events),
            mask,
            event,
        ),
{
    assert(events.push(event).drop_last() =~= events);
}

/// Replaying any event sequence leaves each enabled key at the state implied
/// by the last event about it — deliveries are order-respecting within one
/// shard's stream — and never retains a key of a kind outside the mask.
pub proof fn lemma_replay_last_write(mask: u32, events: Seq<ResourceEvent>, key: ResourceKey)
    ensures
        key.kind.spec_in_mask(mask) ==> (spec_replay(mask, events).contains_key(key)
            <==> spec_key_state(events, key) is Some),
        key.kind.spec_in_mask(mask) && spec_key_state(events, key) is Some ==> spec_replay(
            mask,
            events,
        )[key] == spec_key_state(events, key)->0,
        !key.kind.spec_in_mask(mask) ==> !spec_replay(mask, events).contains_key(key),
    decreases events.len(),
{
    if events.len() > 0 {
        lemma_replay_last_write(mask, events.drop_last(), key);
    }
}

} // verus!
