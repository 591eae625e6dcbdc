//! The state cache: creation/update/deletion semantics, idempotence under
//! duplicate delivery, and the resource-kind mask.

use starboard::cache::StateCache;
use starboard::events::{
    ResourceEvent, ResourceKey, ResourceKind, ResourceSnapshot, RESOURCE_GUILD, RESOURCE_MESSAGE,
};

fn message_key(guild_id: u64, resource_id: u64) -> ResourceKey {
    ResourceKey { kind: ResourceKind::Message, guild_id, resource_id }
}

#[test]
fn create_update_delete_triplet_for_one_resource() {
    let mut cache = StateCache::new(RESOURCE_MESSAGE);
    let key = message_key(10, 200);

    cache.update(ResourceEvent::Created(ResourceSnapshot { key, content: 1 }));
    let created = cache.get(key).expect("created resource must be cached");
    assert_eq!(created.content, 1);

    cache.update(ResourceEvent::Updated(ResourceSnapshot { key, content: 2 }));
    let updated = cache.get(key).expect("updated resource must be cached");
    // The intermediate read sees the updated snapshot, not the created one.
    assert_eq!(updated.content, 2);
    assert_eq!(updated.key, key);

    cache.update(ResourceEvent::Deleted(key));
    assert!(cache.get(key).is_none());
}

#[test]
fn duplicate_delivery_is_idempotent() {
    let mut cache = StateCache::new(RESOURCE_MESSAGE);
    let key = message_key(1, 2);
    let event = ResourceEvent::Created(ResourceSnapshot { key, content: 9 });
    cache.update(event);
    cache.update(event);
    cache.update(event);
    assert_eq!(cache.entries.len(), 1);
    assert_eq!(cache.get(key).unwrap().content, 9);

    cache.update(ResourceEvent::Deleted(key));
    cache.update(ResourceEvent::Deleted(key));
    assert!(cache.get(key).is_none());
    assert_eq!(cache.entries.len(), 0);
}

#[test]
fn last_event_wins_for_each_key() {
    let mut cache = StateCache::new(RESOURCE_MESSAGE);
    let a = message_key(1, 1);
    let b = message_key(1, 2);
    cache.update(ResourceEvent::Created(ResourceSnapshot { key: a, content: 1 }));
    cache.update(ResourceEvent::Created(ResourceSnapshot { key: b, content: 2 }));
    cache.update(ResourceEvent::Updated(ResourceSnapshot { key: a, content: 3 }));
    cache.update(ResourceEvent::Deleted(b));
    assert_eq!(cache.get(a).unwrap().content, 3);
    assert!(cache.get(b).is_none());
}

#[test]
fn excluded_kind_never_appears() {
    // The mask admits guilds only; message events must leave no trace.
    let mut cache = StateCache::new(RESOURCE_GUILD);
    let key = message_key(5, 6);
    for content in 0..10 {
        cache.update(ResourceEvent::Created(ResourceSnapshot { key, content }));
        cache.update(ResourceEvent::Updated(ResourceSnapshot { key, content }));
    }
    assert!(cache.get(key).is_none());
    assert_eq!(cache.entries.len(), 0);

    // An enabled kind is still retained alongside.
    let guild = ResourceKey { kind: ResourceKind::Guild, guild_id: 5, resource_id: 5 };
    cache.update(ResourceEvent::Created(ResourceSnapshot { key: guild, content: 1 }));
    assert_eq!(cache.get(guild).unwrap().content, 1);
}

#[test]
fn unseen_resources_read_as_none() {
    let cache = StateCache::new(RESOURCE_MESSAGE);
    assert!(cache.get(message_key(1, 1)).is_none());
}

#[test]
fn mask_can_enable_several_kinds() {
    let mut cache = StateCache::new(RESOURCE_MESSAGE | RESOURCE_GUILD);
    let m = message_key(1, 1);
    let g = ResourceKey { kind: ResourceKind::Guild, guild_id: 1, resource_id: 1 };
    let c = ResourceKey { kind: ResourceKind::Channel, guild_id: 1, resource_id: 1 };
    cache.update(ResourceEvent::Created(ResourceSnapshot { key: m, content: 1 }));
    cache.update(ResourceEvent::Created(ResourceSnapshot { key: g, content: 2 }));
    cache.update(ResourceEvent::Created(ResourceSnapshot { key: c, content: 3 }));
    assert_eq!(cache.get(m).unwrap().content, 1);
    assert_eq!(cache.get(g).unwrap().content, 2);
    assert!(cache.get(c).is_none());
}

#[test]
fn deleting_an_unseen_resource_is_harmless() {
    let mut cache = StateCache::new(RESOURCE_MESSAGE);
    cache.update(ResourceEvent::Deleted(message_key(1, 1)));
    assert!(cache.get(message_key(1, 1)).is_none());
}
