use fight_core::combat::{
    detect_collisions, resolve_contact, OverlapPair, RegionId, SpawnHitboxEvent, VolumeStore,
};
use fight_core::player::{AttackType, Combatant, ControlType, FacingDirection};

fn combatant(id: u8, x: i64, y: i64) -> Combatant {
    Combatant::new(id, ControlType::Human, FacingDirection::Right, 100, x, y)
}

fn one_volume_store() -> VolumeStore {
    let mut store = VolumeStore::new();
    store.spawn_hitbox(
        SpawnHitboxEvent { attacker: 1, attack_type: AttackType::Light },
        FacingDirection::Right,
    );
    store
}

#[test]
fn volume_spawns_with_table_properties() {
    let store = one_volume_store();
    assert_eq!(store.volumes.len(), 1);
    let v = &store.volumes[0];
    assert_eq!(v.id, 0);
    assert_eq!(v.hitbox.owner, 1);
    assert_eq!(v.hitbox.damage, 3);
    assert_eq!((v.offset_x, v.offset_y, v.width, v.height), (55, 0, 60, 35));
    assert_eq!(v.duration.remaining_ms, 120);
    assert_eq!(store.next_id, 1);
}

#[test]
fn volume_expires_after_lifetime() {
    let mut store = one_volume_store();
    store.despawn_hitbox_after_duration(100);
    assert_eq!(store.volumes.len(), 1);
    assert_eq!(store.volumes[0].duration.remaining_ms, 20);
    store.despawn_hitbox_after_duration(20);
    assert_eq!(store.volumes.len(), 0);
}

#[test]
fn one_contact_per_volume_even_with_duplicate_overlaps() {
    let mut store = one_volume_store();
    let c1 = combatant(1, 0, 0);
    let c2 = combatant(2, 50, 0);
    let pairs = vec![
        OverlapPair { a: RegionId::Volume(0), b: RegionId::Body(2) },
        OverlapPair { a: RegionId::Body(2), b: RegionId::Volume(0) },
        OverlapPair { a: RegionId::Volume(0), b: RegionId::Body(2) },
    ];
    let out = detect_collisions(&mut store, &pairs, &c1, &c2);
    assert_eq!(out.contacts.len(), 1);
    assert_eq!(out.damage_events.len(), 1);
    assert_eq!(out.damage_events[0].target, 2);
    assert_eq!(out.damage_events[0].damage, 3);
    assert_eq!(store.volumes.len(), 0);
}

#[test]
fn self_hit_is_discarded_and_volume_stays() {
    let mut store = one_volume_store();
    let c1 = combatant(1, 0, 0);
    let c2 = combatant(2, 50, 0);
    let pairs = vec![OverlapPair { a: RegionId::Volume(0), b: RegionId::Body(1) }];
    let out = detect_collisions(&mut store, &pairs, &c1, &c2);
    assert_eq!(out.contacts.len(), 0);
    assert_eq!(out.damage_events.len(), 0);
    assert_eq!(store.volumes.len(), 1);
}

#[test]
fn malformed_pairs_are_discarded() {
    let mut store = one_volume_store();
    let c1 = combatant(1, 0, 0);
    let c2 = combatant(2, 50, 0);
    let pairs = vec![
        OverlapPair { a: RegionId::Body(1), b: RegionId::Body(2) },
        OverlapPair { a: RegionId::Terrain, b: RegionId::Volume(0) },
        OverlapPair { a: RegionId::Volume(7), b: RegionId::Body(2) },
        OverlapPair { a: RegionId::Terrain, b: RegionId::Terrain },
    ];
    let out = detect_collisions(&mut store, &pairs, &c1, &c2);
    assert_eq!(out.contacts.len(), 0);
    assert_eq!(out.damage_events.len(), 0);
    assert_eq!(store.volumes.len(), 1);
}

#[test]
fn unblocked_contact_has_full_knockback() {
    let attacker = combatant(1, 0, 0);
    let target = combatant(2, 10, 0);
    let oc = resolve_contact(8, &attacker, &target);
    let msg = oc.damage_message.unwrap();
    assert_eq!(msg.target, 2);
    assert_eq!(msg.damage, 8);
    assert_eq!(oc.defender_impulse.strength, 500);
    assert_eq!((oc.defender_impulse.dir_x, oc.defender_impulse.dir_y), (10, 0));
    assert_eq!(oc.attacker_impulse.strength, 150);
    assert_eq!((oc.attacker_impulse.dir_x, oc.attacker_impulse.dir_y), (-10, 0));
}

#[test]
fn blocked_contact_suppresses_damage_and_halves_knockback() {
    let attacker = combatant(1, 0, 0);
    let mut target = combatant(2, 10, 0);
    target.block.is_blocking = true;
    let blocked = resolve_contact(8, &attacker, &target);
    assert!(blocked.damage_message.is_none());
    assert_eq!(blocked.defender_impulse.strength, 250);
    assert_eq!(blocked.attacker_impulse.strength, 50);

    let mut open = target;
    open.block.is_blocking = false;
    let unblocked = resolve_contact(8, &attacker, &open);
    assert_eq!(2 * blocked.defender_impulse.strength, unblocked.defender_impulse.strength);
    assert_eq!(blocked.defender_impulse.dir_x, unblocked.defender_impulse.dir_x);
    assert_eq!(blocked.defender_impulse.dir_y, unblocked.defender_impulse.dir_y);
}

#[test]
fn degenerate_geometry_gets_fallback_direction() {
    let attacker = combatant(1, 25, -3);
    let target = combatant(2, 25, -3);
    let oc = resolve_contact(5, &attacker, &target);
    assert_eq!((oc.defender_impulse.dir_x, oc.defender_impulse.dir_y), (1, 0));
    assert_eq!((oc.attacker_impulse.dir_x, oc.attacker_impulse.dir_y), (-1, 0));
}

#[test]
fn blocked_contact_through_resolver_emits_no_message() {
    let mut store = one_volume_store();
    let c1 = combatant(1, 0, 0);
    let mut c2 = combatant(2, 50, 0);
    c2.block.is_blocking = true;
    let pairs = vec![OverlapPair { a: RegionId::Volume(0), b: RegionId::Body(2) }];
    let out = detect_collisions(&mut store, &pairs, &c1, &c2);
    assert_eq!(out.contacts.len(), 1);
    assert!(out.contacts[0].blocked);
    assert_eq!(out.damage_events.len(), 0);
    assert_eq!(out.impulses.len(), 2);
    assert_eq!(out.impulses[0].strength, 250);
    assert_eq!(out.impulses[1].strength, 50);
    assert_eq!(store.volumes.len(), 0);
}

#[test]
fn two_volumes_hit_independently() {
    let mut store = VolumeStore::new();
    store.spawn_hitbox(
        SpawnHitboxEvent { attacker: 1, attack_type: AttackType::Light },
        FacingDirection::Right,
    );
    store.spawn_hitbox(
        SpawnHitboxEvent { attacker: 2, attack_type: AttackType::Heavy },
        FacingDirection::Left,
    );
    let c1 = combatant(1, 0, 0);
    let c2 = combatant(2, 50, 0);
    let pairs = vec![
        OverlapPair { a: RegionId::Volume(0), b: RegionId::Body(2) },
        OverlapPair { a: RegionId::Volume(1), b: RegionId::Body(1) },
    ];
    let out = detect_collisions(&mut store, &pairs, &c1, &c2);
    assert_eq!(out.contacts.len(), 2);
    assert_ne!(out.contacts[0].volume, out.contacts[1].volume);
    assert!(out.contacts.iter().all(|c| c.attacker != c.target));
    assert_eq!(out.damage_events.len(), 2);
    assert_eq!(out.damage_events[0].damage, 3);
    assert_eq!(out.damage_events[1].damage, 8);
    assert_eq!(store.volumes.len(), 0);
}
