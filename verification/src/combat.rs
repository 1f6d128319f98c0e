//! Attack volumes, collision resolution, damage application and the combo
//! tracker.
//!
//! An attack volume ("hitbox") lives from its spawn until it either registers
//! exactly one valid contact or its lifetime expires, whichever comes first.
//! The collision resolver walks the overlap pairs the external motion system
//! reported, discards malformed pairs and self-hits, honours blocking, emits
//! at most one damage message per volume and removes a volume on its first
//! contact.

use vstd::prelude::*;

use crate::game_state::{BossType, GameConfig};
use crate::player::{AttackType, BlockState, Combatant, FacingDirection, Health};
use crate::progress::PlayerProgress;

verus! {

/// Base knockback strength on an unblocked hit, in world units.
pub const KNOCKBACK_BASE: u32 = 500;

/// Passive marker for a combatant's hit-receiving region. It never owns any
/// damage logic.
#[derive(Clone, Copy, Debug, PartialEq, Eq, Structural)]
pub struct Hurtbox;

/// An accepted attack intent: who attacks, and with which kind.
#[derive(Clone, Copy, Debug, PartialEq, Eq, Structural)]
pub struct SpawnHitboxEvent {
    pub attacker: u8,
    pub attack_type: AttackType,
}

/// The damaging core of an attack volume.
#[derive(Clone, Copy, Debug, PartialEq, Eq, Structural)]
pub struct Hitbox {
    pub damage: i32,
    pub owner: u8,
}

/// Remaining lifetime of an attack volume, in milliseconds.
#[derive(Clone, Copy, Debug, PartialEq, Eq, Structural)]
pub struct HitboxDuration {
    pub remaining_ms: u32,
}

/// One damage message: at most one is emitted per attack-volume contact.
#[derive(Clone, Copy, Debug, PartialEq, Eq, Structural)]
pub struct DamageEvent {
    pub target: u8,
    pub damage: i32,
}

/// A knockback request handed to the external motion integrator: push
/// `target` along the (unnormalised) direction with the given strength.
#[derive(Clone, Copy, Debug, PartialEq, Eq, Structural)]
pub struct Impulse {
    pub target: u8,
    pub dir_x: i64,
    pub dir_y: i64,
    pub strength: u32,
}

/// The record of one valid attack-volume contact.
#[derive(Clone, Copy, Debug, PartialEq, Eq, Structural)]
pub struct Contact {
    pub volume: u64,
    pub attacker: u8,
    pub target: u8,
    pub damage: i32,
    pub blocked: bool,
}

/// The spatial and damaging properties an attack kind spawns with.
#[derive(Clone, Copy, Debug, PartialEq, Eq, Structural)]
pub struct AttackProfile {
    pub offset_x: i64,
    pub offset_y: i64,
    pub width: i64,
    pub height: i64,
    pub damage: i32,
    pub lifetime_ms: u32,
}

/// The attack table: offset (flipped with facing), size, damage and lifetime
/// per attack kind.
pub open spec fn spec_attack_profile(kind: AttackType, facing: FacingDirection) -> AttackProfile {
    let flip: int = if facing == FacingDirection::Right {
        1
    } else {
        -1
    };
    match kind {
        AttackType::Light => AttackProfile {
            offset_x: (55 * flip) as i64,
            offset_y: 0,
            width: 60,
            height: 35,
            damage: 3,
            lifetime_ms: 120,
        },
        AttackType::Heavy => AttackProfile {
            offset_x: (70 * flip) as i64,
            offset_y: 0,
            width: 80,
            height: 45,
            damage: 8,
            lifetime_ms: 200,
        },
        AttackType::Kick => AttackProfile {
            offset_x: (65 * flip) as i64,
            offset_y: -10 as i64,
            width: 70,
            height: 40,
            damage: 5,
            lifetime_ms: 160,
        },
    }
}

/// Looks up the attack table for a kind and a facing.
pub fn attack_profile(kind: AttackType, facing: FacingDirection) -> (p: AttackProfile)
    ensures
        p == spec_attack_profile(kind, facing),
        p.damage > 0,
{
    let flip: i64 = if matches!(facing, FacingDirection::Right) {
        1
    } else {
        -1
    };
    match kind {
        AttackType::Light => AttackProfile {
            offset_x: 55 * flip,
            offset_y: 0,
            width: 60,
            height: 35,
            damage: 3,
            lifetime_ms: 120,
        },
        AttackType::Heavy => AttackProfile {
            offset_x: 70 * flip,
            offset_y: 0,
            width: 80,
            height: 45,
            damage: 8,
            lifetime_ms: 200,
        },
        AttackType::Kick => AttackProfile {
            offset_x: 65 * flip,
            offset_y: -10,
            width: 70,
            height: 40,
            damage: 5,
            lifetime_ms: 160,
        },
    }
}

/// One live attack volume: its identity, damaging core, attacker-relative
/// placement and remaining lifetime.
#[derive(Clone, Copy, Debug, PartialEq, Eq, Structural)]
pub struct AttackVolume {
    pub id: u64,
    pub hitbox: Hitbox,
    pub offset_x: i64,
    pub offset_y: i64,
    pub width: i64,
    pub height: i64,
    pub duration: HitboxDuration,
}

/// True when some volume in `vols` has identity `id`.
pub open spec fn spec_has_id(vols: Seq<AttackVolume>, id: u64) -> bool {
    exists|j: int| 0 <= j < vols.len() && vols[j].id == id
}

/// True when no two volumes in `vols` share an identity.
pub open spec fn spec_unique_ids(vols: Seq<AttackVolume>) -> bool {
    forall|i: int, j: int| 0 <= i < j < vols.len() ==> vols[i].id != vols[j].id
}

/// `vols` with every volume whose identity is `id` removed.
pub open spec fn spec_without_id(vols: Seq<AttackVolume>, id: u64) -> Seq<AttackVolume>
    decreases vols.len(),
{
    if vols.len() == 0 {
        Seq::empty()
    } else {
        let rest = spec_without_id(vols.drop_last(), id);
        if vols.last().id == id {
            rest
        } else {
            rest.push(vols.last())
        }
    }
}

/// `vols` with every volume aged by `dt_ms` and the expired ones dropped: a
/// volume survives exactly when more than `dt_ms` of lifetime remained.
pub open spec fn spec_aged_volumes(vols: Seq<AttackVolume>, dt_ms: u32) -> Seq<AttackVolume>
    decreases vols.len(),
{
    if vols.len() == 0 {
        Seq::empty()
    } else {
        let rest = spec_aged_volumes(vols.drop_last(), dt_ms);
        let v = vols.last();
        if v.duration.remaining_ms > dt_ms {
            rest.push(
                AttackVolume {
                    duration: HitboxDuration {
                        remaining_ms: (v.duration.remaining_ms - dt_ms) as u32,
                    },
                    ..v
                },
            )
        } else {
            rest
        }
    }
}

/// What removing one identity leaves: `id` is gone, every other identity
/// keeps its presence, every surviving volume stood in `vols`, and under
/// unique identities the result's identities stay unique.
#[verifier::rlimit(60)]
pub proof fn lemma_without_id(vols: Seq<AttackVolume>, id: u64)
    ensures
        !spec_has_id(spec_without_id(vols, id), id),
        forall|oid: u64|
            oid != id ==> spec_has_id(spec_without_id(vols, id), oid) == spec_has_id(vols, oid),
        forall|k: int|
            0 <= k < spec_without_id(vols, id).len() ==> exists|j: int|
                0 <= j < vols.len() && #[trigger] spec_without_id(vols, id)[k] == vols[j],
        spec_unique_ids(vols) ==> spec_unique_ids(spec_without_id(vols, id)),
        !spec_has_id(vols, id) ==> spec_without_id(vols, id) == vols,
        spec_unique_ids(vols) && spec_has_id(vols, id) ==> spec_without_id(vols, id).len()
            == vols.len() - 1,
        spec_without_id(vols, id).len() <= vols.len(),
    decreases vols.len(),
{
    if vols.len() == 0 {
        assert(spec_without_id(vols, id) =~= vols);
    } else {
        let prefix = vols.drop_last();
        let last = vols.last();
        let rest = spec_without_id(prefix, id);
        lemma_without_id(prefix, id);
        assert forall|oid: u64| oid != id implies spec_has_id(
            spec_without_id(vols, id),
            oid,
        ) == spec_has_id(vols, oid) by {
            let r = spec_without_id(vols, id);
            if spec_has_id(vols, oid) {
                let j = choose|j: int| 0 <= j < vols.len() && vols[j].id == oid;
                if j < vols.len() - 1 {
                    assert(prefix[j].id == oid);
                    assert(spec_has_id(prefix, oid));
                    assert(spec_has_id(rest, oid));
                    let k = choose|k: int| 0 <= k < rest.len() && rest[k].id == oid;
                    assert(r[k].id == oid);
                    assert(spec_has_id(r, oid));
                } else {
                    assert(last.id == oid);
                    assert(last.id != id);
                    assert(r[r.len() - 1].id == oid);
                    assert(spec_has_id(r, oid));
                }
            }
            if spec_has_id(r, oid) {
                let k = choose|k: int| 0 <= k < r.len() && r[k].id == oid;
                if last.id != id && k == r.len() - 1 {
                    assert(vols[vols.len() - 1].id == oid);
                    assert(spec_has_id(vols, oid));
                } else {
                    assert(rest[k].id == oid);
                    assert(spec_has_id(rest, oid));
                    assert(spec_has_id(prefix, oid));
                    let j = choose|j: int| 0 <= j < prefix.len() && prefix[j].id == oid;
                    assert(vols[j].id == oid);
                    assert(spec_has_id(vols, oid));
                }
            }
        }
        if spec_has_id(spec_without_id(vols, id), id) {
            let r = spec_without_id(vols, id);
            let k = choose|k: int| 0 <= k < r.len() && r[k].id == id;
            if last.id != id && k == r.len() - 1 {
                assert(false);
            } else {
                assert(rest[k].id == id);
                assert(spec_has_id(rest, id));
                assert(false);
            }
        }
        assert forall|k: int| 0 <= k < spec_without_id(vols, id).len() implies exists|j: int|
            0 <= j < vols.len() && #[trigger] spec_without_id(vols, id)[k] == vols[j] by {
            let r = spec_without_id(vols, id);
            if last.id != id && k == r.len() - 1 {
                assert(r[k] == last);
                assert(r[k] == vols[vols.len() - 1]);
            } else {
                assert(r[k] == rest[k]);
                let j = choose|j: int| 0 <= j < prefix.len() && rest[k] == prefix[j];
                assert(r[k] == vols[j]);
            }
        }
        if spec_unique_ids(vols) {
            assert(spec_unique_ids(prefix)) by {
                assert forall|a: int, b: int| 0 <= a < b < prefix.len()
                    implies prefix[a].id != prefix[b].id by {
                    assert(vols[a].id != vols[b].id);
                }
            }
            if last.id != id {
                let r = spec_without_id(vols, id);
                assert forall|a: int, b: int| 0 <= a < b < r.len() implies r[a].id != r[b].id by {
                    if b < r.len() - 1 {
                        assert(rest[a].id != rest[b].id);
                    } else {
                        assert(r[b] == last);
                        assert(r[a] == rest[a]);
                        let j = choose|j: int| 0 <= j < prefix.len() && rest[a] == prefix[j];
                        assert(vols[j].id != vols[vols.len() - 1].id);
                    }
                }
            }
        }
        if !spec_has_id(vols, id) {
            assert(!spec_has_id(prefix, id)) by {
                if spec_has_id(prefix, id) {
                    let j = choose|j: int| 0 <= j < prefix.len() && prefix[j].id == id;
                    assert(vols[j].id == id);
                }
            }
            assert(last.id != id) by {
                assert(vols[vols.len() - 1].id == last.id);
            }
            assert(spec_without_id(vols, id) =~= vols);
        }
        if spec_unique_ids(vols) && spec_has_id(vols, id) {
            if last.id == id {
                assert(!spec_has_id(prefix, id)) by {
                    if spec_has_id(prefix, id) {
                        let j = choose|j: int| 0 <= j < prefix.len() && prefix[j].id == id;
                        assert(vols[j].id == vols[vols.len() - 1].id);
                    }
                }
            } else {
                assert(spec_has_id(prefix, id)) by {
                    let j = choose|j: int| 0 <= j < vols.len() && vols[j].id == id;
                    assert(j < vols.len() - 1);
                    assert(prefix[j].id == id);
                }
            }
        }
    }
}

/// What aging leaves: every survivor stems from a volume that had lifetime
/// beyond `dt_ms`, every such volume survives with its lifetime shortened by
/// `dt_ms`, and under unique identities the survivors' identities stay
/// unique.
pub proof fn lemma_aged_volumes(vols: Seq<AttackVolume>, dt_ms: u32)
    ensures
        forall|k: int|
            0 <= k < spec_aged_volumes(vols, dt_ms).len() ==> exists|j: int|
                0 <= j < vols.len() && #[trigger] spec_aged_volumes(vols, dt_ms)[k]
                    == (AttackVolume {
                    duration: HitboxDuration {
                        remaining_ms: (vols[j].duration.remaining_ms - dt_ms) as u32,
                    },
                    ..vols[j]
                }) && vols[j].duration.remaining_ms > dt_ms,
        forall|oid: u64|
            #[trigger] spec_has_id(spec_aged_volumes(vols, dt_ms), oid) ==> spec_has_id(
                vols,
                oid,
            ),
        spec_unique_ids(vols) ==> spec_unique_ids(spec_aged_volumes(vols, dt_ms)),
        spec_aged_volumes(vols, dt_ms).len() <= vols.len(),
    decreases vols.len(),
{
    if vols.len() == 0 {
    } else {
        let prefix = vols.drop_last();
        let last = vols.last();
        let rest = spec_aged_volumes(prefix, dt_ms);
        lemma_aged_volumes(prefix, dt_ms);
        let r = spec_aged_volumes(vols, dt_ms);
        assert forall|k: int| 0 <= k < r.len() implies exists|j: int|
            0 <= j < vols.len() && #[trigger] r[k] == (AttackVolume {
                duration: HitboxDuration {
                    remaining_ms: (vols[j].duration.remaining_ms - dt_ms) as u32,
                },
                ..vols[j]
            }) && vols[j].duration.remaining_ms > dt_ms by {
            if last.duration.remaining_ms > dt_ms && k == r.len() - 1 {
                assert(r[k] == (AttackVolume {
                    duration: HitboxDuration {
                        remaining_ms: (vols[vols.len() - 1].duration.remaining_ms - dt_ms) as u32,
                    },
                    ..vols[vols.len() - 1]
                }));
            } else {
                assert(r[k] == rest[k]);
                let j = choose|j: int|
                    0 <= j < prefix.len() && rest[k] == (AttackVolume {
                        duration: HitboxDuration {
                            remaining_ms: (prefix[j].duration.remaining_ms - dt_ms) as u32,
                        },
                        ..prefix[j]
                    }) && prefix[j].duration.remaining_ms > dt_ms;
                assert(prefix[j] == vols[j]);
            }
        }
        assert forall|oid: u64| #[trigger] spec_has_id(r, oid) implies spec_has_id(
            vols,
            oid,
        ) by {
            let k = choose|k: int| 0 <= k < r.len() && r[k].id == oid;
            let j = choose|j: int|
                0 <= j < vols.len() && r[k] == (AttackVolume {
                    duration: HitboxDuration {
                        remaining_ms: (vols[j].duration.remaining_ms - dt_ms) as u32,
                    },
                    ..vols[j]
                }) && vols[j].duration.remaining_ms > dt_ms;
            assert(vols[j].id == oid);
        }
        if spec_unique_ids(vols) {
            assert(spec_unique_ids(prefix)) by {
                assert forall|a: int, b: int| 0 <= a < b < prefix.len()
                    implies prefix[a].id != prefix[b].id by {
                    assert(vols[a].id != vols[b].id);
                }
            }
            if last.duration.remaining_ms > dt_ms {
                assert forall|a: int, b: int| 0 <= a < b < r.len() implies r[a].id != r[b].id by {
                    if b < r.len() - 1 {
                        assert(rest[a].id != rest[b].id);
                    } else {
                        assert(r[b].id == last.id);
                        assert(r[a] == rest[a]);
                        assert(spec_has_id(rest, rest[a].id));
                        let j = choose|j: int| 0 <= j < prefix.len() && prefix[j].id == rest[a].id;
                        assert(vols[j].id != vols[vols.len() - 1].id);
                    }
                }
            }
        }
    }
}

/// The set of attack volumes alive this tick, each under a fresh identity.
#[derive(Clone, Debug)]
pub struct VolumeStore {
    pub volumes: Vec<AttackVolume>,
    pub next_id: u64,
}

impl VolumeStore {
    /// Identities are unique, below the next fresh one, and every volume
    /// deals non-negative damage.
    pub open spec fn wf(self) -> bool {
        &&& spec_unique_ids(self.volumes@)
        &&& forall|i: int| 0 <= i < self.volumes@.len() ==> self.volumes@[i].id < self.next_id
        &&& forall|i: int| 0 <= i < self.volumes@.len() ==> self.volumes@[i].hitbox.damage >= 0
    }

    /// True when a volume with identity `id` is alive.
    pub open spec fn spec_contains_id(self, id: u64) -> bool {
        spec_has_id(self.volumes@, id)
    }

    /// The position of the volume with identity `id`.
    pub open spec fn spec_index_of(self, id: u64) -> int {
        spec_index_of_id(self.volumes@, id)
    }

    /// An empty store.
    pub fn new() -> (s: VolumeStore)
        ensures
            s.wf(),
            s.volumes@.len() == 0,
            s.next_id == 0,
    {
        VolumeStore { volumes: Vec::new(), next_id: 0 }
    }

    /// Spawns one attack volume for an accepted attack intent, with the
    /// attack table's properties for the kind and the attacker's facing.
    pub fn spawn_hitbox(&mut self, event: SpawnHitboxEvent, facing: FacingDirection)
        requires
            old(self).wf(),
            old(self).next_id < u64::MAX,
            old(self).volumes@.len() < usize::MAX,
        ensures
            final(self).wf(),
            final(self).next_id == old(self).next_id + 1,
            final(self).volumes@ == old(self).volumes@.push(
                AttackVolume {
                    id: old(self).next_id,
                    hitbox: Hitbox {
                        damage: spec_attack_profile(event.attack_type, facing).damage,
                        owner: event.attacker,
                    },
                    offset_x: spec_attack_profile(event.attack_type, facing).offset_x,
                    offset_y: spec_attack_profile(event.attack_type, facing).offset_y,
                    width: spec_attack_profile(event.attack_type, facing).width,
                    height: spec_attack_profile(event.attack_type, facing).height,
                    duration: HitboxDuration {
                        remaining_ms: spec_attack_profile(event.attack_type, facing).lifetime_ms,
                    },
                },
            ),
            final(self).spec_contains_id(old(self).next_id),
    {
        let profile = attack_profile(event.attack_type, facing);
        let vol = AttackVolume {
            id: self.next_id,
            hitbox: Hitbox { damage: profile.damage, owner: event.attacker },
            offset_x: profile.offset_x,
            offset_y: profile.offset_y,
            width: profile.width,
            height: profile.height,
            duration: HitboxDuration { remaining_ms: profile.lifetime_ms },
        };
        self.volumes.push(vol);
        self.next_id = self.next_id + 1;
        assert(self.volumes@.last().id == old(self).next_id);
    }

    /// Reads the volume with identity `id`, if it is alive.
    pub fn get(&self, id: u64) -> (r: Option<AttackVolume>)
        requires
            self.wf(),
        ensures
            self.spec_contains_id(id) ==> r == Some(self.volumes@[self.spec_index_of(id)]),
            !self.spec_contains_id(id) ==> r == Option::<AttackVolume>::None,
            r is Some ==> self.spec_contains_id(id) && r->Some_0.id == id,
    {
        let mut i: usize = 0;
        while i < self.volumes.len()
            invariant
                self.wf(),
                i <= self.volumes@.len(),
                forall|j: int| 0 <= j < i ==> self.volumes@[j].id != id,
            decreases self.volumes@.len() - i,
        {
            if self.volumes[i].id == id {
                assert(self.spec_contains_id(id));
                proof {
                    let k = self.spec_index_of(id);
                    assert(0 <= k < self.volumes@.len() && self.volumes@[k].id == id);
                    assert(self.volumes@[k].id == self.volumes@[i as int].id);
                    assert(k == i as int);
                }
                return Some(self.volumes[i]);
            }
            i = i + 1;
        }
        assert(!self.spec_contains_id(id));
        None
    }

    /// Removes the volume with identity `id`; every other volume stays.
    pub fn remove_volume(&mut self, id: u64)
        requires
            old(self).wf(),
        ensures
            final(self).wf(),
            final(self).next_id == old(self).next_id,
            final(self).volumes@ == spec_without_id(old(self).volumes@, id),
            !final(self).spec_contains_id(id),
            forall|oid: u64|
                oid != id ==> final(self).spec_contains_id(oid) == old(self).spec_contains_id(
                    oid,
                ),
            old(self).spec_contains_id(id) ==> final(self).volumes@.len() == old(
                self,
            ).volumes@.len() - 1,
            !old(self).spec_contains_id(id) ==> final(self).volumes@ == old(self).volumes@,
    {
        let ghost orig = self.volumes@;
        let mut kept: Vec<AttackVolume> = Vec::new();
        let mut i: usize = 0;
        while i < self.volumes.len()
            invariant
                self.volumes@ == orig,
                i <= orig.len(),
                kept@ == spec_without_id(orig.take(i as int), id),
            decreases orig.len() - i,
        {
            let v = self.volumes[i];
            proof {
                assert(orig.take(i + 1).drop_last() =~= orig.take(i as int));
                assert(orig.take(i + 1).last() == orig[i as int]);
            }
            if v.id != id {
                kept.push(v);
            }
            i = i + 1;
        }
        proof {
            assert(orig.take(orig.len() as int) =~= orig);
            lemma_without_id(orig, id);
        }
        self.volumes = kept;
        proof {
            let r = self.volumes@;
            assert forall|k: int| 0 <= k < r.len()
                implies r[k].id < self.next_id && r[k].hitbox.damage >= 0 by {
                let j = choose|j: int| 0 <= j < orig.len() && #[trigger] r[k] == orig[j];
            }
        }
    }

    /// Ages every volume by `dt_ms` and despawns those whose lifetime has
    /// elapsed: a volume survives, with its lifetime shortened, exactly when
    /// more than `dt_ms` of lifetime remained. No volume is added.
    pub fn despawn_hitbox_after_duration(&mut self, dt_ms: u32)
        requires
            old(self).wf(),
        ensures
            final(self).wf(),
            final(self).next_id == old(self).next_id,
            final(self).volumes@ == spec_aged_volumes(old(self).volumes@, dt_ms),
            forall|oid: u64|
                #[trigger] final(self).spec_contains_id(oid) ==> old(self).spec_contains_id(oid),
    {
        let ghost orig = self.volumes@;
        let mut kept: Vec<AttackVolume> = Vec::new();
        let mut i: usize = 0;
        while i < self.volumes.len()
            invariant
                self.volumes@ == orig,
                i <= orig.len(),
                kept@ == spec_aged_volumes(orig.take(i as int), dt_ms),
            decreases orig.len() - i,
        {
            let v = self.volumes[i];
            proof {
                assert(orig.take(i + 1).drop_last() =~= orig.take(i as int));
                assert(orig.take(i + 1).last() == orig[i as int]);
            }
            if v.duration.remaining_ms > dt_ms {
                let aged = AttackVolume {
                    duration: HitboxDuration { remaining_ms: v.duration.remaining_ms - dt_ms },
                    ..v
                };
                kept.push(aged);
            }
            i = i + 1;
        }
        proof {
            assert(orig.take(orig.len() as int) =~= orig);
            lemma_aged_volumes(orig, dt_ms);
        }
        self.volumes = kept;
        proof {
            let r = self.volumes@;
            assert forall|k: int| 0 <= k < r.len()
                implies r[k].id < self.next_id && r[k].hitbox.damage >= 0 by {
                let j = choose|j: int|
                    0 <= j < orig.len() && #[trigger] r[k] == (AttackVolume {
                        duration: HitboxDuration {
                            remaining_ms: (orig[j].duration.remaining_ms - dt_ms) as u32,
                        },
                        ..orig[j]
                    }) && orig[j].duration.remaining_ms > dt_ms;
            }
        }
    }
}

/// A region identity the external collision system reports: a live attack
/// volume, a combatant's body, or terrain.
#[derive(Clone, Copy, Debug, PartialEq, Eq, Structural)]
pub enum RegionId {
    Volume(u64),
    Body(u8),
    Terrain,
}

/// One overlap the external collision system reported this tick.
#[derive(Clone, Copy, Debug, PartialEq, Eq, Structural)]
pub struct OverlapPair {
    pub a: RegionId,
    pub b: RegionId,
}

impl OverlapPair {
    /// Reads the pair as (attack volume, body), either way round; `None` for
    /// a malformed pair, which the resolver discards.
    pub open spec fn spec_classify(self) -> Option<(u64, u8)> {
        match (self.a, self.b) {
            (RegionId::Volume(v), RegionId::Body(b)) => Some((v, b)),
            (RegionId::Body(b), RegionId::Volume(v)) => Some((v, b)),
            _ => None,
        }
    }

    /// Reads the pair as (attack volume, body), either way round.
    pub fn classify(&self) -> (r: Option<(u64, u8)>)
        ensures
            r == self.spec_classify(),
    {
        match (self.a, self.b) {
            (RegionId::Volume(v), RegionId::Body(b)) => Some((v, b)),
            (RegionId::Body(b), RegionId::Volume(v)) => Some((v, b)),
            _ => None,
        }
    }

    /// True when the pair involves the body of combatant `id`.
    pub open spec fn spec_mentions_body(self, id: u8) -> bool {
        self.a == RegionId::Body(id) || self.b == RegionId::Body(id)
    }

    /// True when the pair involves the body of combatant `id`.
    pub fn mentions_body(&self, id: u8) -> (r: bool)
        ensures
            r == self.spec_mentions_body(id),
    {
        match self.a {
            RegionId::Body(b) if b == id => true,
            _ => match self.b {
                RegionId::Body(b) => b == id,
                _ => false,
            },
        }
    }
}

/// The position in `vols` of the volume with identity `id`.
pub open spec fn spec_index_of_id(vols: Seq<AttackVolume>, id: u64) -> int {
    choose|j: int| 0 <= j < vols.len() && vols[j].id == id
}

/// The combatant record with identity `id`, among the two fighting.
pub open spec fn spec_find_combatant(c1: Combatant, c2: Combatant, id: u8) -> Option<Combatant> {
    if c1.player.id == id {
        Some(c1)
    } else if c2.player.id == id {
        Some(c2)
    } else {
        None
    }
}

/// Whether the combatant with identity `id` is blocking; a missing record
/// reads as not blocking.
pub open spec fn spec_is_blocking_of(c1: Combatant, c2: Combatant, id: u8) -> bool {
    match spec_find_combatant(c1, c2, id) {
        Some(c) => c.block.is_blocking,
        None => false,
    }
}

/// Reads the combatant record with identity `id`, among the two fighting.
pub fn find_combatant(c1: &Combatant, c2: &Combatant, id: u8) -> (r: Option<Combatant>)
    ensures
        r == spec_find_combatant(*c1, *c2, id),
{
    if c1.player.id == id {
        Some(*c1)
    } else if c2.player.id == id {
        Some(*c2)
    } else {
        None
    }
}

/// The knockback direction for a contact: the unnormalised vector from the
/// attacker to the defender, with a fixed fallback when the two stand on the
/// same point, so that the direction is never the zero vector.
pub open spec fn spec_knockback_direction(ax: int, ay: int, tx: int, ty: int) -> (int, int) {
    if tx == ax && ty == ay {
        (1, 0)
    } else {
        (tx - ax, ty - ay)
    }
}

/// What one valid contact produces when both combatant records are known:
/// at most one damage message, and a knockback impulse for each side.
#[derive(Clone, Copy, Debug, PartialEq, Eq, Structural)]
pub struct ContactOutcome {
    pub damage_message: Option<DamageEvent>,
    pub defender_impulse: Impulse,
    pub attacker_impulse: Impulse,
}

/// Resolution of one contact of a volume dealing `damage` against `target`.
/// A blocking target suppresses the damage message and halves the defender
/// knockback (250 of the base 500), with the attacker recoiling at a fifth
/// of that; an open target takes the message and full knockback, with the
/// attacker recoiling at three tenths of the base.
pub open spec fn spec_resolve_contact(
    damage: i32,
    attacker: Combatant,
    target: Combatant,
) -> ContactOutcome {
    let dir = spec_knockback_direction(
        attacker.x as int,
        attacker.y as int,
        target.x as int,
        target.y as int,
    );
    if target.block.is_blocking {
        ContactOutcome {
            damage_message: None,
            defender_impulse: Impulse {
                target: target.player.id,
                dir_x: dir.0 as i64,
                dir_y: dir.1 as i64,
                strength: 250,
            },
            attacker_impulse: Impulse {
                target: attacker.player.id,
                dir_x: (-dir.0) as i64,
                dir_y: (-dir.1) as i64,
                strength: 50,
            },
        }
    } else {
        ContactOutcome {
            damage_message: Some(DamageEvent { target: target.player.id, damage }),
            defender_impulse: Impulse {
                target: target.player.id,
                dir_x: dir.0 as i64,
                dir_y: dir.1 as i64,
                strength: 500,
            },
            attacker_impulse: Impulse {
                target: attacker.player.id,
                dir_x: (-dir.0) as i64,
                dir_y: (-dir.1) as i64,
                strength: 150,
            },
        }
    }
}

/// Resolves one contact: blocking suppresses the damage message and reduces
/// the knockback; the volume's damage rides in the message otherwise.
pub fn resolve_contact(damage: i32, attacker: &Combatant, target: &Combatant) -> (r:
    ContactOutcome)
    requires
        -1000000000 <= attacker.x <= 1000000000,
        -1000000000 <= attacker.y <= 1000000000,
        -1000000000 <= target.x <= 1000000000,
        -1000000000 <= target.y <= 1000000000,
    ensures
        r == spec_resolve_contact(damage, *attacker, *target),
        target.block.is_blocking ==> r.damage_message is None,
        !target.block.is_blocking ==> r.damage_message == Some(
            DamageEvent { target: target.player.id, damage },
        ),
        !(r.defender_impulse.dir_x == 0 && r.defender_impulse.dir_y == 0),
{
    let (dir_x, dir_y): (i64, i64) = if target.x == attacker.x && target.y == attacker.y {
        (1, 0)
    } else {
        (target.x - attacker.x, target.y - attacker.y)
    };
    if target.block.is_blocking {
        ContactOutcome {
            damage_message: None,
            defender_impulse: Impulse {
                target: target.player.id,
                dir_x,
                dir_y,
                strength: 250,
            },
            attacker_impulse: Impulse {
                target: attacker.player.id,
                dir_x: -dir_x,
                dir_y: -dir_y,
                strength: 50,
            },
        }
    } else {
        ContactOutcome {
            damage_message: Some(DamageEvent { target: target.player.id, damage }),
            defender_impulse: Impulse {
                target: target.player.id,
                dir_x,
                dir_y,
                strength: 500,
            },
            attacker_impulse: Impulse {
                target: attacker.player.id,
                dir_x: -dir_x,
                dir_y: -dir_y,
                strength: 150,
            },
        }
    }
}

/// Blocking mitigation: a volume contacting a blocking target yields no
/// damage message, and the defender knockback strength is exactly half of
/// what the same contact yields against the same target not blocking, along
/// the same direction.
pub proof fn lemma_blocking_mitigation(damage: i32, attacker: Combatant, target: Combatant)
    requires
        target.block.is_blocking,
    ensures
        spec_resolve_contact(damage, attacker, target).damage_message is None,
        ({
            let open_target = Combatant {
                block: BlockState { is_blocking: false, ..target.block },
                ..target
            };
            let blocked = spec_resolve_contact(damage, attacker, target);
            let unblocked = spec_resolve_contact(damage, attacker, open_target);
            &&& 2 * blocked.defender_impulse.strength == unblocked.defender_impulse.strength
            &&& blocked.defender_impulse.dir_x == unblocked.defender_impulse.dir_x
            &&& blocked.defender_impulse.dir_y == unblocked.defender_impulse.dir_y
            &&& unblocked.damage_message is Some
        }),
{
}

/// The damage messages a run of contacts emits: one per unblocked contact,
/// none for a blocked one.
pub open spec fn spec_damage_messages(contacts: Seq<Contact>) -> Seq<DamageEvent>
    decreases contacts.len(),
{
    if contacts.len() == 0 {
        Seq::empty()
    } else {
        let rest = spec_damage_messages(contacts.drop_last());
        let c = contacts.last();
        if c.blocked {
            rest
        } else {
            rest.push(DamageEvent { target: c.target, damage: c.damage })
        }
    }
}

/// The knockback impulses a run of contacts requests: a defender and an
/// attacker impulse per contact whose two combatant records are both known.
pub open spec fn spec_contact_impulses(
    contacts: Seq<Contact>,
    c1: Combatant,
    c2: Combatant,
) -> Seq<Impulse>
    decreases contacts.len(),
{
    if contacts.len() == 0 {
        Seq::empty()
    } else {
        let rest = spec_contact_impulses(contacts.drop_last(), c1, c2);
        let c = contacts.last();
        match (spec_find_combatant(c1, c2, c.attacker), spec_find_combatant(c1, c2, c.target)) {
            (Some(att), Some(tgt)) => {
                let oc = spec_resolve_contact(c.damage, att, tgt);
                rest.push(oc.defender_impulse).push(oc.attacker_impulse)
            },
            _ => rest,
        }
    }
}

/// Resolution of a single overlap pair against the live volumes: a malformed
/// pair, a pair whose volume is no longer alive, and a self-hit each produce
/// nothing; any other pair produces exactly one contact and consumes its
/// volume.
pub open spec fn spec_resolve_one(
    vols: Seq<AttackVolume>,
    pair: OverlapPair,
    c1: Combatant,
    c2: Combatant,
) -> (Seq<Contact>, Seq<AttackVolume>) {
    match pair.spec_classify() {
        Option::None => (Seq::empty(), vols),
        Option::Some((v, b)) => if !spec_has_id(vols, v) {
            (Seq::empty(), vols)
        } else {
            let vol = vols[spec_index_of_id(vols, v)];
            if vol.hitbox.owner == b {
                (Seq::empty(), vols)
            } else {
                let contact = Contact {
                    volume: v,
                    attacker: vol.hitbox.owner,
                    target: b,
                    damage: vol.hitbox.damage,
                    blocked: spec_is_blocking_of(c1, c2, b),
                };
                (seq![contact], spec_without_id(vols, v))
            }
        },
    }
}

/// Resolution of a tick's overlap pairs in report order: the contacts
/// emitted and the volumes still alive afterwards.
pub open spec fn spec_resolve_overlaps(
    vols: Seq<AttackVolume>,
    pairs: Seq<OverlapPair>,
    c1: Combatant,
    c2: Combatant,
) -> (Seq<Contact>, Seq<AttackVolume>)
    decreases pairs.len(),
{
    if pairs.len() == 0 {
        (Seq::empty(), vols)
    } else {
        let head = spec_resolve_one(vols, pairs[0], c1, c2);
        let rest = spec_resolve_overlaps(head.1, pairs.drop_first(), c1, c2);
        (head.0 + rest.0, rest.1)
    }
}

/// Appending one pair to a run of overlaps resolves the run first and the
/// new pair against what the run left alive.
pub proof fn lemma_resolve_snoc(
    vols: Seq<AttackVolume>,
    pairs: Seq<OverlapPair>,
    p: OverlapPair,
    c1: Combatant,
    c2: Combatant,
)
    ensures
        ({
            let whole = spec_resolve_overlaps(vols, pairs.push(p), c1, c2);
            let run = spec_resolve_overlaps(vols, pairs, c1, c2);
            let last = spec_resolve_one(run.1, p, c1, c2);
            whole.0 == run.0 + last.0 && whole.1 == last.1
        }),
    decreases pairs.len(),
{
    if pairs.len() == 0 {
        let head = spec_resolve_one(vols, pairs.push(p)[0], c1, c2);
        assert(pairs.push(p)[0] == p);
        let dropped = pairs.push(p).drop_first();
        assert(dropped =~= Seq::<OverlapPair>::empty());
        assert(spec_resolve_overlaps(head.1, dropped, c1, c2).0 == Seq::<Contact>::empty());
        assert(spec_resolve_overlaps(head.1, dropped, c1, c2).1 == head.1);
        let whole = spec_resolve_overlaps(vols, pairs.push(p), c1, c2);
        assert(whole.0 == head.0 + Seq::<Contact>::empty());
        assert(head.0 + Seq::<Contact>::empty() =~= head.0);
        let run = spec_resolve_overlaps(vols, pairs, c1, c2);
        assert(run.0 == Seq::<Contact>::empty());
        assert(run.1 == vols);
        assert(run.0 + head.0 =~= head.0);
    } else {
        let head = spec_resolve_one(vols, pairs[0], c1, c2);
        assert(pairs.push(p)[0] == pairs[0]);
        assert(pairs.push(p).drop_first() =~= pairs.drop_first().push(p));
        lemma_resolve_snoc(head.1, pairs.drop_first(), p, c1, c2);
        let run_rest = spec_resolve_overlaps(head.1, pairs.drop_first(), c1, c2);
        let last = spec_resolve_one(run_rest.1, p, c1, c2);
        let whole = spec_resolve_overlaps(vols, pairs.push(p), c1, c2);
        assert(whole.0 =~= head.0 + (run_rest.0 + last.0));
        assert(head.0 + (run_rest.0 + last.0) =~= (head.0 + run_rest.0) + last.0);
    }
}

/// Picking the index of a present identity lands on a volume with that
/// identity.
pub proof fn lemma_index_of_id(vols: Seq<AttackVolume>, id: u64)
    requires
        spec_has_id(vols, id),
    ensures
        0 <= spec_index_of_id(vols, id) < vols.len(),
        vols[spec_index_of_id(vols, id)].id == id,
{
    let j = choose|j: int| 0 <= j < vols.len() && vols[j].id == id;
    assert(0 <= j < vols.len() && vols[j].id == id);
}

/// Under unique identities, the index of an identity is the only position
/// holding it.
pub proof fn lemma_unique_index(vols: Seq<AttackVolume>, j: int, id: u64)
    requires
        spec_unique_ids(vols),
        0 <= j < vols.len(),
        vols[j].id == id,
    ensures
        spec_index_of_id(vols, id) == j,
        spec_has_id(vols, id),
{
    lemma_index_of_id(vols, id);
    let k = spec_index_of_id(vols, id);
    if k != j {
        assert(vols[k].id == vols[j].id);
        assert(false);
    }
}

/// What resolving a tick's overlaps guarantees, given unique volume
/// identities: each contact consumes a distinct volume that was alive and is
/// no longer, no contact is a self-hit, each contact carries its volume's
/// owner and damage and the target's blocking state, the surviving volumes
/// all stood among those alive before, and their identities stay unique.
pub proof fn lemma_resolve_overlaps_props(
    vols: Seq<AttackVolume>,
    pairs: Seq<OverlapPair>,
    c1: Combatant,
    c2: Combatant,
)
    requires
        spec_unique_ids(vols),
    ensures
        ({
            let r = spec_resolve_overlaps(vols, pairs, c1, c2);
            let contacts = r.0;
            let left = r.1;
            &&& forall|i: int, j: int|
                0 <= i < j < contacts.len() ==> contacts[i].volume != contacts[j].volume
            &&& forall|i: int|
                0 <= i < contacts.len() ==> !spec_has_id(left, (#[trigger] contacts[i]).volume)
            &&& forall|i: int|
                0 <= i < contacts.len() ==> (#[trigger] contacts[i]).attacker
                    != contacts[i].target
            &&& forall|i: int|
                0 <= i < contacts.len() ==> spec_has_id(vols, (#[trigger] contacts[i]).volume)
            &&& forall|i: int|
                0 <= i < contacts.len() ==> (#[trigger] contacts[i]).damage == vols[
                    spec_index_of_id(vols, contacts[i].volume)].hitbox.damage && contacts[
                i].attacker == vols[spec_index_of_id(vols, contacts[i].volume)].hitbox.owner
            &&& forall|i: int|
                0 <= i < contacts.len() ==> (#[trigger] contacts[i]).blocked
                    == spec_is_blocking_of(c1, c2, contacts[i].target)
            &&& forall|k: int| 0 <= k < left.len() ==> vols.contains(#[trigger] left[k])
            &&& spec_unique_ids(left)
        }),
    decreases pairs.len(),
{
    let r = spec_resolve_overlaps(vols, pairs, c1, c2);
    let contacts = r.0;
    let left = r.1;
    if pairs.len() == 0 {
        assert(contacts.len() == 0);
        assert(left == vols);
        assert forall|k: int| 0 <= k < left.len() implies vols.contains(#[trigger] left[k]) by {
            assert(vols[k] == left[k]);
        }
    } else {
        let head = spec_resolve_one(vols, pairs[0], c1, c2);
        let rest = spec_resolve_overlaps(head.1, pairs.drop_first(), c1, c2);
        assert(contacts == head.0 + rest.0);
        assert(left == rest.1);

        // Facts about the head step.
        if head.0.len() > 0 {
            let v = head.0[0].volume;
            lemma_index_of_id(vols, v);
            lemma_without_id(vols, v);
            assert(head.1 == spec_without_id(vols, v));
        } else {
            assert(head.1 == vols);
        }
        assert(spec_unique_ids(head.1));
        lemma_resolve_overlaps_props(head.1, pairs.drop_first(), c1, c2);

        // Every element of head.1 stood in vols.
        assert forall|m: int| 0 <= m < head.1.len() implies vols.contains(
            #[trigger] head.1[m],
        ) by {
            if head.0.len() > 0 {
                let v = head.0[0].volume;
                let j = choose|j: int|
                    0 <= j < vols.len() && #[trigger] spec_without_id(vols, v)[m] == vols[j];
                assert(head.1[m] == vols[j]);
            } else {
                assert(head.1[m] == vols[m]);
            }
        }

        assert forall|k: int| 0 <= k < left.len() implies vols.contains(#[trigger] left[k]) by {
            assert(head.1.contains(left[k]));
            let m = choose|m: int| 0 <= m < head.1.len() && head.1[m] == left[k];
            assert(vols.contains(head.1[m]));
        }

        // An identity alive in head.1 was alive in vols, and names the same
        // volume record.
        assert forall|oid: u64| #[trigger] spec_has_id(head.1, oid) implies spec_has_id(
            vols,
            oid,
        ) && head.1[spec_index_of_id(head.1, oid)] == vols[spec_index_of_id(vols, oid)] by {
            lemma_index_of_id(head.1, oid);
            let m = spec_index_of_id(head.1, oid);
            assert(vols.contains(head.1[m]));
            let j = choose|j: int| 0 <= j < vols.len() && vols[j] == head.1[m];
            lemma_unique_index(vols, j, oid);
        }

        assert forall|i: int| 0 <= i < contacts.len() implies spec_has_id(
            vols,
            (#[trigger] contacts[i]).volume,
        ) && contacts[i].damage == vols[spec_index_of_id(vols, contacts[i].volume)].hitbox.damage
            && contacts[i].attacker == vols[spec_index_of_id(
            vols,
            contacts[i].volume,
        )].hitbox.owner && contacts[i].attacker != contacts[i].target && contacts[i].blocked
            == spec_is_blocking_of(c1, c2, contacts[i].target) by {
            if i < head.0.len() {
                assert(i == 0);
                assert(contacts[0] == head.0[0]);
                let v = head.0[0].volume;
                lemma_unique_index(vols, spec_index_of_id(vols, v), v);
            } else {
                let ci = rest.0[i - head.0.len()];
                assert(contacts[i] == ci);
                assert(spec_has_id(head.1, ci.volume));
            }
        }

        // Distinctness, and consumed volumes staying consumed.
        assert forall|i: int| 0 <= i < contacts.len() implies !spec_has_id(
            left,
            (#[trigger] contacts[i]).volume,
        ) by {
            if i >= head.0.len() {
                assert(contacts[i] == rest.0[i - head.0.len()]);
            } else {
                let v = head.0[0].volume;
                assert(!spec_has_id(head.1, v));
                if spec_has_id(left, v) {
                    lemma_index_of_id(left, v);
                    let k = spec_index_of_id(left, v);
                    assert(head.1.contains(left[k]));
                    let m = choose|m: int| 0 <= m < head.1.len() && head.1[m] == left[k];
                    assert(head.1[m].id == v);
                    assert(false);
                }
            }
        }
        assert forall|i: int, j: int| 0 <= i < j < contacts.len()
            implies contacts[i].volume != contacts[j].volume by {
            if i >= head.0.len() {
                assert(contacts[i] == rest.0[i - head.0.len()]);
                assert(contacts[j] == rest.0[j - head.0.len()]);
            } else {
                assert(i == 0 && head.0.len() == 1);
                let v = head.0[0].volume;
                assert(!spec_has_id(head.1, v));
                assert(contacts[j] == rest.0[j - 1]);
                assert(spec_has_id(head.1, rest.0[j - 1].volume));
            }
        }
    }
}

/// Each damage message restates an unblocked contact, and there are no more
/// messages than contacts.
pub proof fn lemma_damage_messages_props(contacts: Seq<Contact>)
    ensures
        forall|m: int|
            0 <= m < spec_damage_messages(contacts).len() ==> exists|i: int|
                0 <= i < contacts.len() && !contacts[i].blocked && #[trigger] spec_damage_messages(
                    contacts,
                )[m] == (DamageEvent { target: contacts[i].target, damage: contacts[i].damage }),
        spec_damage_messages(contacts).len() <= contacts.len(),
    decreases contacts.len(),
{
    if contacts.len() == 0 {
    } else {
        let prefix = contacts.drop_last();
        lemma_damage_messages_props(prefix);
        let r = spec_damage_messages(contacts);
        assert forall|m: int| 0 <= m < r.len() implies exists|i: int|
            0 <= i < contacts.len() && !contacts[i].blocked && #[trigger] r[m] == (DamageEvent {
                target: contacts[i].target,
                damage: contacts[i].damage,
            }) by {
            let rest = spec_damage_messages(prefix);
            if m < rest.len() {
                let i = choose|i: int|
                    0 <= i < prefix.len() && !prefix[i].blocked && rest[m] == (DamageEvent {
                        target: prefix[i].target,
                        damage: prefix[i].damage,
                    });
                assert(r[m] == rest[m]);
                assert(contacts[i] == prefix[i]);
            } else {
                assert(!contacts.last().blocked);
                assert(r[m] == (DamageEvent {
                    target: contacts[contacts.len() - 1].target,
                    damage: contacts[contacts.len() - 1].damage,
                }));
            }
        }
    }
}

/// A run of overlap pairs yields at most one contact per pair.
pub proof fn lemma_resolve_overlaps_len(
    vols: Seq<AttackVolume>,
    pairs: Seq<OverlapPair>,
    c1: Combatant,
    c2: Combatant,
)
    ensures
        spec_resolve_overlaps(vols, pairs, c1, c2).0.len() <= pairs.len(),
    decreases pairs.len(),
{
    if pairs.len() > 0 {
        let head = spec_resolve_one(vols, pairs[0], c1, c2);
        lemma_resolve_overlaps_len(head.1, pairs.drop_first(), c1, c2);
    }
}

/// Every damage message the resolver emits aims at a target that was not
/// blocking, so the whole batch counts for the combo.
pub proof fn lemma_all_messages_unblocked(contacts: Seq<Contact>, c1: Combatant, c2: Combatant)
    requires
        forall|i: int|
            0 <= i < contacts.len() ==> (#[trigger] contacts[i]).blocked == spec_is_blocking_of(
                c1,
                c2,
                contacts[i].target,
            ),
    ensures
        spec_unblocked_count(spec_damage_messages(contacts), c1, c2) == spec_damage_messages(
            contacts,
        ).len(),
    decreases contacts.len(),
{
    if contacts.len() > 0 {
        let prefix = contacts.drop_last();
        assert(forall|i: int| 0 <= i < prefix.len() ==> prefix[i] == #[trigger] contacts[i]);
        lemma_all_messages_unblocked(prefix, c1, c2);
        let c = contacts.last();
        if !c.blocked {
            let msgs = spec_damage_messages(contacts);
            assert(msgs.drop_last() =~= spec_damage_messages(prefix));
            assert(msgs.last().target == c.target);
            assert(!spec_is_blocking_of(c1, c2, msgs.last().target));
        } else {
            assert(spec_damage_messages(contacts) == spec_damage_messages(prefix));
        }
    }
}

/// The unblocked count reads only the identities and blocking flags of the
/// two combatants, so it is unchanged by anything else about them.
pub proof fn lemma_unblocked_count_blocks_only(
    msgs: Seq<DamageEvent>,
    a1: Combatant,
    a2: Combatant,
    b1: Combatant,
    b2: Combatant,
)
    requires
        a1.player.id == b1.player.id,
        a2.player.id == b2.player.id,
        a1.block.is_blocking == b1.block.is_blocking,
        a2.block.is_blocking == b2.block.is_blocking,
    ensures
        spec_unblocked_count(msgs, a1, a2) == spec_unblocked_count(msgs, b1, b2),
    decreases msgs.len(),
{
    if msgs.len() > 0 {
        lemma_unblocked_count_blocks_only(msgs.drop_last(), a1, a2, b1, b2);
    }
}

/// What the collision resolver emits for one tick.
#[derive(Clone, Debug)]
pub struct CollisionOutput {
    pub contacts: Vec<Contact>,
    pub damage_events: Vec<DamageEvent>,
    pub impulses: Vec<Impulse>,
}

/// Resolves this tick's overlap reports against the live attack volumes:
/// malformed pairs and self-hits are discarded; each remaining pair whose
/// volume is still alive yields one contact, a damage message unless the
/// target blocks, knockback impulses for both sides where both combatant
/// records are known, and consumes its volume, so no volume ever produces a
/// second contact.
pub fn detect_collisions(
    store: &mut VolumeStore,
    pairs: &Vec<OverlapPair>,
    c1: &Combatant,
    c2: &Combatant,
) -> (out: CollisionOutput)
    requires
        old(store).wf(),
        -1000000000 <= c1.x <= 1000000000,
        -1000000000 <= c1.y <= 1000000000,
        -1000000000 <= c2.x <= 1000000000,
        -1000000000 <= c2.y <= 1000000000,
    ensures
        final(store).wf(),
        final(store).next_id == old(store).next_id,
        out.contacts@ == spec_resolve_overlaps(old(store).volumes@, pairs@, *c1, *c2).0,
        final(store).volumes@ == spec_resolve_overlaps(old(store).volumes@, pairs@, *c1, *c2).1,
        out.damage_events@ == spec_damage_messages(out.contacts@),
        out.impulses@ == spec_contact_impulses(out.contacts@, *c1, *c2),
        forall|i: int, j: int|
            0 <= i < j < out.contacts@.len() ==> out.contacts@[i].volume
                != out.contacts@[j].volume,
        forall|i: int|
            0 <= i < out.contacts@.len() ==> (#[trigger] out.contacts@[i]).attacker
                != out.contacts@[i].target,
        forall|i: int|
            0 <= i < out.contacts@.len() ==> old(store).spec_contains_id(
                (#[trigger] out.contacts@[i]).volume,
            ) && !final(store).spec_contains_id(out.contacts@[i].volume),
        forall|i: int|
            0 <= i < out.contacts@.len() ==> (#[trigger] out.contacts@[i]).damage == old(
                store,
            ).volumes@[old(store).spec_index_of(out.contacts@[i].volume)].hitbox.damage
                && out.contacts@[i].attacker == old(store).volumes@[old(store).spec_index_of(
                out.contacts@[i].volume,
            )].hitbox.owner,
        forall|i: int|
            0 <= i < out.contacts@.len() ==> (#[trigger] out.contacts@[i]).blocked
                == spec_is_blocking_of(*c1, *c2, out.contacts@[i].target),
        forall|k: int|
            0 <= k < final(store).volumes@.len() ==> old(store).volumes@.contains(
                #[trigger] final(store).volumes@[k],
            ),
        forall|m: int|
            0 <= m < out.damage_events@.len() ==> (#[trigger] out.damage_events@[m]).damage >= 0,
{
    let ghost orig = store.volumes@;
    let mut contacts: Vec<Contact> = Vec::new();
    let mut damage_events: Vec<DamageEvent> = Vec::new();
    let mut impulses: Vec<Impulse> = Vec::new();

    let mut i: usize = 0;
    while i < pairs.len()
        invariant
            store.wf(),
            store.next_id == old(store).next_id,
            orig == old(store).volumes@,
            spec_unique_ids(orig),
            i <= pairs@.len(),
            contacts@ == spec_resolve_overlaps(orig, pairs@.take(i as int), *c1, *c2).0,
            store.volumes@ == spec_resolve_overlaps(orig, pairs@.take(i as int), *c1, *c2).1,
            damage_events@ == spec_damage_messages(contacts@),
            impulses@ == spec_contact_impulses(contacts@, *c1, *c2),
            -1000000000 <= c1.x <= 1000000000,
            -1000000000 <= c1.y <= 1000000000,
            -1000000000 <= c2.x <= 1000000000,
            -1000000000 <= c2.y <= 1000000000,
        decreases pairs@.len() - i,
    {
        let pair = pairs[i];
        proof {
            assert(pairs@.take(i + 1) =~= pairs@.take(i as int).push(pairs@[i as int]));
            lemma_resolve_snoc(orig, pairs@.take(i as int), pairs@[i as int], *c1, *c2);
        }
        let ghost vols_now = store.volumes@;
        let ghost step = spec_resolve_one(vols_now, pair, *c1, *c2);

        match pair.classify() {
            Option::None => {
                proof {
                    assert(step.0 =~= Seq::<Contact>::empty());
                    assert(contacts@ + step.0 =~= contacts@);
                }
            },
            Option::Some((v, b)) => {
                match store.get(v) {
                    Option::None => {
                        proof {
                            assert(!spec_has_id(vols_now, v));
                            assert(step.0 =~= Seq::<Contact>::empty());
                            assert(contacts@ + step.0 =~= contacts@);
                        }
                    },
                    Option::Some(vol) => {
                        proof {
                            assert(spec_has_id(vols_now, v));
                            assert(vol == vols_now[spec_index_of_id(vols_now, v)]);
                        }
                        if vol.hitbox.owner == b {
                            proof {
                                assert(step.0 =~= Seq::<Contact>::empty());
                                assert(contacts@ + step.0 =~= contacts@);
                            }
                        } else {
                            let ghost prev_contacts = contacts@;
                            let ghost prev_damage = damage_events@;
                            let ghost prev_impulses = impulses@;

                            let target_opt = find_combatant(c1, c2, b);
                            let blocked = match &target_opt {
                                Option::Some(t) => t.block.is_blocking,
                                Option::None => false,
                            };
                            let attacker_opt = find_combatant(c1, c2, vol.hitbox.owner);

                            if !blocked {
                                damage_events.push(
                                    DamageEvent { target: b, damage: vol.hitbox.damage },
                                );
                            }
                            match (&attacker_opt, &target_opt) {
                                (Option::Some(att), Option::Some(tgt)) => {
                                    let oc = resolve_contact(vol.hitbox.damage, att, tgt);
                                    impulses.push(oc.defender_impulse);
                                    impulses.push(oc.attacker_impulse);
                                },
                                _ => {},
                            }
                            let contact = Contact {
                                volume: v,
                                attacker: vol.hitbox.owner,
                                target: b,
                                damage: vol.hitbox.damage,
                                blocked,
                            };
                            contacts.push(contact);
                            store.remove_volume(v);
                            proof {
                                assert(blocked == spec_is_blocking_of(*c1, *c2, b));
                                assert(step.0 =~= seq![contact]);
                                assert(contacts@.drop_last() =~= prev_contacts);
                                assert(contacts@.last() == contact);
                                assert(prev_contacts + step.0 =~= contacts@);
                                if blocked {
                                    assert(damage_events@ == prev_damage);
                                } else {
                                    assert(damage_events@ =~= prev_damage.push(
                                        DamageEvent { target: b, damage: vol.hitbox.damage },
                                    ));
                                }
                                assert(damage_events@ == spec_damage_messages(contacts@));
                                match (
                                    spec_find_combatant(*c1, *c2, contact.attacker),
                                    spec_find_combatant(*c1, *c2, contact.target),
                                ) {
                                    (Some(att), Some(tgt)) => {
                                        let oc = spec_resolve_contact(contact.damage, att, tgt);
                                        assert(impulses@ =~= prev_impulses.push(
                                            oc.defender_impulse,
                                        ).push(oc.attacker_impulse));
                                    },
                                    _ => {
                                        assert(impulses@ == prev_impulses);
                                    },
                                }
                                assert(impulses@ == spec_contact_impulses(contacts@, *c1, *c2));
                            }
                        }
                    },
                }
            },
        }
        i = i + 1;
    }
    proof {
        assert(pairs@.take(pairs@.len() as int) =~= pairs@);
        lemma_resolve_overlaps_props(orig, pairs@, *c1, *c2);
        lemma_damage_messages_props(contacts@);
        assert forall|m: int| 0 <= m < damage_events@.len()
            implies (#[trigger] damage_events@[m]).damage >= 0 by {
            let ci = choose|ci: int|
                0 <= ci < contacts@.len() && !contacts@[ci].blocked && damage_events@[m]
                    == (DamageEvent {
                    target: contacts@[ci].target,
                    damage: contacts@[ci].damage,
                });
            lemma_index_of_id(orig, contacts@[ci].volume);
        }
    }
    CollisionOutput { contacts, damage_events, impulses }
}

/// A combatant's hit points after a run of damage messages: each message
/// aimed at `id` subtracts its damage, clamped at zero; others pass by.
pub open spec fn spec_health_after(h: int, id: u8, msgs: Seq<DamageEvent>) -> int
    decreases msgs.len(),
{
    if msgs.len() == 0 {
        h
    } else {
        let rest = spec_health_after(h, id, msgs.drop_last());
        let m = msgs.last();
        if m.target == id {
            if rest - m.damage >= 0 {
                rest - m.damage
            } else {
                0
            }
        } else {
            rest
        }
    }
}

/// Health bound: for every run of damage messages with non-negative damage
/// amounts, health that starts within `[0, max]` stays within `[0, max]`,
/// and never rises.
pub proof fn lemma_health_bound(h: int, max: int, id: u8, msgs: Seq<DamageEvent>)
    requires
        0 <= h <= max,
        forall|i: int| 0 <= i < msgs.len() ==> (#[trigger] msgs[i]).damage >= 0,
    ensures
        0 <= spec_health_after(h, id, msgs) <= max,
        spec_health_after(h, id, msgs) <= h,
    decreases msgs.len(),
{
    if msgs.len() == 0 {
    } else {
        let prefix = msgs.drop_last();
        assert(forall|i: int| 0 <= i < prefix.len() ==> (#[trigger] prefix[i]).damage >= 0) by {
            assert(forall|i: int|
                0 <= i < prefix.len() ==> prefix[i] == #[trigger] msgs[i]);
        }
        lemma_health_bound(h, max, id, prefix);
        assert(msgs[msgs.len() - 1].damage >= 0);
    }
}

/// Applies this tick's damage messages to the two combatants: each message
/// clamps its target's health at zero; a message aimed at neither combatant
/// is skipped. Nothing but health changes.
pub fn apply_damage(c1: &mut Combatant, c2: &mut Combatant, msgs: &Vec<DamageEvent>)
    requires
        old(c1).wf(),
        old(c2).wf(),
        old(c1).player.id != old(c2).player.id,
        forall|i: int| 0 <= i < msgs@.len() ==> (#[trigger] msgs@[i]).damage >= 0,
    ensures
        final(c1).wf(),
        final(c2).wf(),
        final(c1).health.current == spec_health_after(
            old(c1).health.current as int,
            old(c1).player.id,
            msgs@,
        ),
        final(c2).health.current == spec_health_after(
            old(c2).health.current as int,
            old(c2).player.id,
            msgs@,
        ),
        final(c1).health.current <= old(c1).health.current,
        final(c2).health.current <= old(c2).health.current,
        *final(c1) == (Combatant {
            health: Health { current: final(c1).health.current, ..old(c1).health },
            ..*old(c1)
        }),
        *final(c2) == (Combatant {
            health: Health { current: final(c2).health.current, ..old(c2).health },
            ..*old(c2)
        }),
{
    let mut i: usize = 0;
    while i < msgs.len()
        invariant
            i <= msgs@.len(),
            c1.wf(),
            c2.wf(),
            c1.player.id != c2.player.id,
            c1.player.id == old(c1).player.id,
            c2.player.id == old(c2).player.id,
            forall|k: int| 0 <= k < msgs@.len() ==> (#[trigger] msgs@[k]).damage >= 0,
            c1.health.current == spec_health_after(
                old(c1).health.current as int,
                old(c1).player.id,
                msgs@.take(i as int),
            ),
            c2.health.current == spec_health_after(
                old(c2).health.current as int,
                old(c2).player.id,
                msgs@.take(i as int),
            ),
            c1.health.current <= old(c1).health.current,
            c2.health.current <= old(c2).health.current,
            *c1 == (Combatant {
                health: Health { current: c1.health.current, ..old(c1).health },
                ..*old(c1)
            }),
            *c2 == (Combatant {
                health: Health { current: c2.health.current, ..old(c2).health },
                ..*old(c2)
            }),
        decreases msgs@.len() - i,
    {
        let m = msgs[i];
        proof {
            assert(msgs@.take(i + 1).drop_last() =~= msgs@.take(i as int));
            assert(msgs@.take(i + 1).last() == msgs@[i as int]);
        }
        if m.target == c1.player.id {
            c1.health.apply_damage(m.damage);
        } else if m.target == c2.player.id {
            c2.health.apply_damage(m.damage);
        }
        i = i + 1;
    }
    proof {
        assert(msgs@.take(msgs@.len() as int) =~= msgs@);
    }
}

/// Session-scoped fight bookkeeping: when the fight started, the running
/// combo of unblocked hits, and which archetype is being fought.
#[derive(Clone, Copy, Debug, PartialEq, Eq, Structural)]
pub struct FightTracker {
    pub fight_start_time: Option<u64>,
    pub current_combo: u32,
    pub boss: BossType,
}

/// Starts fight bookkeeping for a new match: the fight is counted in the
/// progression record, and the tracker starts at combo zero with the
/// configured archetype.
pub fn initialize_fight_tracker(
    config: &GameConfig,
    progress: &mut PlayerProgress,
    now_ms: u64,
) -> (t: FightTracker)
    requires
        old(progress).statistics.total_fights < u32::MAX,
    ensures
        t == (FightTracker {
            fight_start_time: Some(now_ms),
            current_combo: 0,
            boss: config.boss,
        }),
        final(progress).statistics.total_fights == old(progress).statistics.total_fights + 1,
        final(progress).statistics.total_wins == old(progress).statistics.total_wins,
        final(progress).statistics.current_win_streak == old(
            progress,
        ).statistics.current_win_streak,
        final(progress).statistics.best_win_streak == old(progress).statistics.best_win_streak,
        final(progress).statistics.boss_stats == old(progress).statistics.boss_stats,
        final(progress).unlocked_bosses@ == old(progress).unlocked_bosses@,
{
    progress.record_fight_start(config.boss);
    FightTracker { fight_start_time: Some(now_ms), current_combo: 0, boss: config.boss }
}

/// How many of this tick's damage messages count for the combo: those whose
/// target is not blocking (a missing target record reads as not blocking).
pub open spec fn spec_unblocked_count(msgs: Seq<DamageEvent>, c1: Combatant, c2: Combatant) -> int
    decreases msgs.len(),
{
    if msgs.len() == 0 {
        0
    } else {
        spec_unblocked_count(msgs.drop_last(), c1, c2) + if !spec_is_blocking_of(
            c1,
            c2,
            msgs.last().target,
        ) {
            1int
        } else {
            0int
        }
    }
}

/// The unblocked count never exceeds the number of messages and is never
/// negative.
pub proof fn lemma_unblocked_count_bounds(msgs: Seq<DamageEvent>, c1: Combatant, c2: Combatant)
    ensures
        0 <= spec_unblocked_count(msgs, c1, c2) <= msgs.len(),
    decreases msgs.len(),
{
    if msgs.len() > 0 {
        lemma_unblocked_count_bounds(msgs.drop_last(), c1, c2);
    }
}

/// Folds this tick's damage messages into the running combo: the counter
/// rises by exactly the number of unblocked hits, and so never decreases
/// within a fight.
pub fn update_combo_tracker(
    tracker: &mut FightTracker,
    msgs: &Vec<DamageEvent>,
    c1: &Combatant,
    c2: &Combatant,
)
    requires
        old(tracker).current_combo + msgs@.len() <= u32::MAX,
    ensures
        final(tracker).current_combo == old(tracker).current_combo + spec_unblocked_count(
            msgs@,
            *c1,
            *c2,
        ),
        final(tracker).current_combo >= old(tracker).current_combo,
        final(tracker).fight_start_time == old(tracker).fight_start_time,
        final(tracker).boss == old(tracker).boss,
{
    let mut hits_this_frame: u32 = 0;
    let mut i: usize = 0;
    while i < msgs.len()
        invariant
            i <= msgs@.len(),
            msgs@.len() <= u32::MAX,
            hits_this_frame == spec_unblocked_count(msgs@.take(i as int), *c1, *c2),
            hits_this_frame <= i,
        decreases msgs@.len() - i,
    {
        let m = msgs[i];
        proof {
            assert(msgs@.take(i + 1).drop_last() =~= msgs@.take(i as int));
            assert(msgs@.take(i + 1).last() == msgs@[i as int]);
        }
        let is_blocking = match find_combatant(c1, c2, m.target) {
            Option::Some(c) => c.block.is_blocking,
            Option::None => false,
        };
        if !is_blocking {
            hits_this_frame = hits_this_frame + 1;
        }
        i = i + 1;
    }
    proof {
        assert(msgs@.take(msgs@.len() as int) =~= msgs@);
        lemma_unblocked_count_bounds(msgs@, *c1, *c2);
    }
    if hits_this_frame > 0 {
        tracker.current_combo = tracker.current_combo + hits_this_frame;
    }
}

/// True when some reported overlap involves the body of combatant `id`: the
/// simple grounding test the engine uses.
pub open spec fn spec_touches_any(pairs: Seq<OverlapPair>, id: u8) -> bool {
    exists|i: int| 0 <= i < pairs.len() && pairs[i].spec_mentions_body(id)
}

/// Recomputes a combatant's grounded flag from this tick's overlaps: grounded
/// exactly when some overlap involves its body.
pub fn update_grounded(c: &mut Combatant, pairs: &Vec<OverlapPair>)
    ensures
        final(c).grounded.0 == spec_touches_any(pairs@, old(c).player.id),
        *final(c) == (Combatant { grounded: final(c).grounded, ..*old(c) }),
{
    let id = c.player.id;
    let mut touched = false;
    let mut i: usize = 0;
    while i < pairs.len()
        invariant
            i <= pairs@.len(),
            touched == exists|j: int| 0 <= j < i && pairs@[j].spec_mentions_body(id),
            id == old(c).player.id,
            *c == *old(c),
        decreases pairs@.len() - i,
    {
        if pairs[i].mentions_body(id) {
            touched = true;
        }
        i = i + 1;
    }
    c.grounded.0 = touched;
}

} // verus!
