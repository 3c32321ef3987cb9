//! Weapons a bot holds and fires.
//!
//! A [`Weapon`] tracks its ammo, its owner, its recoil offset and the timing
//! of its shots; firing queues a sound request and is rate-limited by the
//! kind's shoot interval. The laser-sight dot is computed from a ray cast the
//! physics backend answers. Weapons live in a [`WeaponContainer`] addressed by
//! index.

use vstd::prelude::*;
use crate::math::TIME_LIMIT;
use crate::math::Vec3;
use crate::math::in_world;
use crate::math::normalize_milli;
use crate::math::scale_div;
use crate::math::spec_normalize_milli;
use crate::math::spec_scale_div;
use crate::math::spec_sqr_len;
use crate::message::Message;
use crate::physics::RayHit;

verus! {

/// The enumerated weapon archetypes.
#[derive(Clone, Copy, Debug, PartialEq, Eq, Structural)]
pub enum WeaponKind {
    M4,
    Ak47,
    PlasmaRifle,
    RocketLauncher,
    BattleAxe,
}

/// What a weapon fires.
#[derive(Clone, Copy, Debug, PartialEq, Eq, Structural)]
pub enum ProjectileKind {
    Bullet,
    Plasma,
    Rocket,
}

/// Immutable per-kind tuning: model and sound paths, starting ammo, the
/// projectile fired, and the minimum time between shots.
#[derive(Clone, Copy, Debug, PartialEq)]
pub struct WeaponDefinition {
    pub model: &'static str,
    pub shot_sound: &'static str,
    pub ammo: u32,
    pub projectile: ProjectileKind,
    pub shoot_interval_ms: i64,
}

/// The static weapon catalog, one entry per kind.
pub open spec fn spec_weapon_definition(kind: WeaponKind) -> WeaponDefinition {
    match kind {
        WeaponKind::BattleAxe => WeaponDefinition {
            model: "data/models/ak47.FBX",
            shot_sound: "data/sounds/axe-swing-1.ogg",
            ammo: 200,
            projectile: ProjectileKind::Bullet,
            shoot_interval_ms: 150,
        },
        WeaponKind::M4 => WeaponDefinition {
            model: "data/models/m4.FBX",
            shot_sound: "data/sounds/m4_shot.ogg",
            ammo: 200,
            projectile: ProjectileKind::Bullet,
            shoot_interval_ms: 150,
        },
        WeaponKind::Ak47 => WeaponDefinition {
            model: "data/models/ak47.FBX",
            shot_sound: "data/sounds/ak47.ogg",
            ammo: 200,
            projectile: ProjectileKind::Bullet,
            shoot_interval_ms: 150,
        },
        WeaponKind::PlasmaRifle => WeaponDefinition {
            model: "data/models/plasma_rifle.FBX",
            shot_sound: "data/sounds/plasma_shot.ogg",
            ammo: 100,
            projectile: ProjectileKind::Plasma,
            shoot_interval_ms: 250,
        },
        WeaponKind::RocketLauncher => WeaponDefinition {
            model: "data/models/Rpg7.FBX",
            shot_sound: "data/sounds/grenade_launcher_fire.ogg",
            ammo: 100,
            projectile: ProjectileKind::Rocket,
            shoot_interval_ms: 1500,
        },
    }
}

/// One weapon instance.
#[derive(Clone, Copy, Debug, PartialEq)]
pub struct Weapon {
    pub kind: WeaponKind,
    /// Scene node id of the weapon's model.
    pub model: u64,
    /// Scene node id of the laser-dot light.
    pub laser_dot: u64,
    /// Scene node id of the muzzle, when the model has one.
    pub shot_point: u64,
    pub has_shot_point: bool,
    /// Recoil offset of the model, eased back toward `dest_offset`.
    pub offset: Vec3,
    pub dest_offset: Vec3,
    pub last_shot_time_ms: i64,
    /// Where the last tick put the muzzle, in milli-units.
    pub shot_position: Vec3,
    /// Id of the actor holding the weapon.
    pub owner: u64,
    pub ammo: u32,
}

/// Bounded fields, so per-tick arithmetic stays in range.
pub open spec fn wf_weapon(w: Weapon) -> bool {
    &&& in_world(w.offset)
    &&& in_world(w.dest_offset)
    &&& in_world(w.shot_position)
    &&& 0 <= w.last_shot_time_ms <= TIME_LIMIT
}

/// One component of the recoil ease: a fifth of the way from `from` toward
/// `to`, rounded toward `from`.
pub open spec fn spec_follow(from: i64, to: i64) -> int {
    from + spec_scale_div(to - from, 200, 1000)
}

/// Where the laser dot lands: the first hit not on the holder's own collider,
/// pushed 0.2 units out along the hit's normal; the origin when every hit is
/// the holder's own or there is none.
pub open spec fn spec_laser_dot(hits: Seq<RayHit>, owner_collider: Option<u64>) -> Vec3
    decreases hits.len(),
{
    if hits.len() == 0 {
        Vec3 { x: 0, y: 0, z: 0 }
    } else if owner_collider matches Some(c) && hits[0].collider == c {
        spec_laser_dot(hits.drop_first(), owner_collider)
    } else {
        let h = hits[0];
        if spec_sqr_len(h.normal) == 0 {
            h.position
        } else {
            let n = spec_normalize_milli(h.normal);
            Vec3 {
                x: (h.position.x + spec_scale_div(n.x as int, 200, 1000)) as i64,
                y: (h.position.y + spec_scale_div(n.y as int, 200, 1000)) as i64,
                z: (h.position.z + spec_scale_div(n.z as int, 200, 1000)) as i64,
            }
        }
    }
}

/// Every hit's coordinates within the world bound.
pub open spec fn wf_hits(hits: Seq<RayHit>) -> bool {
    forall|i: int| 0 <= i < hits.len() ==> in_world(#[trigger] hits[i].position) && in_world(
        hits[i].normal,
    )
}

impl Weapon {
    /// The immutable definition of the given kind.
    pub fn get_definition(kind: WeaponKind) -> (d: WeaponDefinition)
        ensures
            d == spec_weapon_definition(kind),
    {
        match kind {
            WeaponKind::BattleAxe => WeaponDefinition {
                model: "data/models/ak47.FBX",
                shot_sound: "data/sounds/axe-swing-1.ogg",
                ammo: 200,
                projectile: ProjectileKind::Bullet,
                shoot_interval_ms: 150,
            },
            WeaponKind::M4 => WeaponDefinition {
                model: "data/models/m4.FBX",
                shot_sound: "data/sounds/m4_shot.ogg",
                ammo: 200,
                projectile: ProjectileKind::Bullet,
                shoot_interval_ms: 150,
            },
            WeaponKind::Ak47 => WeaponDefinition {
                model: "data/models/ak47.FBX",
                shot_sound: "data/sounds/ak47.ogg",
                ammo: 200,
                projectile: ProjectileKind::Bullet,
                shoot_interval_ms: 150,
            },
            WeaponKind::PlasmaRifle => WeaponDefinition {
                model: "data/models/plasma_rifle.FBX",
                shot_sound: "data/sounds/plasma_shot.ogg",
                ammo: 100,
                projectile: ProjectileKind::Plasma,
                shoot_interval_ms: 250,
            },
            WeaponKind::RocketLauncher => WeaponDefinition {
                model: "data/models/Rpg7.FBX",
                shot_sound: "data/sounds/grenade_launcher_fire.ogg",
                ammo: 100,
                projectile: ProjectileKind::Rocket,
                shoot_interval_ms: 1500,
            },
        }
    }

    /// A fresh weapon of the given kind, loaded with its starting ammo. The
    /// node ids come from the scene the model was instanced into; a model
    /// without a muzzle node falls back to its own position when shooting.
    pub fn new(kind: WeaponKind, model: u64, laser_dot: u64, shot_point: Option<u64>) -> (w: Weapon)
        ensures
            wf_weapon(w),
            w.kind == kind && w.model == model && w.laser_dot == laser_dot,
            w.has_shot_point == (shot_point is Some),
            shot_point matches Some(p) ==> w.shot_point == p,
            w.ammo == spec_weapon_definition(kind).ammo,
            w.owner == 0 && w.last_shot_time_ms == 0,
            w.offset == (Vec3 { x: 0, y: 0, z: 0 }),
            w.dest_offset == (Vec3 { x: 0, y: 0, z: 0 }),
            w.shot_position == (Vec3 { x: 0, y: 0, z: 0 }),
    {
        let ammo = Weapon::get_definition(kind).ammo;
        let (has_shot_point, shot_point) = match shot_point {
            Some(p) => (true, p),
            None => (false, 0),
        };
        Weapon {
            kind,
            model,
            laser_dot,
            shot_point,
            has_shot_point,
            offset: Vec3::zero(),
            dest_offset: Vec3::zero(),
            last_shot_time_ms: 0,
            shot_position: Vec3::zero(),
            owner: 0,
            ammo,
        }
    }

    pub fn get_model(&self) -> (r: u64)
        ensures
            r == self.model,
    {
        self.model
    }

    pub fn get_kind(&self) -> (r: WeaponKind)
        ensures
            r == self.kind,
    {
        self.kind
    }

    pub fn ammo(&self) -> (r: u32)
        ensures
            r == self.ammo,
    {
        self.ammo
    }

    pub fn owner(&self) -> (r: u64)
        ensures
            r == self.owner,
    {
        self.owner
    }

    pub fn set_owner(&mut self, owner: u64)
        ensures
            *final(self) == (Weapon { owner, ..*old(self) }),
    {
        self.owner = owner;
    }

    /// The immutable definition of this weapon's kind.
    pub fn definition(&self) -> (d: WeaponDefinition)
        ensures
            d == spec_weapon_definition(self.kind),
    {
        Weapon::get_definition(self.kind)
    }

    /// Adds picked-up ammo.
    pub fn add_ammo(&mut self, amount: u32)
        requires
            old(self).ammo + amount <= u32::MAX,
        ensures
            *final(self) == (Weapon { ammo: (old(self).ammo + amount) as u32, ..*old(self) }),
    {
        self.ammo = self.ammo + amount;
    }

    /// Where a shot leaves the weapon, as of the last update.
    pub fn get_shot_position(&self) -> (r: Vec3)
        ensures
            r == self.shot_position,
    {
        self.shot_position
    }

    /// One tick: eases the recoil offset a fifth of the way toward its
    /// destination, records where the muzzle is, and places the laser dot at
    /// the first surface the sight ray hits past its holder.
    pub fn update(
        &mut self,
        shot_position: Vec3,
        hits: &Vec<RayHit>,
        owner_collider: Option<u64>,
    ) -> (laser_dot_position: Vec3)
        requires
            wf_weapon(*old(self)),
            in_world(shot_position),
            wf_hits(hits@),
        ensures
            wf_weapon(*final(self)),
            final(self).offset.x == spec_follow(old(self).offset.x, old(self).dest_offset.x),
            final(self).offset.y == spec_follow(old(self).offset.y, old(self).dest_offset.y),
            final(self).offset.z == spec_follow(old(self).offset.z, old(self).dest_offset.z),
            final(self).shot_position == shot_position,
            *final(self) == (Weapon {
                offset: final(self).offset,
                shot_position,
                ..*old(self)
            }),
            laser_dot_position == spec_laser_dot(hits@, owner_collider),
    {
        let off = self.offset;
        let dest = self.dest_offset;
        self.offset = Vec3 {
            x: off.x + scale_div(dest.x - off.x, 200, 1000),
            y: off.y + scale_div(dest.y - off.y, 200, 1000),
            z: off.z + scale_div(dest.z - off.z, 200, 1000),
        };
        proof {
            crate::math::lemma_scale_div_shrinks(dest.x - off.x, 200, 1000);
            crate::math::lemma_scale_div_shrinks(dest.y - off.y, 200, 1000);
            crate::math::lemma_scale_div_shrinks(dest.z - off.z, 200, 1000);
        }
        self.shot_position = shot_position;
        self.update_laser_sight(hits, owner_collider)
    }

    /// Walks the sight ray's hits in distance order, skips the holder's own
    /// collider, and returns where the laser dot lands; see
    /// [`spec_laser_dot`].
    fn update_laser_sight(&self, hits: &Vec<RayHit>, owner_collider: Option<u64>) -> (r: Vec3)
        requires
            wf_hits(hits@),
        ensures
            r == spec_laser_dot(hits@, owner_collider),
    {
        proof {
            assert(hits@.skip(0) =~= hits@);
        }
        let mut i: usize = 0;
        while i < hits.len()
            invariant
                i <= hits@.len(),
                wf_hits(hits@),
                spec_laser_dot(hits@, owner_collider) == spec_laser_dot(
                    hits@.skip(i as int),
                    owner_collider,
                ),
            decreases hits@.len() - i,
        {
            proof {
                assert(hits@.skip(i as int).drop_first() =~= hits@.skip(i + 1));
                assert(hits@.skip(i as int)[0] == hits@[i as int]);
            }
            let h = hits[i];
            let skip = match owner_collider {
                Some(c) => h.collider == c,
                None => false,
            };
            if !skip {
                match normalize_milli(h.normal) {
                    Some(n) => {
                        proof {
                            crate::math::lemma_scale_div_bound(n.x as int, 200, 1000);
                            crate::math::lemma_scale_div_bound(n.y as int, 200, 1000);
                            crate::math::lemma_scale_div_bound(n.z as int, 200, 1000);
                        }
                        return Vec3 {
                            x: h.position.x + scale_div(n.x, 200, 1000),
                            y: h.position.y + scale_div(n.y, 200, 1000),
                            z: h.position.z + scale_div(n.z, 200, 1000),
                        };
                    },
                    None => {
                        return h.position;
                    },
                }
            }
            i = i + 1;
        }
        proof {
            assert(hits@.skip(hits@.len() as int) =~= Seq::<RayHit>::empty());
        }
        Vec3::zero()
    }

    /// Fires if the weapon has ammo and its shoot interval has passed:
    /// spends one round, kicks the recoil offset back, remembers the shot
    /// time and queues the kind's shot sound at the muzzle. Returns whether
    /// it fired; an empty or too-recent weapon does nothing.
    pub fn try_shoot(&mut self, elapsed_ms: i64, messages: &mut Vec<Message>) -> (fired: bool)
        requires
            wf_weapon(*old(self)),
            0 <= elapsed_ms <= TIME_LIMIT,
        ensures
            wf_weapon(*final(self)),
            fired == (old(self).ammo != 0 && elapsed_ms - old(self).last_shot_time_ms
                >= spec_weapon_definition(old(self).kind).shoot_interval_ms),
            fired ==> {
                &&& *final(self) == (Weapon {
                    ammo: (old(self).ammo - 1) as u32,
                    offset: (Vec3 { x: 0, y: 0, z: -50i64 }),
                    last_shot_time_ms: elapsed_ms,
                    ..*old(self)
                })
                &&& final(messages)@ == old(messages)@.push(
                    Message::PlaySound {
                        path: spec_weapon_definition(old(self).kind).shot_sound,
                        position: old(self).shot_position,
                        gain_milli: 1000,
                        rolloff_milli: 5000,
                        radius_mu: 3000,
                    },
                )
            },
            !fired ==> *final(self) == *old(self) && final(messages)@ == old(messages)@,
    {
        let interval = self.definition().shoot_interval_ms;
        if self.ammo != 0 && elapsed_ms - self.last_shot_time_ms >= interval {
            self.ammo = self.ammo - 1;
            self.offset = Vec3 { x: 0, y: 0, z: -50 };
            self.last_shot_time_ms = elapsed_ms;
            let sound = self.definition().shot_sound;
            messages.push(
                Message::PlaySound {
                    path: sound,
                    position: self.shot_position,
                    gain_milli: 1000,
                    rolloff_milli: 5000,
                    radius_mu: 3000,
                },
            );
            true
        } else {
            false
        }
    }
}

/// The weapon at a live slot.
pub open spec fn spec_weapon(c: WeaponContainer, h: int) -> Weapon {
    c.pool@[h]->Some_0
}

/// A slot that exists and still holds a weapon.
pub open spec fn weapon_live(c: WeaponContainer, h: int) -> bool {
    0 <= h < c.pool@.len() && c.pool@[h] is Some
}

/// Every live weapon is well-formed.
pub open spec fn wf_weapons(c: WeaponContainer) -> bool {
    forall|h: int| weapon_live(c, h) ==> wf_weapon(#[trigger] spec_weapon(c, h))
}

/// An arena of weapons addressed by index; a freed slot stays `None`.
pub struct WeaponContainer {
    pub pool: Vec<Option<Weapon>>,
}

impl WeaponContainer {
    pub fn new() -> (c: WeaponContainer)
        ensures
            c.pool@.len() == 0,
            wf_weapons(c),
    {
        WeaponContainer { pool: Vec::new() }
    }

    /// Stores a weapon and returns its index.
    pub fn add(&mut self, weapon: Weapon) -> (h: usize)
        requires
            wf_weapons(*old(self)),
            wf_weapon(weapon),
        ensures
            wf_weapons(*final(self)),
            h == old(self).pool@.len(),
            final(self).pool@ == old(self).pool@.push(Some(weapon)),
    {
        let h = self.pool.len();
        self.pool.push(Some(weapon));
        proof {
            assert forall|j: int| weapon_live(*self, j) implies wf_weapon(
                #[trigger] spec_weapon(*self, j),
            ) by {
                if j < old(self).pool@.len() {
                    assert(self.pool@[j] == old(self).pool@[j]);
                    assert(wf_weapon(spec_weapon(*old(self), j)));
                }
            }
        }
        h
    }

    pub fn contains(&self, h: usize) -> (r: bool)
        ensures
            r == weapon_live(*self, h as int),
    {
        h < self.pool.len() && self.pool[h].is_some()
    }

    pub fn len(&self) -> (n: usize)
        ensures
            n == self.pool@.len(),
    {
        self.pool.len()
    }

    /// Frees a slot; the weapon at it is dropped and the index goes dead.
    pub fn free(&mut self, h: usize)
        requires
            h < old(self).pool@.len(),
            wf_weapons(*old(self)),
        ensures
            wf_weapons(*final(self)),
            final(self).pool@ == old(self).pool@.update(h as int, None::<Weapon>),
    {
        self.pool.set(h, None);
        proof {
            assert forall|j: int| weapon_live(*self, j) implies wf_weapon(
                #[trigger] spec_weapon(*self, j),
            ) by {
                assert(self.pool@[j] == old(self).pool@[j]);
                assert(wf_weapon(spec_weapon(*old(self), j)));
            }
        }
    }

    /// Read access to the weapon at a live slot.
    pub fn get(&self, h: usize) -> (w: &Weapon)
        requires
            weapon_live(*self, h as int),
        ensures
            *w == spec_weapon(*self, h as int),
    {
        match self.pool[h].as_ref() {
            Some(w) => w,
            None => vstd::pervasive::unreached(),
        }
    }

    /// Fires the weapon at a live slot; see [`Weapon::try_shoot`].
    pub fn try_shoot(&mut self, h: usize, elapsed_ms: i64, messages: &mut Vec<Message>) -> (fired: bool)
        requires
            wf_weapons(*old(self)),
            weapon_live(*old(self), h as int),
            0 <= elapsed_ms <= TIME_LIMIT,
        ensures
            wf_weapons(*final(self)),
            ({
                let w = spec_weapon(*old(self), h as int);
                &&& fired == (w.ammo != 0 && elapsed_ms - w.last_shot_time_ms
                    >= spec_weapon_definition(w.kind).shoot_interval_ms)
                &&& fired ==> {
                    &&& final(self).pool@ == old(self).pool@.update(
                        h as int,
                        Some(
                            Weapon {
                                ammo: (w.ammo - 1) as u32,
                                offset: (Vec3 { x: 0, y: 0, z: -50i64 }),
                                last_shot_time_ms: elapsed_ms,
                                ..w
                            },
                        ),
                    )
                    &&& final(messages)@ == old(messages)@.push(
                        Message::PlaySound {
                            path: spec_weapon_definition(w.kind).shot_sound,
                            position: w.shot_position,
                            gain_milli: 1000,
                            rolloff_milli: 5000,
                            radius_mu: 3000,
                        },
                    )
                }
                &&& !fired ==> *final(self) == *old(self) && final(messages)@ == old(messages)@
            }),
    {
        let mut w = *self.get(h);
        let fired = w.try_shoot(elapsed_ms, messages);
        if fired {
            self.pool.set(h, Some(w));
            proof {
                assert forall|j: int| weapon_live(*self, j) implies wf_weapon(
                    #[trigger] spec_weapon(*self, j),
                ) by {
                    if j != h {
                        assert(self.pool@[j] == old(self).pool@[j]);
                        assert(wf_weapon(spec_weapon(*old(self), j)));
                    }
                }
            }
        }
        fired
    }

    /// Adds picked-up ammo to the weapon at a live slot.
    pub fn add_ammo(&mut self, h: usize, amount: u32)
        requires
            wf_weapons(*old(self)),
            weapon_live(*old(self), h as int),
            spec_weapon(*old(self), h as int).ammo + amount <= u32::MAX,
        ensures
            wf_weapons(*final(self)),
            final(self).pool@ == old(self).pool@.update(
                h as int,
                Some(
                    Weapon {
                        ammo: (spec_weapon(*old(self), h as int).ammo + amount) as u32,
                        ..spec_weapon(*old(self), h as int)
                    },
                ),
            ),
    {
        let mut w = *self.get(h);
        w.add_ammo(amount);
        self.pool.set(h, Some(w));
        proof {
            assert forall|j: int| weapon_live(*self, j) implies wf_weapon(
                #[trigger] spec_weapon(*self, j),
            ) by {
                if j != h {
                    assert(self.pool@[j] == old(self).pool@[j]);
                    assert(wf_weapon(spec_weapon(*old(self), j)));
                }
            }
        }
    }
}

} // verus!
