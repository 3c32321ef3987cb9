//! World items a bot can seek and pick up.
//!
//! An [`Item`] sits at a fixed pivot in the world; picking it up deactivates
//! it for its kind's reactivation interval, after which it reappears with an
//! effect request. Items live in an [`ItemContainer`] addressed by index.

use vstd::prelude::*;
use crate::animation::DT_LIMIT;
use crate::math::Vec3;
use crate::math::TIME_LIMIT;
use crate::math::in_world;
use crate::message::EffectKind;
use crate::message::Message;

verus! {

/// The enumerated item archetypes.
#[derive(Clone, Copy, Debug, PartialEq, Eq, Structural)]
pub enum ItemKind {
    Medkit,
    // Ammo
    Plasma,
    Ak47Ammo,
    M4Ammo,
    // Weapons
    PlasmaGun,
    Ak47,
    M4,
    RocketLauncher,
    BattleAxe,
}

/// Immutable per-kind tuning: model path, visual scale in thousandths, and
/// how long a picked-up item stays away.
#[derive(Clone, Copy, Debug, PartialEq)]
pub struct ItemDefinition {
    pub model: &'static str,
    pub scale_milli: u64,
    pub reactivation_interval_ms: i64,
}

/// The static item catalog, one entry per kind.
pub open spec fn spec_item_definition(kind: ItemKind) -> ItemDefinition {
    match kind {
        ItemKind::BattleAxe => ItemDefinition {
            model: "data/models/ak47.FBX",
            scale_milli: 3000,
            reactivation_interval_ms: 30_000,
        },
        ItemKind::Medkit => ItemDefinition {
            model: "data/models/medkit.fbx",
            scale_milli: 1000,
            reactivation_interval_ms: 20_000,
        },
        ItemKind::Plasma => ItemDefinition {
            model: "data/models/yellow_box.FBX",
            scale_milli: 250,
            reactivation_interval_ms: 15_000,
        },
        ItemKind::Ak47Ammo => ItemDefinition {
            model: "data/models/box_medium.FBX",
            scale_milli: 300,
            reactivation_interval_ms: 14_000,
        },
        ItemKind::M4Ammo => ItemDefinition {
            model: "data/models/box_small.FBX",
            scale_milli: 300,
            reactivation_interval_ms: 13_000,
        },
        ItemKind::PlasmaGun => ItemDefinition {
            model: "data/models/plasma_rifle.FBX",
            scale_milli: 3000,
            reactivation_interval_ms: 30_000,
        },
        ItemKind::Ak47 => ItemDefinition {
            model: "data/models/ak47.FBX",
            scale_milli: 3000,
            reactivation_interval_ms: 30_000,
        },
        ItemKind::M4 => ItemDefinition {
            model: "data/models/m4.FBX",
            scale_milli: 3000,
            reactivation_interval_ms: 30_000,
        },
        ItemKind::RocketLauncher => ItemDefinition {
            model: "data/models/Rpg7.FBX",
            scale_milli: 3000,
            reactivation_interval_ms: 30_000,
        },
    }
}

/// One item instance. The gentle bobbing of the item's model is a purely
/// cosmetic scene-graph effect and stays outside the core.
#[derive(Clone, Copy, Debug, PartialEq)]
pub struct Item {
    pub kind: ItemKind,
    /// Scene node id of the item's pivot.
    pub pivot: u64,
    /// Scene node id of the item's model.
    pub model: u64,
    /// World position of the pivot, in milli-units.
    pub position: Vec3,
    /// Time left until a picked-up item reappears.
    pub reactivation_timer_ms: i64,
    /// An inactive item is picked up and hidden.
    pub active: bool,
    /// Remaining lifetime of a temporary item, if it has one.
    pub lifetime_ms: Option<i64>,
}

/// Bounded fields, so per-tick arithmetic stays in range, and a picked-up
/// item always has reactivation time ahead of it.
pub open spec fn wf_item(it: Item) -> bool {
    &&& in_world(it.position)
    &&& -TIME_LIMIT <= it.reactivation_timer_ms <= TIME_LIMIT
    &&& !it.active ==> 0 < it.reactivation_timer_ms
    &&& it.lifetime_ms matches Some(t) ==> -TIME_LIMIT <= t <= TIME_LIMIT
}

/// One tick of an item: an inactive item counts its reactivation timer down
/// and comes back when it runs out; an active item is unchanged.
pub open spec fn spec_item_updated(it: Item, dt: int) -> Item {
    if it.active {
        it
    } else {
        Item {
            reactivation_timer_ms: (it.reactivation_timer_ms - dt) as i64,
            active: it.reactivation_timer_ms - dt <= 0,
            ..it
        }
    }
}

/// The effect request a tick of an item emits: the reappearance effect at the
/// item's position, exactly when an inactive item's timer runs out.
pub open spec fn spec_item_msg(it: Item, dt: int) -> Option<Message> {
    if !it.active && it.reactivation_timer_ms - dt <= 0 {
        Some(Message::CreateEffect { kind: EffectKind::ItemAppear, position: it.position })
    } else {
        None
    }
}

/// A temporary item leaves the world once its lifetime is spent or it has
/// been picked up; an item without a lifetime stays forever.
pub open spec fn spec_item_removable(it: Item) -> bool {
    match it.lifetime_ms {
        None => false,
        Some(t) => t <= 0 || !it.active,
    }
}

impl Item {
    /// The immutable definition of the given kind.
    pub fn get_definition(kind: ItemKind) -> (d: ItemDefinition)
        ensures
            d == spec_item_definition(kind),
    {
        match kind {
            ItemKind::BattleAxe => ItemDefinition {
                model: "data/models/ak47.FBX",
                scale_milli: 3000,
                reactivation_interval_ms: 30_000,
            },
            ItemKind::Medkit => ItemDefinition {
                model: "data/models/medkit.fbx",
                scale_milli: 1000,
                reactivation_interval_ms: 20_000,
            },
            ItemKind::Plasma => ItemDefinition {
                model: "data/models/yellow_box.FBX",
                scale_milli: 250,
                reactivation_interval_ms: 15_000,
            },
            ItemKind::Ak47Ammo => ItemDefinition {
                model: "data/models/box_medium.FBX",
                scale_milli: 300,
                reactivation_interval_ms: 14_000,
            },
            ItemKind::M4Ammo => ItemDefinition {
                model: "data/models/box_small.FBX",
                scale_milli: 300,
                reactivation_interval_ms: 13_000,
            },
            ItemKind::PlasmaGun => ItemDefinition {
                model: "data/models/plasma_rifle.FBX",
                scale_milli: 3000,
                reactivation_interval_ms: 30_000,
            },
            ItemKind::Ak47 => ItemDefinition {
                model: "data/models/ak47.FBX",
                scale_milli: 3000,
                reactivation_interval_ms: 30_000,
            },
            ItemKind::M4 => ItemDefinition {
                model: "data/models/m4.FBX",
                scale_milli: 3000,
                reactivation_interval_ms: 30_000,
            },
            ItemKind::RocketLauncher => ItemDefinition {
                model: "data/models/Rpg7.FBX",
                scale_milli: 3000,
                reactivation_interval_ms: 30_000,
            },
        }
    }

    /// A fresh, active item at the given pivot. The pivot and model node ids
    /// come from the scene the item was instanced into.
    pub fn new(kind: ItemKind, position: Vec3, pivot: u64, model: u64) -> (it: Item)
        requires
            in_world(position),
        ensures
            wf_item(it),
            it == (Item {
                kind,
                pivot,
                model,
                position,
                reactivation_timer_ms: 0,
                active: true,
                lifetime_ms: None,
            }),
    {
        Item { kind, pivot, model, position, reactivation_timer_ms: 0, active: true, lifetime_ms: None }
    }

    pub fn get_pivot(&self) -> (r: u64)
        ensures
            r == self.pivot,
    {
        self.pivot
    }

    pub fn position(&self) -> (r: Vec3)
        ensures
            r == self.position,
    {
        self.position
    }

    pub fn get_kind(&self) -> (r: ItemKind)
        ensures
            r == self.kind,
    {
        self.kind
    }

    /// The immutable definition of this item's kind.
    pub fn definition(&self) -> (d: ItemDefinition)
        ensures
            d == spec_item_definition(self.kind),
    {
        Item::get_definition(self.kind)
    }

    /// One tick: see [`spec_item_updated`]; returns the reappearance effect
    /// request exactly when the item comes back this tick.
    pub fn update(&mut self, dt_ms: u64) -> (msg: Option<Message>)
        requires
            wf_item(*old(self)),
            dt_ms <= DT_LIMIT,
        ensures
            wf_item(*final(self)),
            *final(self) == spec_item_updated(*old(self), dt_ms as int),
            msg == spec_item_msg(*old(self), dt_ms as int),
    {
        if !self.active {
            self.reactivation_timer_ms = self.reactivation_timer_ms - dt_ms as i64;
            if self.reactivation_timer_ms <= 0 {
                self.active = true;
                return Some(
                    Message::CreateEffect {
                        kind: EffectKind::ItemAppear,
                        position: self.position,
                    },
                );
            }
        }
        None
    }

    /// Takes the item out of the world for its kind's reactivation interval.
    pub fn pick_up(&mut self)
        requires
            wf_item(*old(self)),
        ensures
            wf_item(*final(self)),
            *final(self) == (Item {
                reactivation_timer_ms: spec_item_definition(
                    old(self).kind,
                ).reactivation_interval_ms,
                active: false,
                ..*old(self)
            }),
    {
        self.reactivation_timer_ms = self.definition().reactivation_interval_ms;
        self.active = false;
    }

    /// Whether the item is currently taken out of the world.
    pub fn is_picked_up(&self) -> (r: bool)
        ensures
            r == !self.active,
    {
        !self.active
    }

    /// See [`spec_item_removable`].
    pub fn can_be_removed(&self) -> (r: bool)
        ensures
            r == spec_item_removable(*self),
    {
        match self.lifetime_ms {
            None => false,
            Some(t) => t <= 0 || !self.active,
        }
    }

    /// Gives the item a remaining lifetime, or takes it away.
    pub fn set_lifetime(&mut self, lifetime_ms: Option<i64>)
        requires
            lifetime_ms matches Some(t) ==> -TIME_LIMIT <= t <= TIME_LIMIT,
        ensures
            *final(self) == (Item { lifetime_ms, ..*old(self) }),
    {
        self.lifetime_ms = lifetime_ms;
    }
}

/// The live items of a pool, in index order.
pub open spec fn live_items(s: Seq<Option<Item>>) -> Seq<Item>
    decreases s.len(),
{
    if s.len() == 0 {
        Seq::empty()
    } else {
        live_items(s.drop_last()) + match s.last() {
            Some(it) => seq![it],
            None => Seq::empty(),
        }
    }
}

/// The effect requests one container tick emits, in index order.
pub open spec fn update_msgs(s: Seq<Option<Item>>, dt: int) -> Seq<Message>
    decreases s.len(),
{
    if s.len() == 0 {
        Seq::empty()
    } else {
        update_msgs(s.drop_last(), dt) + match s.last() {
            Some(it) => match spec_item_msg(it, dt) {
                Some(m) => seq![m],
                None => Seq::empty(),
            },
            None => Seq::empty(),
        }
    }
}

/// An arena of items addressed by index; a freed slot stays `None`.
pub struct ItemContainer {
    pub pool: Vec<Option<Item>>,
}

/// The item at a live slot.
pub open spec fn spec_item(c: ItemContainer, h: int) -> Item {
    c.pool@[h]->Some_0
}

/// A slot that exists and still holds an item.
pub open spec fn item_live(c: ItemContainer, h: int) -> bool {
    0 <= h < c.pool@.len() && c.pool@[h] is Some
}

/// Every live item is well-formed.
pub open spec fn wf_items(c: ItemContainer) -> bool {
    forall|h: int| item_live(c, h) ==> wf_item(#[trigger] spec_item(c, h))
}

impl ItemContainer {
    pub fn new() -> (c: ItemContainer)
        ensures
            c.pool@.len() == 0,
            wf_items(c),
    {
        ItemContainer { pool: Vec::new() }
    }

    /// Stores an item and returns its index.
    pub fn add(&mut self, item: Item) -> (h: usize)
        requires
            wf_items(*old(self)),
            wf_item(item),
        ensures
            wf_items(*final(self)),
            h == old(self).pool@.len(),
            final(self).pool@ == old(self).pool@.push(Some(item)),
    {
        let h = self.pool.len();
        self.pool.push(Some(item));
        proof {
            assert forall|j: int| item_live(*self, j) implies wf_item(
                #[trigger] spec_item(*self, j),
            ) by {
                if j < old(self).pool@.len() {
                    assert(self.pool@[j] == old(self).pool@[j]);
                    assert(wf_item(spec_item(*old(self), j)));
                }
            }
        }
        h
    }

    pub fn contains(&self, h: usize) -> (r: bool)
        ensures
            r == item_live(*self, h as int),
    {
        h < self.pool.len() && self.pool[h].is_some()
    }

    pub fn len(&self) -> (n: usize)
        ensures
            n == self.pool@.len(),
    {
        self.pool.len()
    }

    /// Read access to the item at a live slot.
    pub fn get(&self, h: usize) -> (it: &Item)
        requires
            item_live(*self, h as int),
        ensures
            *it == spec_item(*self, h as int),
    {
        match self.pool[h].as_ref() {
            Some(it) => it,
            None => vstd::pervasive::unreached(),
        }
    }

    /// Takes the item at a live slot out of the world; see
    /// [`Item::pick_up`].
    pub fn pick_up(&mut self, h: usize)
        requires
            wf_items(*old(self)),
            item_live(*old(self), h as int),
        ensures
            wf_items(*final(self)),
            final(self).pool@ == old(self).pool@.update(
                h as int,
                Some(
                    Item {
                        reactivation_timer_ms: spec_item_definition(
                            spec_item(*old(self), h as int).kind,
                        ).reactivation_interval_ms,
                        active: false,
                        ..spec_item(*old(self), h as int)
                    },
                ),
            ),
    {
        let mut it = *self.get(h);
        it.pick_up();
        self.pool.set(h, Some(it));
        proof {
            assert forall|j: int| item_live(*self, j) implies wf_item(
                #[trigger] spec_item(*self, j),
            ) by {
                if j != h {
                    assert(self.pool@[j] == old(self).pool@[j]);
                    assert(wf_item(spec_item(*old(self), j)));
                }
            }
        }
    }

    /// The live items, in index order.
    pub fn iter(&self) -> (v: Vec<Item>)
        ensures
            v@ == live_items(self.pool@),
    {
        let mut v: Vec<Item> = Vec::new();
        let mut i: usize = 0;
        while i < self.pool.len()
            invariant
                i <= self.pool@.len(),
                v@ == live_items(self.pool@.take(i as int)),
            decreases self.pool@.len() - i,
        {
            proof {
                assert(self.pool@.take(i + 1).drop_last() =~= self.pool@.take(i as int));
                assert(self.pool@.take(i + 1).last() == self.pool@[i as int]);
            }
            match self.pool[i].as_ref() {
                Some(it) => v.push(*it),
                None => (),
            }
            i = i + 1;
        }
        proof {
            assert(self.pool@.take(self.pool@.len() as int) =~= self.pool@);
        }
        v
    }

    /// One tick of every live item, collecting their effect requests in
    /// index order; items whose lifetime is spent leave the container.
    pub fn update(&mut self, dt_ms: u64) -> (msgs: Vec<Message>)
        requires
            wf_items(*old(self)),
            dt_ms <= DT_LIMIT,
        ensures
            wf_items(*final(self)),
            final(self).pool@.len() == old(self).pool@.len(),
            msgs@ == update_msgs(old(self).pool@, dt_ms as int),
            forall|h: int| 0 <= h < old(self).pool@.len() ==> {
                &&& (old(self).pool@[h] is None ==> final(self).pool@[h] is None)
                &&& (old(self).pool@[h] matches Some(it) ==> final(self).pool@[h] == {
                    let u = spec_item_updated(it, dt_ms as int);
                    if spec_item_removable(u) {
                        None::<Item>
                    } else {
                        Some(u)
                    }
                })
            },
    {
        let mut msgs: Vec<Message> = Vec::new();
        let mut i: usize = 0;
        while i < self.pool.len()
            invariant
                wf_items(*self),
                dt_ms <= DT_LIMIT,
                i <= self.pool@.len(),
                self.pool@.len() == old(self).pool@.len(),
                msgs@ == update_msgs(old(self).pool@.take(i as int), dt_ms as int),
                forall|h: int| i <= h < self.pool@.len()
                    ==> self.pool@[h] == old(self).pool@[h],
                forall|h: int| 0 <= h < i ==> {
                    &&& (old(self).pool@[h] is None ==> self.pool@[h] is None)
                    &&& (old(self).pool@[h] matches Some(it) ==> self.pool@[h] == {
                        let u = spec_item_updated(it, dt_ms as int);
                        if spec_item_removable(u) {
                            None::<Item>
                        } else {
                            Some(u)
                        }
                    })
                },
            decreases self.pool@.len() - i,
        {
            let ghost pre = *self;
            proof {
                assert(old(self).pool@.take(i + 1).drop_last() =~= old(self).pool@.take(i as int));
                assert(old(self).pool@.take(i + 1).last() == old(self).pool@[i as int]);
            }
            let slot = self.pool[i];
            match slot {
                Some(mut it) => {
                    proof {
                        assert(item_live(*self, i as int));
                        assert(spec_item(*self, i as int) == it);
                    }
                    let msg = it.update(dt_ms);
                    match msg {
                        Some(m) => msgs.push(m),
                        None => (),
                    }
                    if it.can_be_removed() {
                        self.pool.set(i, None);
                    } else {
                        self.pool.set(i, Some(it));
                    }
                },
                None => (),
            }
            proof {
                assert forall|j: int| item_live(*self, j) implies wf_item(
                    #[trigger] spec_item(*self, j),
                ) by {
                    if j != i {
                        assert(self.pool@[j] == pre.pool@[j]);
                        assert(wf_item(spec_item(pre, j)));
                    }
                }
            }
            i = i + 1;
        }
        proof {
            assert(old(self).pool@.take(old(self).pool@.len() as int) =~= old(self).pool@);
        }
        msgs
    }
}

} // verus!
