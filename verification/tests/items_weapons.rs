use bot_core::bot::Bot;
use bot_core::bot::BotClips;
use bot_core::bot::BotKind;
use bot_core::item::Item;
use bot_core::item::ItemContainer;
use bot_core::item::ItemKind;
use bot_core::math::Vec3;
use bot_core::message::EffectKind;
use bot_core::message::Message;
use bot_core::physics::RayHit;
use bot_core::weapon::ProjectileKind;
use bot_core::weapon::Weapon;
use bot_core::weapon::WeaponContainer;
use bot_core::weapon::WeaponKind;

fn at(x: i64, y: i64, z: i64) -> Vec3 {
    Vec3 { x, y, z }
}

#[test]
fn kind_descriptions() {
    assert_eq!(BotKind::Mutant.description(), "Mutant");
    assert_eq!(BotKind::Parasite.description(), "Parasite");
    assert_eq!(BotKind::Maw.description(), "Maw");
    assert_eq!(BotKind::default(), BotKind::Mutant);
}

#[test]
fn bot_catalog_values() {
    let d = Bot::get_definition(BotKind::Mutant);
    assert_eq!(d.health, 100);
    assert_eq!(d.walk_speed_mu, 2000);
    assert_eq!(d.scale_micro, 8500);
    assert_eq!(d.weapon_scale_milli, 2600);
    assert_eq!(d.v_aim_angle_hack_mdeg, -2000);
    assert_eq!(d.model, "data/models/mutant.FBX");
    assert_eq!(d.spine, "Mutant:Spine");
    assert_eq!(Bot::get_definition(BotKind::Parasite).v_aim_angle_hack_mdeg, 12000);
    assert_eq!(Bot::get_definition(BotKind::Maw).v_aim_angle_hack_mdeg, 16000);
}

#[test]
fn item_catalog_values() {
    let d = Item::get_definition(ItemKind::Medkit);
    assert_eq!(d.model, "data/models/medkit.fbx");
    assert_eq!(d.scale_milli, 1000);
    assert_eq!(d.reactivation_interval_ms, 20_000);
    assert_eq!(Item::get_definition(ItemKind::Plasma).reactivation_interval_ms, 15_000);
    assert_eq!(Item::get_definition(ItemKind::Ak47Ammo).reactivation_interval_ms, 14_000);
    assert_eq!(Item::get_definition(ItemKind::M4Ammo).reactivation_interval_ms, 13_000);
}

#[test]
fn weapon_catalog_values() {
    let d = Weapon::get_definition(WeaponKind::PlasmaRifle);
    assert_eq!(d.ammo, 100);
    assert_eq!(d.projectile, ProjectileKind::Plasma);
    assert_eq!(d.shoot_interval_ms, 250);
    assert_eq!(d.shot_sound, "data/sounds/plasma_shot.ogg");
    assert_eq!(Weapon::get_definition(WeaponKind::RocketLauncher).shoot_interval_ms, 1500);
    assert_eq!(Weapon::get_definition(WeaponKind::M4).ammo, 200);
}

#[test]
fn a_picked_up_item_reappears_after_its_interval() {
    let mut it = Item::new(ItemKind::Medkit, at(1000, 0, 0), 1, 2);
    assert!(!it.is_picked_up());
    it.pick_up();
    assert!(it.is_picked_up());
    assert_eq!(it.reactivation_timer_ms, 20_000);
    let msg = it.update(19_999);
    assert!(msg.is_none());
    assert!(it.is_picked_up());
    let msg = it.update(1);
    assert_eq!(
        msg,
        Some(Message::CreateEffect { kind: EffectKind::ItemAppear, position: at(1000, 0, 0) })
    );
    assert!(!it.is_picked_up());
}

#[test]
fn container_update_removes_expired_temporary_items() {
    let mut items = ItemContainer::new();
    items.add(Item::new(ItemKind::Medkit, at(0, 0, 0), 1, 2));
    let mut temp = Item::new(ItemKind::Plasma, at(0, 0, 0), 3, 4);
    temp.set_lifetime(Some(0));
    items.add(temp);
    items.update(16);
    assert!(items.contains(0));
    assert!(!items.contains(1));
}

#[test]
fn iter_lists_live_items_in_order() {
    let mut items = ItemContainer::new();
    items.add(Item::new(ItemKind::Medkit, at(1, 0, 0), 1, 2));
    items.add(Item::new(ItemKind::Ak47, at(2, 0, 0), 3, 4));
    let v = items.iter();
    assert_eq!(v.len(), 2);
    assert_eq!(v[0].get_kind(), ItemKind::Medkit);
    assert_eq!(v[1].get_kind(), ItemKind::Ak47);
}

#[test]
fn an_empty_weapon_switches_to_the_first_armed_one() {
    let mut weapons = WeaponContainer::new();
    let mut dry = Weapon::new(WeaponKind::Ak47, 1, 2, None);
    dry.ammo = 0;
    let h0 = weapons.add(dry);
    let mut also_dry = Weapon::new(WeaponKind::M4, 3, 4, None);
    also_dry.ammo = 0;
    let h1 = weapons.add(also_dry);
    let h2 = weapons.add(Weapon::new(WeaponKind::PlasmaRifle, 5, 6, None));
    let clips = BotClips {
        idle_ms: 1000,
        walk_ms: 1000,
        jump_ms: 1000,
        falling_ms: 1000,
        aim_ms: 1000,
        whip_ms: 1000,
        hit_reaction_ms: 1000,
        dying_ms: 1000,
        dead_ms: 1000,
    };
    let mut b = Bot::new(BotKind::Maw, 1, 2, 3, 4, None, &clips);
    b.actor.weapons = vec![h0, h1, h2];
    b.actor.current_weapon = 0;
    b.select_weapon(&weapons);
    assert_eq!(b.actor.current_weapon, 2);
    // With ammo left the choice sticks.
    b.select_weapon(&weapons);
    assert_eq!(b.actor.current_weapon, 2);
}

#[test]
fn try_shoot_spends_ammo_and_respects_the_interval() {
    let mut w = Weapon::new(WeaponKind::Ak47, 1, 2, Some(3));
    let mut msgs = vec![];
    assert!(w.try_shoot(1000, &mut msgs));
    assert_eq!(w.ammo, 199);
    assert_eq!(w.last_shot_time_ms, 1000);
    assert_eq!(w.offset, at(0, 0, -50));
    assert_eq!(msgs.len(), 1);
    assert!(matches!(
        msgs[0],
        Message::PlaySound { path: "data/sounds/ak47.ogg", .. }
    ));
    // 150 ms interval: shooting again too soon does nothing.
    assert!(!w.try_shoot(1100, &mut msgs));
    assert_eq!(w.ammo, 199);
    assert_eq!(msgs.len(), 1);
    assert!(w.try_shoot(1150, &mut msgs));
    assert_eq!(w.ammo, 198);
}

#[test]
fn an_empty_weapon_cannot_shoot() {
    let mut w = Weapon::new(WeaponKind::Ak47, 1, 2, None);
    w.ammo = 0;
    let mut msgs = vec![];
    assert!(!w.try_shoot(10_000, &mut msgs));
    assert!(msgs.is_empty());
}

#[test]
fn the_laser_dot_lands_past_the_holders_own_collider() {
    let mut w = Weapon::new(WeaponKind::M4, 1, 2, None);
    w.set_owner(9);
    let hits = vec![
        RayHit {
            collider: 77, // the holder's capsule: skipped
            body: 9,
            trimesh: false,
            position: at(100, 0, 0),
            normal: at(0, 1000, 0),
        },
        RayHit {
            collider: 78,
            body: 10,
            trimesh: true,
            position: at(5000, 0, 0),
            normal: at(0, 2000, 0),
        },
    ];
    let dot = w.update(at(0, 0, 0), &hits, Some(77));
    // 0.2 units out along the (normalized) upward normal.
    assert_eq!(dot, at(5000, 200, 0));
}

#[test]
fn the_laser_dot_rests_at_the_origin_with_nothing_hit() {
    let mut w = Weapon::new(WeaponKind::M4, 1, 2, None);
    let dot = w.update(at(0, 0, 0), &vec![], None);
    assert_eq!(dot, at(0, 0, 0));
}

#[test]
fn recoil_offset_eases_back_a_fifth_per_tick() {
    let mut w = Weapon::new(WeaponKind::Ak47, 1, 2, None);
    let mut msgs = vec![];
    w.try_shoot(1000, &mut msgs);
    assert_eq!(w.offset.z, -50);
    w.update(at(0, 0, 0), &vec![], None);
    assert_eq!(w.offset.z, -40);
    w.update(at(0, 0, 0), &vec![], None);
    assert_eq!(w.offset.z, -32);
}

#[test]
fn weapon_container_frees_slots() {
    let mut weapons = WeaponContainer::new();
    let h = weapons.add(Weapon::new(WeaponKind::Ak47, 1, 2, None));
    assert!(weapons.contains(h));
    weapons.free(h);
    assert!(!weapons.contains(h));
}

#[test]
fn ammo_pickups_add_up() {
    let mut weapons = WeaponContainer::new();
    let h = weapons.add(Weapon::new(WeaponKind::PlasmaRifle, 1, 2, None));
    weapons.add_ammo(h, 40);
    assert_eq!(weapons.get(h).ammo(), 140);
}
