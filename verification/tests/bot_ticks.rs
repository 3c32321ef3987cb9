use bot_core::bot::Bot;
use bot_core::bot::BotClips;
use bot_core::bot::BotKind;
use bot_core::bot::BotSensors;
use bot_core::bot::HIT_REACTION_CLIP;
use bot_core::item::Item;
use bot_core::item::ItemContainer;
use bot_core::item::ItemKind;
use bot_core::math::Vec3;
use bot_core::message::Message;
use bot_core::perception::CandidateInfo;
use bot_core::weapon::Weapon;
use bot_core::weapon::WeaponContainer;
use bot_core::weapon::WeaponKind;

fn at(x: i64, y: i64, z: i64) -> Vec3 {
    Vec3 { x, y, z }
}

fn clips() -> BotClips {
    BotClips {
        idle_ms: 1000,
        walk_ms: 1000,
        jump_ms: 1000,
        falling_ms: 1000,
        aim_ms: 1000,
        whip_ms: 1000,
        hit_reaction_ms: 1000,
        dying_ms: 1000,
        dead_ms: 1000,
    }
}

fn bot() -> Bot {
    Bot::new(BotKind::Mutant, 200, 201, 202, 203, Some(204), &clips())
}

fn sensors(dt_ms: u64, elapsed_ms: i64, candidates: Vec<CandidateInfo>) -> BotSensors {
    BotSensors {
        dt_ms,
        elapsed_ms,
        self_handle: 100,
        position: at(0, 0, 0),
        lin_vel: at(0, 0, 0),
        has_ground_contact: true,
        candidates,
        nav_steering: None,
        footstep_seed: 0,
    }
}

fn close_enemy() -> CandidateInfo {
    CandidateInfo { handle: 42, position: at(1000, 0, 0), in_frustum: true, hits: vec![] }
}

#[test]
fn poi_reselection_is_throttled_to_once_per_1250_ms() {
    let mut b = bot();
    let mut items = ItemContainer::new();
    items.add(Item::new(ItemKind::Medkit, at(3000, 0, 0), 1, 2));
    b.select_point_of_interest(&items, at(0, 0, 0), 0);
    assert_eq!(b.point_of_interest, at(3000, 0, 0));
    assert_eq!(b.last_poi_update_time_ms, 0);
    // A nearer item appears, but within the 1.25 s window nothing changes,
    // whatever the tick rate.
    items.add(Item::new(ItemKind::Plasma, at(500, 0, 0), 3, 4));
    b.select_point_of_interest(&items, at(0, 0, 0), 600);
    assert_eq!(b.point_of_interest, at(3000, 0, 0));
    assert_eq!(b.last_poi_update_time_ms, 0);
    b.select_point_of_interest(&items, at(0, 0, 0), 1249);
    assert_eq!(b.point_of_interest, at(3000, 0, 0));
    // Once the window has passed, the nearer item takes over.
    b.select_point_of_interest(&items, at(0, 0, 0), 1250);
    assert_eq!(b.point_of_interest, at(500, 0, 0));
    assert_eq!(b.last_poi_update_time_ms, 1250);
}

#[test]
fn picked_up_items_are_not_points_of_interest() {
    let mut b = bot();
    let mut items = ItemContainer::new();
    items.add(Item::new(ItemKind::Medkit, at(500, 0, 0), 1, 2));
    items.add(Item::new(ItemKind::Plasma, at(4000, 0, 0), 3, 4));
    items.pick_up(0);
    b.select_point_of_interest(&items, at(0, 0, 0), 0);
    assert_eq!(b.point_of_interest, at(4000, 0, 0));
}

#[test]
fn damage_restarts_hit_reaction_and_sets_the_aim_window() {
    // Health 100 -> 80 in one tick with the target 1 unit away.
    let mut b = bot();
    let weapons = WeaponContainer::new();
    let items = ItemContainer::new();
    // Let the hit-reaction clip advance first so the restart is observable.
    let out0 = b.update(&sensors(100, 0, vec![]), &weapons, &items);
    assert!(out0.messages.is_empty());
    assert!(b.animations.get(HIT_REACTION_CLIP).pos_ms > 0);
    b.actor.health = 80;
    let out = b.update(&sensors(100, 100, vec![close_enemy()]), &weapons, &items);
    // In close combat (distance 1.0 < 2.0), the hit reaction restarted from
    // time zero and the cannot-aim window is exactly 0.8 s before this
    // tick's countdown.
    assert_eq!(b.animations.get(HIT_REACTION_CLIP).pos_ms, 0);
    assert_eq!(b.restoration_time_ms, 800 - 100);
    // No shoot request this tick, even though the combat layer is in Aim.
    assert!(!out.messages.iter().any(|m| matches!(m, Message::ShootWeapon { .. })));
    // The window counts down monotonically on later ticks without damage.
    b.update(&sensors(100, 200, vec![close_enemy()]), &weapons, &items);
    assert_eq!(b.restoration_time_ms, 800 - 200);
    b.update(&sensors(100, 300, vec![close_enemy()]), &weapons, &items);
    assert_eq!(b.restoration_time_ms, 800 - 300);
}

#[test]
fn a_shoot_request_needs_distance_aim_and_a_weapon() {
    let mut b = bot();
    let mut weapons = WeaponContainer::new();
    let w = weapons.add(Weapon::new(WeaponKind::Ak47, 1, 2, Some(3)));
    b.actor.weapons.push(w);
    let items = ItemContainer::new();
    let far = CandidateInfo {
        handle: 42,
        position: at(5000, 0, 0),
        in_frustum: true,
        hits: vec![],
    };
    let out = b.update(&sensors(100, 0, vec![far]), &weapons, &items);
    let shot = out.messages.iter().find_map(|m| match m {
        Message::ShootWeapon { weapon, direction, .. } => Some((*weapon, *direction)),
        _ => None,
    });
    let (weapon, direction) = shot.expect("an aimed bot with a target and ammo shoots");
    assert_eq!(weapon, w);
    // The shot goes along the raw look vector toward the target.
    assert_eq!(direction, Some(at(5000, 0, 0)));
}

#[test]
fn close_combat_melee_damages_the_target() {
    // The whip clip's hit signal sits at 0.9 s; holding a close target for a
    // second of simulated time emits exactly one 20-point damage request.
    let mut b = bot();
    let weapons = WeaponContainer::new();
    let items = ItemContainer::new();
    let mut damage = vec![];
    for tick in 0..10i64 {
        let out = b.update(&sensors(100, tick * 100, vec![close_enemy()]), &weapons, &items);
        for m in out.messages {
            if let Message::DamageActor { actor, amount, .. } = m {
                damage.push((actor, amount));
            }
        }
    }
    assert_eq!(damage, vec![(42, 20)]);
}

#[test]
fn footsteps_sound_only_while_walking_and_grounded() {
    let mut b = bot();
    let weapons = WeaponContainer::new();
    let items = ItemContainer::new();
    let mut sounds = 0;
    for tick in 0..10i64 {
        let out = b.update(&sensors(100, tick * 100, vec![]), &weapons, &items);
        for m in out.messages {
            if let Message::PlaySound { path, .. } = m {
                assert!(path.contains("FootStep"));
                sounds += 1;
            }
        }
    }
    // The walk clip carries two step signals per one-second cycle.
    assert!(sounds >= 1);
}

#[test]
fn no_target_no_poi_no_navmesh_falls_back_without_panicking() {
    // Scenario: nothing to chase and no navigation mesh this tick; the bot
    // degrades to zero / last-known-direction movement.
    let mut b = bot();
    let weapons = WeaponContainer::new();
    let items = ItemContainer::new();
    let out = b.update(&sensors(16, 0, vec![]), &weapons, &items);
    assert!(out.look_dir.is_none());
    assert_eq!(out.velocity, at(0, 0, 0));
    assert!(b.target.is_none());
}

#[test]
fn a_dead_bot_locks_in_place_and_becomes_removable_after_1500_ms() {
    let mut b = bot();
    let weapons = WeaponContainer::new();
    let items = ItemContainer::new();
    b.actor.health = 0;
    let mut elapsed = 0i64;
    // The first dead tick starts Dying -> Dead; the blend then needs the
    // full 1.5 s before the bot is removable.
    let out = b.update(&sensors(100, elapsed, vec![]), &weapons, &items);
    assert_eq!(out.velocity, at(0, 0, 0));
    assert!(out.messages.is_empty());
    assert!(!b.can_be_removed());
    let mut blended = 0i64;
    while blended < 1500 {
        assert!(!b.can_be_removed());
        elapsed += 100;
        b.update(&sensors(100, elapsed, vec![]), &weapons, &items);
        blended += 100;
    }
    assert!(b.can_be_removed());
}

#[test]
fn a_removed_actor_stops_being_the_target() {
    let mut b = bot();
    let weapons = WeaponContainer::new();
    let items = ItemContainer::new();
    b.update(&sensors(16, 0, vec![close_enemy()]), &weapons, &items);
    assert!(b.target.is_some());
    b.on_actor_removed(7); // some other actor: the target stays
    assert!(b.target.is_some());
    b.on_actor_removed(42);
    assert!(b.target.is_none());
}

#[test]
fn aim_turns_at_the_fixed_angular_speed() {
    let mut b = bot();
    // 260 deg/s: a 100 ms tick turns at most 26 degrees.
    let applied = b.aim_horizontally(90_000, 100);
    assert_eq!(applied, 0); // the angle as of the previous tick
    assert_eq!(b.yaw.angle_mdeg, 26_000);
    b.aim_horizontally(90_000, 100);
    assert_eq!(b.yaw.angle_mdeg, 52_000);
    // A close target angle is reached exactly, never overshot.
    b.aim_horizontally(60_000, 100);
    assert_eq!(b.yaw.angle_mdeg, 60_000);
}

#[test]
fn vertical_aim_applies_the_kinds_correction() {
    let mut b = bot(); // Mutant corrects by -2 degrees
    b.aim_vertically(10_000, 1000);
    assert_eq!(b.pitch.target_mdeg, 8_000);
}

#[test]
fn clean_up_frees_every_clip() {
    let mut b = bot();
    b.clean_up();
    for h in 0..9 {
        assert!(!b.animations.is_live(h));
    }
}
