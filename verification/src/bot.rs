//! The bot controller: per-tick decision making and layer coordination.
//!
//! A [`Bot`] owns its three animation layers, its animation clips, its
//! perception state and its aim state. Each tick the surrounding engine hands
//! it a [`BotSensors`] snapshot — positions, ground contact, candidate actors
//! with their occlusion rays, the navigation-mesh steering answer — and the
//! bot resolves target, weapon and point of interest, computes its movement
//! intent, drives the layers, and queues outbound messages. Everything the
//! engine computes (assets, physics, pathfinding, trigonometry for aim
//! targets) enters as plain values; the decisions on them are verified.

use vstd::prelude::*;
use crate::animation::Animation;
use crate::animation::AnimationContainer;
use crate::animation::DT_LIMIT;
use crate::animation::live;
use crate::animation::spec_anim;
use crate::animation::spec_fired;
use crate::animation::spec_new_pos;
use crate::animation::wf_container;
use crate::item::ItemContainer;
use crate::item::item_live;
use crate::item::spec_item;
use crate::item::wf_items;
use crate::machine::Machine;
use crate::machine::spec_step;
use crate::machines::AIM_STATE;
use crate::machines::CombatMachine;
use crate::machines::DyingMachine;
use crate::machines::IDLE_STATE;
use crate::machines::DYING_STATE;
use crate::machines::LocomotionMachine;
use crate::machines::HIT_SIGNAL;
use crate::machines::STEP_SIGNAL;
use crate::machines::combat_params;
use crate::machines::locomotion_params;
use crate::machines::spec_is_walking;
use crate::machines::wf_combat;
use crate::machines::wf_dying;
use crate::machines::wf_locomotion;
use crate::machine::State;
use crate::math::TIME_LIMIT;
use crate::math::Vec3;
use crate::math::in_world;
use crate::math::norm_bounded;
use crate::math::normalize_milli;
use crate::math::scale_div;
use crate::math::spec_scale_div;
use crate::math::spec_sqr_dist;
use crate::math::sqr_dist;
use crate::message::Message;
use crate::navigation::spec_dir;
use crate::navigation::spec_goal;
use crate::navigation::spec_look;
use crate::navigation::steer_direction;
use crate::perception::CandidateInfo;
use crate::perception::Target;
use crate::perception::select_target;
use crate::perception::spec_select;
use crate::perception::wf_candidates;
use crate::weapon::WeaponContainer;
use crate::weapon::spec_weapon;
use crate::weapon::weapon_live;
use crate::weapon::wf_weapons;

verus! {

/// Largest health magnitude the core accepts, in hit points.
pub const HEALTH_LIMIT: i64 = 1_000_000_000;

/// Largest angle magnitude the core accepts, in milli-degrees.
pub const ANGLE_LIMIT: i64 = 1_000_000;

/// Close-combat range: 2 world units, compared as squared milli-units.
pub const CLOSE_COMBAT_SQ_MU: i64 = 4_000_000;

/// The enumerated bot archetypes.
#[derive(Clone, Copy, Debug, PartialEq, Eq, Hash, Structural)]
pub enum BotKind {
    // Beasts
    Mutant,
    Parasite,
    Maw,
    // Humans
}

impl Default for BotKind {
    fn default() -> (r: Self)
        ensures
            r == BotKind::Mutant,
    {
        BotKind::Mutant
    }
}

impl BotKind {
    /// The kind's display name.
    pub fn description(self) -> (r: &'static str)
        ensures
            self == BotKind::Mutant ==> r@ == "Mutant"@,
            self == BotKind::Parasite ==> r@ == "Parasite"@,
            self == BotKind::Maw ==> r@ == "Maw"@,
    {
        match self {
            BotKind::Mutant => "Mutant",
            BotKind::Parasite => "Parasite",
            BotKind::Maw => "Maw",
        }
    }
}

/// Immutable per-kind tuning and asset catalog entry. Scales are in
/// thousandths (the model scale in millionths), speeds in milli-units per
/// second, health in hit points, the vertical-aim correction in
/// milli-degrees.
#[derive(Clone, Copy, Debug, PartialEq)]
pub struct BotDefinition {
    pub scale_micro: u64,
    pub health: i64,
    pub kind: BotKind,
    pub walk_speed_mu: i64,
    pub weapon_scale_milli: u64,
    pub model: &'static str,
    pub idle_animation: &'static str,
    pub walk_animation: &'static str,
    pub aim_animation: &'static str,
    pub whip_animation: &'static str,
    pub jump_animation: &'static str,
    pub falling_animation: &'static str,
    pub hit_reaction_animation: &'static str,
    pub dying_animation: &'static str,
    pub dead_animation: &'static str,
    pub weapon_hand_name: &'static str,
    pub left_leg_name: &'static str,
    pub right_leg_name: &'static str,
    pub spine: &'static str,
    pub v_aim_angle_hack_mdeg: i64,
}

/// The static bot catalog, one entry per kind.
pub open spec fn spec_bot_definition(kind: BotKind) -> BotDefinition {
    match kind {
        BotKind::Mutant => BotDefinition {
            kind: BotKind::Mutant,
            model: "data/models/mutant.FBX",
            idle_animation: "data/animations/mutant/idle.fbx",
            walk_animation: "data/animations/mutant/walk.fbx",
            aim_animation: "data/animations/mutant/aim.fbx",
            whip_animation: "data/animations/mutant/whip.fbx",
            jump_animation: "data/animations/mutant/jump.fbx",
            falling_animation: "data/animations/mutant/falling.fbx",
            dying_animation: "data/animations/mutant/dying.fbx",
            dead_animation: "data/animations/mutant/dead.fbx",
            hit_reaction_animation: "data/animations/mutant/hit_reaction.fbx",
            weapon_hand_name: "Mutant:RightHand",
            left_leg_name: "Mutant:LeftUpLeg",
            right_leg_name: "Mutant:RightUpLeg",
            spine: "Mutant:Spine",
            walk_speed_mu: 2000,
            scale_micro: 8500,
            weapon_scale_milli: 2600,
            health: 100,
            v_aim_angle_hack_mdeg: -2000i64,
        },
        BotKind::Parasite => BotDefinition {
            kind: BotKind::Parasite,
            model: "data/models/parasite.FBX",
            idle_animation: "data/animations/parasite/idle.fbx",
            walk_animation: "data/animations/parasite/walk.fbx",
            aim_animation: "data/animations/parasite/aim.fbx",
            whip_animation: "data/animations/parasite/whip.fbx",
            jump_animation: "data/animations/parasite/jump.fbx",
            falling_animation: "data/animations/parasite/falling.fbx",
            dying_animation: "data/animations/parasite/dying.fbx",
            dead_animation: "data/animations/parasite/dead.fbx",
            hit_reaction_animation: "data/animations/parasite/hit_reaction.fbx",
            weapon_hand_name: "RightHand",
            left_leg_name: "LeftUpLeg",
            right_leg_name: "RightUpLeg",
            spine: "Spine",
            walk_speed_mu: 2000,
            scale_micro: 8500,
            weapon_scale_milli: 2500,
            health: 100,
            v_aim_angle_hack_mdeg: 12000,
        },
        BotKind::Maw => BotDefinition {
            kind: BotKind::Maw,
            model: "data/models/maw.fbx",
            idle_animation: "data/animations/maw/idle.fbx",
            walk_animation: "data/animations/maw/walk.fbx",
            aim_animation: "data/animations/maw/aim.fbx",
            whip_animation: "data/animations/maw/whip.fbx",
            jump_animation: "data/animations/maw/jump.fbx",
            falling_animation: "data/animations/maw/falling.fbx",
            dying_animation: "data/animations/maw/dying.fbx",
            dead_animation: "data/animations/maw/dead.fbx",
            hit_reaction_animation: "data/animations/maw/hit_reaction.fbx",
            weapon_hand_name: "RightHand",
            left_leg_name: "LeftUpLeg",
            right_leg_name: "RightUpLeg",
            spine: "Spine",
            walk_speed_mu: 2000,
            scale_micro: 8500,
            weapon_scale_milli: 2500,
            health: 100,
            v_aim_angle_hack_mdeg: 16000,
        },
    }
}

/// The shared actor capabilities a bot composes: its physics body, its
/// health and the weapons it holds.
pub struct ActorState {
    /// Scene node id of the rigid body.
    pub body: u64,
    /// Scene node id of the capsule collider.
    pub collider: u64,
    /// Scene node id of the pivot weapons attach to.
    pub weapon_pivot: u64,
    pub health: i64,
    /// Container indices of the held weapons, in held order.
    pub weapons: Vec<usize>,
    /// Position of the current weapon in `weapons`.
    pub current_weapon: usize,
}

/// Bounded health, so damage arithmetic stays in range.
pub open spec fn wf_actor(a: ActorState) -> bool {
    -HEALTH_LIMIT <= a.health <= HEALTH_LIMIT
}

/// An actor is dead once its health is spent.
pub open spec fn spec_is_dead(a: ActorState) -> bool {
    a.health <= 0
}

/// An angle eased toward a target at a bounded angular speed
/// (milli-degrees per second).
#[derive(Clone, Copy, Debug, PartialEq, Eq, Structural)]
pub struct SmoothAngle {
    pub angle_mdeg: i64,
    pub target_mdeg: i64,
    pub speed_mdeg_per_s: i64,
}

/// Bounded angles and a non-negative bounded speed.
pub open spec fn wf_angle(a: SmoothAngle) -> bool {
    &&& -ANGLE_LIMIT <= a.angle_mdeg <= ANGLE_LIMIT
    &&& -ANGLE_LIMIT <= a.target_mdeg <= ANGLE_LIMIT
    &&& 0 <= a.speed_mdeg_per_s <= 1_000_000
}

/// One tick of angle easing: the angle moves toward the target by at most
/// `speed * dt`, reaching it exactly when the gap is within this tick's step.
pub open spec fn spec_angle_step(a: SmoothAngle, dt: int) -> int {
    let step = a.speed_mdeg_per_s * dt / 1000;
    if -step <= a.target_mdeg - a.angle_mdeg <= step {
        a.target_mdeg as int
    } else if a.target_mdeg > a.angle_mdeg {
        a.angle_mdeg + step
    } else {
        a.angle_mdeg - step
    }
}

impl SmoothAngle {
    /// The smoothed angle as of the last tick.
    pub fn angle(&self) -> (r: i64)
        ensures
            r == self.angle_mdeg,
    {
        self.angle_mdeg
    }

    pub fn set_target(&mut self, target_mdeg: i64)
        requires
            -ANGLE_LIMIT <= target_mdeg <= ANGLE_LIMIT,
        ensures
            *final(self) == (SmoothAngle { target_mdeg, ..*old(self) }),
    {
        self.target_mdeg = target_mdeg;
    }

    /// Moves the angle toward its target at the configured maximum angular
    /// speed; see [`spec_angle_step`].
    pub fn update(&mut self, dt_ms: u64)
        requires
            wf_angle(*old(self)),
            dt_ms <= DT_LIMIT,
        ensures
            wf_angle(*final(self)),
            final(self).angle_mdeg == spec_angle_step(*old(self), dt_ms as int),
            *final(self) == (SmoothAngle { angle_mdeg: final(self).angle_mdeg, ..*old(self) }),
    {
        proof {
            assert(0 <= self.speed_mdeg_per_s * dt_ms <= 60_000_000_000i64) by (nonlinear_arith)
                requires
                    0 <= self.speed_mdeg_per_s <= 1_000_000,
                    0 <= dt_ms <= 60_000;
        }
        let step = self.speed_mdeg_per_s * dt_ms as i64 / 1000;
        let diff = self.target_mdeg - self.angle_mdeg;
        if -step <= diff && diff <= step {
            self.angle_mdeg = self.target_mdeg;
        } else if diff > 0 {
            self.angle_mdeg = self.angle_mdeg + step;
        } else {
            self.angle_mdeg = self.angle_mdeg - step;
        }
    }
}

/// The index the weapon selector settles on: keep the current weapon while
/// it has ammo; otherwise the first held weapon with ammo left, in held
/// order; otherwise the current one stays.
pub open spec fn spec_selected_weapon(a: ActorState, weapons: WeaponContainer) -> int {
    if a.weapons@.len() > 0 && a.current_weapon < a.weapons@.len() && spec_weapon(
        weapons,
        a.weapons@[a.current_weapon as int] as int,
    ).ammo == 0 {
        match spec_first_armed(a.weapons@, weapons, a.weapons@.len() as int) {
            Some(i) => i,
            None => a.current_weapon as int,
        }
    } else {
        a.current_weapon as int
    }
}

/// The first position among the first `n` held weapons whose weapon still
/// has ammo.
pub open spec fn spec_first_armed(held: Seq<usize>, weapons: WeaponContainer, n: int) -> Option<
    int,
>
    decreases n,
{
    if n <= 0 || n > held.len() {
        None
    } else {
        match spec_first_armed(held, weapons, n - 1) {
            Some(i) => Some(i),
            None => {
                if spec_weapon(weapons, held[n - 1] as int).ammo > 0 {
                    Some(n - 1)
                } else {
                    None
                }
            },
        }
    }
}

/// The point of interest the selector settles on among the first `n` item
/// slots: scanning in index order, a live item still in the world replaces
/// the current choice exactly when it is strictly nearer.
pub open spec fn spec_poi_upto(items: ItemContainer, self_position: Vec3, n: int) -> Option<int>
    decreases n,
{
    if n <= 0 || n > items.pool@.len() {
        None
    } else {
        let prev = spec_poi_upto(items, self_position, n - 1);
        if item_live(items, n - 1) && spec_item(items, n - 1).active && (match prev {
            None => true,
            Some(j) => spec_sqr_dist(spec_item(items, n - 1).position, self_position)
                < spec_sqr_dist(spec_item(items, j).position, self_position),
        }) {
            Some(n - 1)
        } else {
            prev
        }
    }
}

/// The chosen point of interest: the nearest item not currently picked up,
/// or `None` when there is no such item.
pub open spec fn spec_poi(items: ItemContainer, self_position: Vec3) -> Option<int> {
    spec_poi_upto(items, self_position, items.pool@.len() as int)
}

/// Fixed indices of the bot's nine clips in its own animation container, in
/// the order the constructor registers them.
pub const IDLE_CLIP: usize = 0;

pub const WALK_CLIP: usize = 1;

pub const JUMP_CLIP: usize = 2;

pub const FALLING_CLIP: usize = 3;

pub const AIM_CLIP: usize = 4;

pub const WHIP_CLIP: usize = 5;

pub const HIT_REACTION_CLIP: usize = 6;

pub const DYING_CLIP: usize = 7;

pub const DEAD_CLIP: usize = 8;

/// The timeline lengths of a kind's nine loaded clips, in milliseconds, as
/// the asset loader reports them.
#[derive(Clone, Copy, Debug, PartialEq, Eq, Structural)]
pub struct BotClips {
    pub idle_ms: u64,
    pub walk_ms: u64,
    pub jump_ms: u64,
    pub falling_ms: u64,
    pub aim_ms: u64,
    pub whip_ms: u64,
    pub hit_reaction_ms: u64,
    pub dying_ms: u64,
    pub dead_ms: u64,
}

/// Clip lengths the animation model accepts; the walk and whip clips must be
/// long enough to carry their step and hit signals.
pub open spec fn wf_clips(c: BotClips) -> bool {
    &&& 0 < c.idle_ms <= crate::animation::ANIM_LEN_LIMIT
    &&& 800 <= c.walk_ms <= crate::animation::ANIM_LEN_LIMIT
    &&& 0 < c.jump_ms <= crate::animation::ANIM_LEN_LIMIT
    &&& 0 < c.falling_ms <= crate::animation::ANIM_LEN_LIMIT
    &&& 0 < c.aim_ms <= crate::animation::ANIM_LEN_LIMIT
    &&& 900 <= c.whip_ms <= crate::animation::ANIM_LEN_LIMIT
    &&& 0 < c.hit_reaction_ms <= crate::animation::ANIM_LEN_LIMIT
    &&& 0 < c.dying_ms <= crate::animation::ANIM_LEN_LIMIT
    &&& 0 < c.dead_ms <= crate::animation::ANIM_LEN_LIMIT
}

/// One autonomous bot agent.
pub struct Bot {
    pub target: Option<Target>,
    pub kind: BotKind,
    /// Scene node id of the instanced model.
    pub model: u64,
    pub actor: ActorState,
    pub locomotion_machine: LocomotionMachine,
    pub combat_machine: CombatMachine,
    pub dying_machine: DyingMachine,
    /// The bot's own clips; the layers hold indices into it.
    pub animations: AnimationContainer,
    /// Health as of the end of the previous tick, for damage detection.
    pub last_health: i64,
    /// Time left in the cannot-aim window after taking damage.
    pub restoration_time_ms: i64,
    pub last_poi_update_time_ms: i64,
    pub point_of_interest: Vec3,
    /// The last grounded movement direction, milli-normalized; what little
    /// air control the bot has follows it.
    pub last_move_dir: Vec3,
    /// Scene node id of the spine bone, when the skeleton has one.
    pub spine: u64,
    pub has_spine: bool,
    pub yaw: SmoothAngle,
    pub pitch: SmoothAngle,
}

/// Well-formed bot: the three layers over their fixed graphs, the nine clips
/// live at their fixed indices, and every scalar within its bound.
pub open spec fn wf_bot(b: Bot) -> bool {
    &&& wf_locomotion(b.locomotion_machine)
    &&& wf_combat(b.combat_machine)
    &&& wf_dying(b.dying_machine)
    &&& wf_container(b.animations)
    &&& b.animations.items@.len() == 9
    &&& forall|h: int| 0 <= h < 9 ==> live(b.animations, h)
    &&& b.locomotion_machine.walk_animation == WALK_CLIP
    &&& b.locomotion_machine.machine.states@ == seq![
        State { animation: JUMP_CLIP },
        State { animation: FALLING_CLIP },
        State { animation: WALK_CLIP },
        State { animation: IDLE_CLIP },
    ]
    &&& b.combat_machine.whip_animation == WHIP_CLIP
    &&& b.combat_machine.hit_reaction_animation == HIT_REACTION_CLIP
    &&& b.combat_machine.machine.states@ == seq![
        State { animation: HIT_REACTION_CLIP },
        State { animation: AIM_CLIP },
        State { animation: WHIP_CLIP },
    ]
    &&& b.dying_machine.dying_animation == DYING_CLIP
    &&& b.dying_machine.dead_animation == DEAD_CLIP
    &&& wf_actor(b.actor)
    &&& -HEALTH_LIMIT <= b.last_health <= HEALTH_LIMIT
    &&& -TIME_LIMIT <= b.restoration_time_ms <= TIME_LIMIT
    &&& -10_000 <= b.last_poi_update_time_ms <= TIME_LIMIT
    &&& in_world(b.point_of_interest)
    &&& norm_bounded(b.last_move_dir)
    &&& wf_angle(b.yaw)
    &&& wf_angle(b.pitch)
}

impl Bot {
    /// The immutable definition of the given kind.
    pub fn get_definition(kind: BotKind) -> (d: BotDefinition)
        ensures
            d == spec_bot_definition(kind),
    {
        match kind {
            BotKind::Mutant => BotDefinition {
                kind: BotKind::Mutant,
                model: "data/models/mutant.FBX",
                idle_animation: "data/animations/mutant/idle.fbx",
                walk_animation: "data/animations/mutant/walk.fbx",
                aim_animation: "data/animations/mutant/aim.fbx",
                whip_animation: "data/animations/mutant/whip.fbx",
                jump_animation: "data/animations/mutant/jump.fbx",
                falling_animation: "data/animations/mutant/falling.fbx",
                dying_animation: "data/animations/mutant/dying.fbx",
                dead_animation: "data/animations/mutant/dead.fbx",
                hit_reaction_animation: "data/animations/mutant/hit_reaction.fbx",
                weapon_hand_name: "Mutant:RightHand",
                left_leg_name: "Mutant:LeftUpLeg",
                right_leg_name: "Mutant:RightUpLeg",
                spine: "Mutant:Spine",
                walk_speed_mu: 2000,
                scale_micro: 8500,
                weapon_scale_milli: 2600,
                health: 100,
                v_aim_angle_hack_mdeg: -2000,
            },
            BotKind::Parasite => BotDefinition {
                kind: BotKind::Parasite,
                model: "data/models/parasite.FBX",
                idle_animation: "data/animations/parasite/idle.fbx",
                walk_animation: "data/animations/parasite/walk.fbx",
                aim_animation: "data/animations/parasite/aim.fbx",
                whip_animation: "data/animations/parasite/whip.fbx",
                jump_animation: "data/animations/parasite/jump.fbx",
                falling_animation: "data/animations/parasite/falling.fbx",
                dying_animation: "data/animations/parasite/dying.fbx",
                dead_animation: "data/animations/parasite/dead.fbx",
                hit_reaction_animation: "data/animations/parasite/hit_reaction.fbx",
                weapon_hand_name: "RightHand",
                left_leg_name: "LeftUpLeg",
                right_leg_name: "RightUpLeg",
                spine: "Spine",
                walk_speed_mu: 2000,
                scale_micro: 8500,
                weapon_scale_milli: 2500,
                health: 100,
                v_aim_angle_hack_mdeg: 12000,
            },
            BotKind::Maw => BotDefinition {
                kind: BotKind::Maw,
                model: "data/models/maw.fbx",
                idle_animation: "data/animations/maw/idle.fbx",
                walk_animation: "data/animations/maw/walk.fbx",
                aim_animation: "data/animations/maw/aim.fbx",
                whip_animation: "data/animations/maw/whip.fbx",
                jump_animation: "data/animations/maw/jump.fbx",
                falling_animation: "data/animations/maw/falling.fbx",
                dying_animation: "data/animations/maw/dying.fbx",
                dead_animation: "data/animations/maw/dead.fbx",
                hit_reaction_animation: "data/animations/maw/hit_reaction.fbx",
                weapon_hand_name: "RightHand",
                left_leg_name: "LeftUpLeg",
                right_leg_name: "RightUpLeg",
                spine: "Spine",
                walk_speed_mu: 2000,
                scale_micro: 8500,
                weapon_scale_milli: 2500,
                health: 100,
                v_aim_angle_hack_mdeg: 16000,
            },
        }
    }

    /// The immutable definition of this bot's kind.
    pub fn definition(&self) -> (d: BotDefinition)
        ensures
            d == spec_bot_definition(self.kind),
    {
        Bot::get_definition(self.kind)
    }

    /// A fully formed bot of the given kind: its nine clips registered, the
    /// three layers built over them, health at the kind's starting value,
    /// no target, no weapons yet, and aim at rest with the fixed 260 deg/s
    /// angular speed. The scene node ids come from the model instancing and
    /// physics-body construction that precede this call; a skeleton without
    /// the kind's spine bone leaves `spine` out, and vertical aim is then
    /// skipped.
    pub fn new(
        kind: BotKind,
        body: u64,
        collider: u64,
        weapon_pivot: u64,
        model: u64,
        spine: Option<u64>,
        clips: &BotClips,
    ) -> (b: Bot)
        requires
            wf_clips(*clips),
        ensures
            wf_bot(b),
            b.kind == kind && b.model == model,
            b.actor.body == body && b.actor.collider == collider,
            b.actor.weapon_pivot == weapon_pivot,
            b.actor.health == spec_bot_definition(kind).health,
            b.actor.weapons@.len() == 0 && b.actor.current_weapon == 0,
            b.last_health == spec_bot_definition(kind).health,
            b.target is None,
            b.restoration_time_ms == 0,
            b.last_poi_update_time_ms == -10_000,
            b.point_of_interest == (Vec3 { x: 0, y: 0, z: 0 }),
            b.last_move_dir == (Vec3 { x: 0, y: 0, z: 0 }),
            b.has_spine == (spine is Some),
            b.yaw == (SmoothAngle { angle_mdeg: 0, target_mdeg: 0, speed_mdeg_per_s: 260_000 }),
            b.pitch == (SmoothAngle { angle_mdeg: 0, target_mdeg: 0, speed_mdeg_per_s: 260_000 }),
            b.locomotion_machine.machine.active_state == IDLE_STATE,
            b.locomotion_machine.machine.active_transition is None,
            b.combat_machine.machine.active_state == AIM_STATE,
            b.combat_machine.machine.active_transition is None,
            b.dying_machine.machine.active_state == DYING_STATE,
            b.dying_machine.machine.active_transition is None,
    {
        let definition = Bot::get_definition(kind);
        let mut animations = AnimationContainer::new();
        let locomotion_machine = LocomotionMachine::new(
            &mut animations,
            clips.idle_ms,
            clips.walk_ms,
            clips.jump_ms,
            clips.falling_ms,
        );
        let combat_machine = CombatMachine::new(
            &mut animations,
            clips.aim_ms,
            clips.whip_ms,
            clips.hit_reaction_ms,
        );
        let dying_machine = DyingMachine::new(&mut animations, clips.dying_ms, clips.dead_ms);
        let (has_spine, spine) = match spine {
            Some(s) => (true, s),
            None => (false, 0),
        };
        Bot {
            target: None,
            kind,
            model,
            actor: ActorState {
                body,
                collider,
                weapon_pivot,
                health: definition.health,
                weapons: Vec::new(),
                current_weapon: 0,
            },
            locomotion_machine,
            combat_machine,
            dying_machine,
            animations,
            last_health: definition.health,
            restoration_time_ms: 0,
            last_poi_update_time_ms: -10_000,
            point_of_interest: Vec3::zero(),
            last_move_dir: Vec3::zero(),
            spine,
            has_spine,
            yaw: SmoothAngle { angle_mdeg: 0, target_mdeg: 0, speed_mdeg_per_s: 260_000 },
            pitch: SmoothAngle { angle_mdeg: 0, target_mdeg: 0, speed_mdeg_per_s: 260_000 },
        }
    }

    /// The bot is eligible for removal exactly when its dying layer has
    /// settled in its terminal Dead state.
    pub fn can_be_removed(&self) -> (r: bool)
        ensures
            r == (self.dying_machine.machine.active_state == self.dying_machine.dead_state),
    {
        self.dying_machine.machine.active_state == self.dying_machine.dead_state
    }

    /// The bot can shoot exactly when its combat layer's active state is Aim.
    pub fn can_shoot(&self) -> (r: bool)
        ensures
            r == (self.combat_machine.machine.active_state == self.combat_machine.aim_state),
    {
        self.combat_machine.machine.active_state == self.combat_machine.aim_state
    }

    /// Clears the target when the entity it referred to leaves the world, so
    /// a stale handle is never dereferenced.
    pub fn on_actor_removed(&mut self, handle: u64)
        ensures
            old(self).target matches Some(t) && t.handle == handle ==> *final(self) == (Bot {
                target: None,
                ..*old(self)
            }),
            !(old(self).target matches Some(t) && t.handle == handle) ==> *final(self) == *old(
                self,
            ),
    {
        let clear = match &self.target {
            Some(t) => t.handle == handle,
            None => false,
        };
        if clear {
            self.target = None;
        }
    }

    /// Sets the point of interest by hand and resets the re-selection
    /// throttle.
    pub fn set_point_of_interest(&mut self, poi: Vec3, elapsed_ms: i64)
        requires
            in_world(poi),
            0 <= elapsed_ms <= TIME_LIMIT,
        ensures
            *final(self) == (Bot {
                point_of_interest: poi,
                last_poi_update_time_ms: elapsed_ms,
                ..*old(self)
            }),
    {
        self.point_of_interest = poi;
        self.last_poi_update_time_ms = elapsed_ms;
    }

    /// Smoothly turns the vertical aim toward the engine-computed raw pitch
    /// target, corrected by the kind's aim-angle constant; returns the angle
    /// to apply to the spine bone this tick — the smoothed angle as of the
    /// previous tick. Without a spine bone the caller skips the application;
    /// the aim state still advances.
    pub fn aim_vertically(&mut self, pitch_target_mdeg: i64, dt_ms: u64) -> (applied: i64)
        requires
            wf_angle(old(self).pitch),
            -900_000 <= pitch_target_mdeg <= 900_000,
            dt_ms <= DT_LIMIT,
        ensures
            wf_angle(final(self).pitch),
            applied == old(self).pitch.angle_mdeg,
            final(self).pitch.target_mdeg == pitch_target_mdeg + spec_bot_definition(
                old(self).kind,
            ).v_aim_angle_hack_mdeg,
            final(self).pitch.angle_mdeg == spec_angle_step(
                (SmoothAngle { target_mdeg: final(self).pitch.target_mdeg, ..old(self).pitch }),
                dt_ms as int,
            ),
            *final(self) == (Bot { pitch: final(self).pitch, ..*old(self) }),
    {
        let applied = self.pitch.angle();
        let hack = self.definition().v_aim_angle_hack_mdeg;
        self.pitch.set_target(pitch_target_mdeg + hack);
        self.pitch.update(dt_ms);
        applied
    }

    /// Smoothly turns the horizontal facing toward the engine-computed raw
    /// yaw target; returns the angle to apply to the body this tick — the
    /// smoothed angle as of the previous tick.
    pub fn aim_horizontally(&mut self, yaw_target_mdeg: i64, dt_ms: u64) -> (applied: i64)
        requires
            wf_angle(old(self).yaw),
            -ANGLE_LIMIT <= yaw_target_mdeg <= ANGLE_LIMIT,
            dt_ms <= DT_LIMIT,
        ensures
            wf_angle(final(self).yaw),
            applied == old(self).yaw.angle_mdeg,
            final(self).yaw.target_mdeg == yaw_target_mdeg,
            final(self).yaw.angle_mdeg == spec_angle_step(
                (SmoothAngle { target_mdeg: yaw_target_mdeg, ..old(self).yaw }),
                dt_ms as int,
            ),
            *final(self) == (Bot { yaw: final(self).yaw, ..*old(self) }),
    {
        let applied = self.yaw.angle();
        self.yaw.set_target(yaw_target_mdeg);
        self.yaw.update(dt_ms);
        applied
    }

    /// Switches to the first held weapon with ammo left when the current
    /// one runs dry; a no-op while the current weapon still has ammo or when
    /// no held weapon has any.
    pub fn select_weapon(&mut self, weapons: &WeaponContainer)
        requires
            wf_weapons(*weapons),
            forall|i: int| 0 <= i < old(self).actor.weapons@.len() ==> weapon_live(
                *weapons,
                #[trigger] old(self).actor.weapons@[i] as int,
            ),
        ensures
            final(self).actor.current_weapon == spec_selected_weapon(old(self).actor, *weapons),
            final(self).actor == (ActorState {
                current_weapon: final(self).actor.current_weapon,
                ..old(self).actor
            }),
            *final(self) == (Bot { actor: final(self).actor, ..*old(self) }),
    {
        let held = self.actor.weapons.len();
        if held > 0 && self.actor.current_weapon < held {
            let cur = self.actor.weapons[self.actor.current_weapon];
            if weapons.get(cur).ammo() == 0 {
                let ghost held_seq = self.actor.weapons@;
                let mut i: usize = 0;
                while i < held
                    invariant
                        held == self.actor.weapons@.len(),
                        held_seq == self.actor.weapons@,
                        held > 0,
                        self.actor.current_weapon < held,
                        spec_weapon(
                            *weapons,
                            held_seq[self.actor.current_weapon as int] as int,
                        ).ammo == 0,
                        i <= held,
                        *self == *old(self),
                        wf_weapons(*weapons),
                        forall|k: int| 0 <= k < held_seq.len() ==> weapon_live(
                            *weapons,
                            #[trigger] held_seq[k] as int,
                        ),
                        spec_first_armed(held_seq, *weapons, i as int) is None,
                    decreases held - i,
                {
                    let h = self.actor.weapons[i];
                    if weapons.get(h).ammo() > 0 {
                        proof {
                            assert(spec_first_armed(held_seq, *weapons, i + 1) == Some(i as int));
                            lemma_first_armed_extends(
                                held_seq,
                                *weapons,
                                i + 1,
                                held_seq.len() as int,
                            );
                            assert(spec_selected_weapon(old(self).actor, *weapons) == i as int);
                        }
                        self.actor.current_weapon = i;
                        return;
                    }
                    i = i + 1;
                }
            }
        }
    }

    /// Re-selects the point of interest — the nearest item not currently
    /// picked up — at most once per 1.25 simulated seconds, whatever the
    /// tick rate; within the throttle window nothing changes. When it runs
    /// and no item qualifies, the previous point of interest stays.
    pub fn select_point_of_interest(
        &mut self,
        items: &ItemContainer,
        self_position: Vec3,
        elapsed_ms: i64,
    )
        requires
            wf_items(*items),
            in_world(self_position),
            0 <= elapsed_ms <= TIME_LIMIT,
            -10_000 <= old(self).last_poi_update_time_ms <= TIME_LIMIT,
        ensures
            elapsed_ms - old(self).last_poi_update_time_ms < 1250 ==> *final(self) == *old(self),
            elapsed_ms - old(self).last_poi_update_time_ms >= 1250 ==> {
                &&& final(self).last_poi_update_time_ms == elapsed_ms
                &&& final(self).point_of_interest == (match spec_poi(*items, self_position) {
                    Some(j) => spec_item(*items, j).position,
                    None => old(self).point_of_interest,
                })
                &&& *final(self) == (Bot {
                    point_of_interest: final(self).point_of_interest,
                    last_poi_update_time_ms: elapsed_ms,
                    ..*old(self)
                })
            },
    {
        if elapsed_ms - self.last_poi_update_time_ms >= 1250 {
            let ghost pool = items.pool@;
            let n = items.len();
            let mut best: Option<usize> = None;
            let mut best_dist: i64 = 0;
            let mut i: usize = 0;
            while i < n
                invariant
                    wf_items(*items),
                    in_world(self_position),
                    n == items.pool@.len(),
                    i <= n,
                    match spec_poi_upto(*items, self_position, i as int) {
                        None => best is None,
                        Some(j) => best == Some(j as usize) && best_dist == spec_sqr_dist(
                            spec_item(*items, j).position,
                            self_position,
                        ),
                    },
                decreases n - i,
            {
                if items.contains(i) {
                    let it = items.get(i);
                    if !it.is_picked_up() {
                        proof {
                            assert(wf_items(*items));
                            assert(crate::item::wf_item(spec_item(*items, i as int)));
                        }
                        let d = sqr_dist(it.position, self_position);
                        let better = match best {
                            None => true,
                            Some(_) => d < best_dist,
                        };
                        if better {
                            best = Some(i);
                            best_dist = d;
                        }
                    }
                }
                i = i + 1;
            }
            match best {
                Some(j) => {
                    proof {
                        lemma_poi_upto_range(*items, self_position, items.pool@.len() as int);
                    }
                    let it = items.get(j);
                    self.point_of_interest = it.position;
                },
                None => (),
            }
            self.last_poi_update_time_ms = elapsed_ms;
        }
    }
}

/// Once a held weapon with ammo has been found, looking further keeps the
/// same find.
proof fn lemma_first_armed_extends(held: Seq<usize>, weapons: WeaponContainer, m: int, n: int)
    requires
        0 <= m <= n <= held.len(),
        spec_first_armed(held, weapons, m) is Some,
    ensures
        spec_first_armed(held, weapons, n) == spec_first_armed(held, weapons, m),
    decreases n - m,
{
    if m < n {
        lemma_first_armed_extends(held, weapons, m, n - 1);
    }
}

/// A chosen point of interest is a live item still in the world.
proof fn lemma_poi_upto_range(items: ItemContainer, self_position: Vec3, n: int)
    requires
        n <= items.pool@.len(),
    ensures
        spec_poi_upto(items, self_position, n) matches Some(j) ==> 0 <= j < n && item_live(
            items,
            j,
        ) && spec_item(items, j).active,
    decreases n,
{
    if n > 0 {
        lemma_poi_upto_range(items, self_position, n - 1);
    }
}

/// The four footstep sound variants a step event chooses among.
pub open spec fn spec_footstep(k: int) -> &'static str {
    if k == 0 {
        "data/sounds/footsteps/FootStep_shoe_stone_step1.wav"
    } else if k == 1 {
        "data/sounds/footsteps/FootStep_shoe_stone_step2.wav"
    } else if k == 2 {
        "data/sounds/footsteps/FootStep_shoe_stone_step3.wav"
    } else {
        "data/sounds/footsteps/FootStep_shoe_stone_step4.wav"
    }
}

/// The footstep sound path for a variant index.
fn footstep_path(k: u64) -> (r: &'static str)
    requires
        k < 4,
    ensures
        r == spec_footstep(k as int),
{
    if k == 0 {
        "data/sounds/footsteps/FootStep_shoe_stone_step1.wav"
    } else if k == 1 {
        "data/sounds/footsteps/FootStep_shoe_stone_step2.wav"
    } else if k == 2 {
        "data/sounds/footsteps/FootStep_shoe_stone_step3.wav"
    } else {
        "data/sounds/footsteps/FootStep_shoe_stone_step4.wav"
    }
}

/// The melee-damage requests one tick's drained whip events produce: a fixed
/// 20 hit points against the current target for each hit signal, only while
/// in close combat.
pub open spec fn spec_hit_msgs(events: Seq<u64>, in_close_combat: bool, target_handle: u64) -> Seq<
    Message,
>
    decreases events.len(),
{
    if events.len() == 0 {
        Seq::empty()
    } else {
        spec_hit_msgs(events.drop_last(), in_close_combat, target_handle)
            + if events.last() == HIT_SIGNAL && in_close_combat {
                seq![Message::DamageActor { actor: target_handle, who: 0, amount: 20 }]
            } else {
                Seq::empty()
            }
    }
}

/// The footstep-sound requests one tick's drained walk events produce, only
/// while the bot has ground contact; the k-th emitted step picks the sound
/// variant `(seed % 4 + k) % 4`, the seed being the tick's random draw.
pub open spec fn spec_step_msgs(
    events: Seq<u64>,
    has_ground_contact: bool,
    seed: u64,
    position: Vec3,
) -> Seq<Message>
    decreases events.len(),
{
    if events.len() == 0 {
        Seq::empty()
    } else {
        let prefix = spec_step_msgs(events.drop_last(), has_ground_contact, seed, position);
        prefix + if events.last() == STEP_SIGNAL && has_ground_contact {
            seq![
                Message::PlaySound {
                    path: spec_footstep(((seed % 4) + prefix.len()) % 4),
                    position,
                    gain_milli: 1000,
                    rolloff_milli: 2000,
                    radius_mu: 3000,
                },
            ]
        } else {
            Seq::empty()
        }
    }
}

/// Appends the melee-damage requests of the drained whip events to `out`.
fn collect_hit_msgs(
    events: &Vec<u64>,
    in_close_combat: bool,
    target_handle: u64,
    out: &mut Vec<Message>,
)
    ensures
        final(out)@ == old(out)@ + spec_hit_msgs(events@, in_close_combat, target_handle),
{
    let ghost base = out@;
    let mut i: usize = 0;
    while i < events.len()
        invariant
            i <= events@.len(),
            out@ == base + spec_hit_msgs(events@.take(i as int), in_close_combat, target_handle),
        decreases events@.len() - i,
    {
        proof {
            assert(events@.take(i + 1).drop_last() =~= events@.take(i as int));
            assert(events@.take(i + 1).last() == events@[i as int]);
        }
        if events[i] == HIT_SIGNAL && in_close_combat {
            out.push(Message::DamageActor { actor: target_handle, who: 0, amount: 20 });
        }
        i = i + 1;
    }
    proof {
        assert(events@.take(events@.len() as int) =~= events@);
    }
}

/// Appends the footstep-sound requests of the drained walk events to `out`.
fn collect_step_msgs(
    events: &Vec<u64>,
    has_ground_contact: bool,
    seed: u64,
    position: Vec3,
    out: &mut Vec<Message>,
)
    ensures
        final(out)@ == old(out)@ + spec_step_msgs(events@, has_ground_contact, seed, position),
{
    let ghost base = out@;
    let mut k_mod: u64 = seed % 4;
    let mut i: usize = 0;
    while i < events.len()
        invariant
            i <= events@.len(),
            k_mod == ((seed % 4) + spec_step_msgs(
                events@.take(i as int),
                has_ground_contact,
                seed,
                position,
            ).len()) % 4,
            out@ == base + spec_step_msgs(events@.take(i as int), has_ground_contact, seed, position),
        decreases events@.len() - i,
    {
        proof {
            assert(events@.take(i + 1).drop_last() =~= events@.take(i as int));
            assert(events@.take(i + 1).last() == events@[i as int]);
        }
        if events[i] == STEP_SIGNAL && has_ground_contact {
            let path = footstep_path(k_mod);
            out.push(
                Message::PlaySound {
                    path,
                    position,
                    gain_milli: 1000,
                    rolloff_milli: 2000,
                    radius_mu: 3000,
                },
            );
            proof {
                let ghost c = spec_step_msgs(
                    events@.take(i as int),
                    has_ground_contact,
                    seed,
                    position,
                ).len() as int;
                vstd::arithmetic::div_mod::lemma_add_mod_noop((seed % 4) + c, 1, 4);
            }
            k_mod = (k_mod + 1) % 4;
        }
        i = i + 1;
    }
    proof {
        assert(events@.take(events@.len() as int) =~= events@);
    }
}

/// What the engine hands the bot each tick: the simulated clock, the body's
/// state, the candidate actors with their occlusion rays, the
/// navigation-mesh steering answer (`None` when no navigation mesh is
/// available this tick), and one random draw for footstep variety.
pub struct BotSensors {
    pub dt_ms: u64,
    pub elapsed_ms: i64,
    /// The bot's own actor id, so it never targets itself.
    pub self_handle: u64,
    /// The body's world position.
    pub position: Vec3,
    /// The body's linear velocity, in milli-units per second.
    pub lin_vel: Vec3,
    pub has_ground_contact: bool,
    pub candidates: Vec<CandidateInfo>,
    /// Where the navigation agent stands after this tick's path query.
    pub nav_steering: Option<Vec3>,
    pub footstep_seed: u64,
}

/// Sensor values the tick arithmetic accepts.
pub open spec fn wf_sensors(s: BotSensors) -> bool {
    &&& 0 < s.dt_ms <= DT_LIMIT
    &&& 0 <= s.elapsed_ms <= TIME_LIMIT
    &&& in_world(s.position)
    &&& wf_candidates(s.candidates@)
    &&& s.nav_steering matches Some(p) ==> in_world(p)
}

/// What one tick decides: the outbound requests in emission order, the
/// linear velocity to give the body, and the raw look vector milli-
/// normalized — the engine turns it into yaw and pitch targets for
/// [`Bot::aim_horizontally`] and [`Bot::aim_vertically`].
pub struct TickOutput {
    pub messages: Vec<Message>,
    pub velocity: Vec3,
    pub look_dir: Option<Vec3>,
}

/// The target chosen from the snapshot, as a stored target value.
pub open spec fn spec_new_target(cands: Seq<CandidateInfo>, self_handle: u64, self_body: u64, position: Vec3) -> Option<Target> {
    match spec_select(cands, self_handle, self_body, position) {
        Some(j) => Some(Target { position: cands[j].position, handle: cands[j].handle }),
        None => None,
    }
}

/// The point of interest after the throttled re-selection.
pub open spec fn spec_poi_after(b: Bot, items: ItemContainer, position: Vec3, elapsed_ms: i64) -> Vec3 {
    if elapsed_ms - b.last_poi_update_time_ms >= 1250 {
        match spec_poi(items, position) {
            Some(j) => spec_item(items, j).position,
            None => b.point_of_interest,
        }
    } else {
        b.point_of_interest
    }
}

/// Close combat: a target is held and stands within 2 world units.
pub open spec fn spec_in_close_combat(target: Option<Target>, position: Vec3) -> bool {
    target matches Some(t) && spec_sqr_dist(t.position, position) <= CLOSE_COMBAT_SQ_MU
}

/// The linear velocity one tick settles on. A jump overrides the vertical
/// speed; outside close combat a grounded bot runs along the steering
/// direction (at the quirky full-step speed: the unit direction covered in one
/// tick), an airborne bot keeps a little air control along its last grounded
/// direction at walk speed; in close combat, and when grounded with no
/// steering direction, the body's velocity stays.
pub open spec fn spec_velocity(
    in_close_combat: bool,
    need_jump: bool,
    has_ground_contact: bool,
    dir: Option<Vec3>,
    last_move_dir: Vec3,
    walk_speed_mu: i64,
    dt: int,
    lin_vel: Vec3,
) -> Vec3 {
    if need_jump {
        Vec3 { x: lin_vel.x, y: 80, z: lin_vel.z }
    } else if !in_close_combat {
        if has_ground_contact {
            match dir {
                Some(d) => Vec3 {
                    x: spec_scale_div(d.x as int, 1000, dt) as i64,
                    y: lin_vel.y,
                    z: spec_scale_div(d.z as int, 1000, dt) as i64,
                },
                None => lin_vel,
            }
        } else {
            Vec3 {
                x: spec_scale_div(last_move_dir.x as int, walk_speed_mu as int, dt) as i64,
                y: lin_vel.y,
                z: spec_scale_div(last_move_dir.z as int, walk_speed_mu as int, dt) as i64,
            }
        }
    } else {
        lin_vel
    }
}

/// The countdown of a timer by one tick, floored at the representation
/// limit; the timer never increases on its own.
pub open spec fn spec_count_down(t: int, dt: int) -> int {
    if t - dt < -TIME_LIMIT {
        -TIME_LIMIT as int
    } else {
        t - dt
    }
}


/// Point-of-interest re-selection does not occur more than once per 1.25
/// simulated seconds, whatever the tick rate: for any tick earlier than
/// 1.25 s after the last re-selection, the point of interest is left exactly
/// as it was, whatever the item set looks like.
pub proof fn lemma_poi_throttle(b: Bot, items: ItemContainer, position: Vec3, elapsed_ms: i64)
    requires
        elapsed_ms - b.last_poi_update_time_ms < 1250,
    ensures
        spec_poi_after(b, items, position, elapsed_ms) == b.point_of_interest,
{
}

/// The cannot-aim window only ever counts down: a tick never increases it.
pub proof fn lemma_count_down_monotone(t: int, dt: int)
    requires
        0 <= dt,
        t >= -TIME_LIMIT,
    ensures
        spec_count_down(t, dt) <= t,
        dt > 0 && t > -TIME_LIMIT ==> spec_count_down(t, dt) < t,
{
}

/// A clip after one tick and the frame's extra effects: everything but the
/// playback position, the event queue and the enable flag is untouched.
pub open spec fn anim_frame_rel(a0: Animation, af: Animation, pos: int, events: Seq<u64>, enabled: bool) -> bool {
    &&& af.pos_ms == pos
    &&& af.events@ == events
    &&& af.enabled == enabled
    &&& af.looped == a0.looped
    &&& af.speed_milli == a0.speed_milli
    &&& af.length_ms == a0.length_ms
    &&& af.signals@ == a0.signals@
    &&& af.leg_tracks == a0.leg_tracks
}

/// Where an enabled clip's playback lands after one tick; a disabled clip
/// does not move.
pub open spec fn ticked_pos(a: Animation, dt: int) -> int {
    if a.enabled {
        spec_new_pos(a, dt)
    } else {
        a.pos_ms as int
    }
}

/// An enabled clip's event queue after one tick, before any draining; a
/// disabled clip fires nothing.
pub open spec fn ticked_events(a: Animation, dt: int) -> Seq<u64> {
    if a.enabled {
        a.events@ + spec_fired(a, dt)
    } else {
        a.events@
    }
}


/// What one live tick does to the clip at slot `h`: every clip advances by
/// the tick; a damage tick restarts the hit-reaction clip from time zero;
/// the whip and walk queues are drained when their events were consumed.
pub open spec fn alive_slot_ok(
    orig: AnimationContainer,
    fin: AnimationContainer,
    dt: int,
    was_damaged: bool,
    whip_drained: bool,
    walk_drained: bool,
    h: int,
) -> bool {
    let a0 = spec_anim(orig, h);
    let af = spec_anim(fin, h);
    anim_frame_rel(
        a0,
        af,
        if h == HIT_REACTION_CLIP && was_damaged {
            0
        } else {
            ticked_pos(a0, dt)
        },
        if (h == WHIP_CLIP && whip_drained) || (h == WALK_CLIP && walk_drained) {
            Seq::<u64>::empty()
        } else {
            ticked_events(a0, dt)
        },
        a0.enabled,
    )
}

/// Composes the tick's four container stages — the clip advance, the
/// possible hit-reaction rewind, and the two possible event drains — into
/// the per-slot statement of [`alive_slot_ok`].
proof fn lemma_alive_slots(
    orig: AnimationContainer,
    upd: AnimationContainer,
    v1: AnimationContainer,
    v2: AnimationContainer,
    fin: AnimationContainer,
    dt: int,
    was_damaged: bool,
    whip_drained: bool,
    walk_drained: bool,
)
    requires
        orig.items@.len() == 9,
        forall|h: int| 0 <= h < 9 ==> live(orig, h),
        upd.items@.len() == orig.items@.len(),
        forall|h: int| 0 <= h < upd.items@.len() ==> {
            &&& (orig.items@[h] is None ==> upd.items@[h] is None)
            &&& (orig.items@[h] matches Some(a) ==> {
                &&& upd.items@[h] is Some
                &&& !a.enabled ==> upd.items@[h] == Some(a)
                &&& a.enabled ==> (upd.items@[h] matches Some(b)
                    && b.pos_ms == spec_new_pos(a, dt)
                    && b.events@ == a.events@ + spec_fired(a, dt)
                    && b == (Animation { pos_ms: b.pos_ms, events: b.events, ..a }))
            })
        },
        v1.items@ == if was_damaged {
            upd.items@.update(
                HIT_REACTION_CLIP as int,
                Some(Animation { pos_ms: 0, ..spec_anim(upd, HIT_REACTION_CLIP as int) }),
            )
        } else {
            upd.items@
        },
        v2.items@ == if whip_drained {
            v1.items@.update(
                WHIP_CLIP as int,
                Some(
                    Animation {
                        events: spec_anim(v2, WHIP_CLIP as int).events,
                        ..spec_anim(v1, WHIP_CLIP as int)
                    },
                ),
            )
        } else {
            v1.items@
        },
        whip_drained ==> spec_anim(v2, WHIP_CLIP as int).events@.len() == 0,
        fin.items@ == if walk_drained {
            v2.items@.update(
                WALK_CLIP as int,
                Some(
                    Animation {
                        events: spec_anim(fin, WALK_CLIP as int).events,
                        ..spec_anim(v2, WALK_CLIP as int)
                    },
                ),
            )
        } else {
            v2.items@
        },
        walk_drained ==> spec_anim(fin, WALK_CLIP as int).events@.len() == 0,
    ensures
        forall|h: int| 0 <= h < 9 ==> #[trigger] alive_slot_ok(
            orig,
            fin,
            dt,
            was_damaged,
            whip_drained,
            walk_drained,
            h,
        ),
{
    assert forall|h: int| 0 <= h < 9 implies #[trigger] alive_slot_ok(
        orig,
        fin,
        dt,
        was_damaged,
        whip_drained,
        walk_drained,
        h,
    ) by {
        assert(live(orig, h));
        assert(orig.items@[h] is Some);
        assert(upd.items@[h] is Some);
        let a0 = spec_anim(orig, h);
        let b = spec_anim(upd, h);
        assert(b.pos_ms == ticked_pos(a0, dt) && b.events@ == ticked_events(a0, dt) && b
            == (Animation { pos_ms: b.pos_ms, events: b.events, ..a0 }));
        if h == HIT_REACTION_CLIP && was_damaged {
            assert(spec_anim(v1, h) == (Animation { pos_ms: 0, ..b }));
        } else {
            assert(v1.items@[h] == upd.items@[h]);
        }
        let c = spec_anim(v1, h);
        if h == WHIP_CLIP && whip_drained {
            assert(spec_anim(v2, h) == (Animation { events: spec_anim(v2, h).events, ..c }));
            assert(spec_anim(v2, h).events@ =~= Seq::<u64>::empty());
        } else {
            assert(v2.items@[h] == v1.items@[h]);
        }
        let d = spec_anim(v2, h);
        if h == WALK_CLIP && walk_drained {
            assert(spec_anim(fin, h) == (Animation { events: spec_anim(fin, h).events, ..d }));
            assert(spec_anim(fin, h).events@ =~= Seq::<u64>::empty());
        } else {
            assert(fin.items@[h] == v2.items@[h]);
        }
    }
}

impl Bot {
    /// One simulation tick.
    ///
    /// A dead bot only drives its dying layer and locks in place. A live bot
    /// refreshes its target, weapon and (throttled) point of interest,
    /// resolves close combat and its look vector, steers along the
    /// navigation answer — or straight at its goal when no navigation mesh
    /// is available — detects damage against the previous tick's cached
    /// health, drives the locomotion and combat layers, and drains their
    /// clips' events into shoot, melee-damage and footstep-sound requests.
    /// The caller applies the returned velocity to the body, turns the
    /// returned look direction into aim targets, and forwards the messages.
    #[verifier::rlimit(100)]
    pub fn update(
        &mut self,
        sensors: &BotSensors,
        weapons: &WeaponContainer,
        items: &ItemContainer,
    ) -> (out: TickOutput)
        requires
            wf_bot(*old(self)),
            wf_sensors(*sensors),
            wf_weapons(*weapons),
            wf_items(*items),
            forall|i: int| 0 <= i < old(self).actor.weapons@.len() ==> weapon_live(
                *weapons,
                #[trigger] old(self).actor.weapons@[i] as int,
            ),
        ensures
            wf_bot(*final(self)),
            spec_is_dead(old(self).actor) ==> ({
                let s = *old(self);
                let dt = sensors.dt_ms as int;
                &&& out.messages@.len() == 0
                &&& out.velocity == (Vec3 { x: 0, y: sensors.lin_vel.y, z: 0 })
                &&& out.look_dir is None
                &&& final(self).dying_machine.machine.params@ == seq![true]
                &&& final(self).dying_machine.machine == spec_step(
                    (Machine {
                        params: final(self).dying_machine.machine.params,
                        ..s.dying_machine.machine
                    }),
                    dt,
                )
                &&& final(self).dying_machine == (DyingMachine {
                    machine: final(self).dying_machine.machine,
                    ..s.dying_machine
                })
                &&& *final(self) == (Bot {
                    dying_machine: final(self).dying_machine,
                    animations: final(self).animations,
                    ..s
                })
                &&& final(self).animations.items@.len() == 9
                &&& forall|h: int| 0 <= h < 9 ==> ({
                    let a0 = spec_anim(s.animations, h);
                    let af = #[trigger] spec_anim(final(self).animations, h);
                    anim_frame_rel(
                        a0,
                        af,
                        ticked_pos(a0, dt),
                        ticked_events(a0, dt),
                        if h == DYING_CLIP || h == DEAD_CLIP {
                            true
                        } else {
                            a0.enabled
                        },
                    )
                })
            }),
            !spec_is_dead(old(self).actor) ==> ({
                let s = *old(self);
                let dt = sensors.dt_ms as int;
                let pos = sensors.position;
                let grounded = sensors.has_ground_contact;
                let new_target = spec_new_target(
                    sensors.candidates@,
                    sensors.self_handle,
                    s.actor.body,
                    pos,
                );
                let cw1 = spec_selected_weapon(s.actor, *weapons);
                let poi1 = spec_poi_after(s, *items, pos, sensors.elapsed_ms);
                let goal = spec_goal(new_target, poi1);
                let look = spec_look(goal, pos);
                let icc = spec_in_close_combat(new_target, pos);
                let need_jump = look.y >= 300 && grounded && icc;
                let was_damaged = s.actor.health < s.last_health;
                let can_aim = if was_damaged {
                    false
                } else {
                    s.restoration_time_ms <= 0
                };
                let steer = match sensors.nav_steering {
                    Some(p) => p,
                    None => goal,
                };
                let dir = spec_dir(steer, pos);
                let whip0 = spec_anim(s.animations, WHIP_CLIP as int);
                let walk0 = spec_anim(s.animations, WALK_CLIP as int);
                let shoot = !icc && can_aim && final(self).combat_machine.machine.active_state
                    == AIM_STATE && new_target is Some && cw1 < s.actor.weapons@.len();
                let shoot_msgs = if shoot {
                    seq![
                        Message::ShootWeapon {
                            weapon: s.actor.weapons@[cw1],
                            initial_velocity: (Vec3 { x: 0, y: 0, z: 0 }),
                            direction: Some(look),
                        },
                    ]
                } else {
                    Seq::<Message>::empty()
                };
                let hit_msgs = match new_target {
                    Some(t) => spec_hit_msgs(ticked_events(whip0, dt), icc, t.handle),
                    None => Seq::<Message>::empty(),
                };
                let walking = spec_is_walking(final(self).locomotion_machine);
                let step_msgs = if walking {
                    spec_step_msgs(ticked_events(walk0, dt), grounded, sensors.footstep_seed, pos)
                } else {
                    Seq::<Message>::empty()
                };
                &&& final(self).target == new_target
                &&& final(self).actor.current_weapon == cw1
                &&& final(self).actor == (ActorState {
                    current_weapon: final(self).actor.current_weapon,
                    ..s.actor
                })
                &&& final(self).point_of_interest == poi1
                &&& final(self).last_poi_update_time_ms == (
                    if sensors.elapsed_ms - s.last_poi_update_time_ms >= 1250 {
                        sensors.elapsed_ms
                    } else {
                        s.last_poi_update_time_ms
                    })
                &&& final(self).last_health == s.actor.health
                &&& final(self).restoration_time_ms == spec_count_down(
                    if was_damaged {
                        800
                    } else {
                        s.restoration_time_ms as int
                    },
                    dt,
                )
                &&& final(self).last_move_dir == (
                    if !icc && grounded && dir is Some {
                        dir->Some_0
                    } else {
                        s.last_move_dir
                    })
                &&& final(self).locomotion_machine.machine.params@ == locomotion_params(
                    icc,
                    need_jump,
                    grounded,
                )
                &&& final(self).locomotion_machine.machine == spec_step(
                    (Machine {
                        params: final(self).locomotion_machine.machine.params,
                        ..s.locomotion_machine.machine
                    }),
                    dt,
                )
                &&& final(self).locomotion_machine == (LocomotionMachine {
                    machine: final(self).locomotion_machine.machine,
                    ..s.locomotion_machine
                })
                &&& final(self).combat_machine.machine.params@ == combat_params(
                    icc,
                    was_damaged,
                    can_aim,
                )
                &&& final(self).combat_machine.machine == spec_step(
                    (Machine {
                        params: final(self).combat_machine.machine.params,
                        ..s.combat_machine.machine
                    }),
                    dt,
                )
                &&& final(self).combat_machine == (CombatMachine {
                    machine: final(self).combat_machine.machine,
                    ..s.combat_machine
                })
                &&& final(self).dying_machine == s.dying_machine
                &&& out.velocity == spec_velocity(
                    icc,
                    need_jump,
                    grounded,
                    dir,
                    s.last_move_dir,
                    spec_bot_definition(s.kind).walk_speed_mu,
                    dt,
                    sensors.lin_vel,
                )
                &&& out.look_dir == spec_dir(goal, pos)
                &&& out.messages@ == shoot_msgs + hit_msgs + step_msgs
                &&& final(self).animations.items@.len() == 9
                &&& forall|h: int| 0 <= h < 9 ==> #[trigger] alive_slot_ok(
                    s.animations,
                    final(self).animations,
                    dt,
                    was_damaged,
                    new_target is Some,
                    walking,
                    h,
                )
                &&& *final(self) == (Bot {
                    target: final(self).target,
                    actor: final(self).actor,
                    locomotion_machine: final(self).locomotion_machine,
                    combat_machine: final(self).combat_machine,
                    animations: final(self).animations,
                    last_health: final(self).last_health,
                    restoration_time_ms: final(self).restoration_time_ms,
                    last_poi_update_time_ms: final(self).last_poi_update_time_ms,
                    point_of_interest: final(self).point_of_interest,
                    last_move_dir: final(self).last_move_dir,
                    ..s
                })
            }),
    {
        if self.actor.health <= 0 {
            let dt = sensors.dt_ms;
            self.animations.update(dt);
            let ghost a_upd = self.animations;
            proof {
                assert forall|h: int| 0 <= h < 9 implies live(a_upd, h) by {
                    assert(live(old(self).animations, h));
                    assert(old(self).animations.items@[h] is Some);
                }
            }
            self.dying_machine.apply(&mut self.animations, dt, true);
            proof {
                assert forall|h: int| 0 <= h < 9 implies live(self.animations, h) by {
                    assert(live(a_upd, h));
                }
                let dtg = dt as int;
                assert forall|h: int| 0 <= h < 9 implies ({
                    let a0 = spec_anim(old(self).animations, h);
                    let af = #[trigger] spec_anim(self.animations, h);
                    anim_frame_rel(
                        a0,
                        af,
                        ticked_pos(a0, dtg),
                        ticked_events(a0, dtg),
                        if h == DYING_CLIP || h == DEAD_CLIP {
                            true
                        } else {
                            a0.enabled
                        },
                    )
                }) by {
                    assert(live(old(self).animations, h));
                    assert(old(self).animations.items@[h] is Some);
                    assert(live(a_upd, h));
                    assert(a_upd.items@[h] is Some);
                }
            }
            TickOutput {
                messages: Vec::new(),
                velocity: Vec3 { x: 0, y: sensors.lin_vel.y, z: 0 },
                look_dir: None,
            }
        } else {
            self.update_alive(sensors, weapons, items)
        }
    }

    /// The live-bot part of one tick; see [`Bot::update`].
    #[verifier::rlimit(100)]
    fn update_alive(
        &mut self,
        sensors: &BotSensors,
        weapons: &WeaponContainer,
        items: &ItemContainer,
    ) -> (out: TickOutput)
        requires
            wf_bot(*old(self)),
            !spec_is_dead(old(self).actor),
            wf_sensors(*sensors),
            wf_weapons(*weapons),
            wf_items(*items),
            forall|i: int| 0 <= i < old(self).actor.weapons@.len() ==> weapon_live(
                *weapons,
                #[trigger] old(self).actor.weapons@[i] as int,
            ),
        ensures
            wf_bot(*final(self)),
            ({
                let s = *old(self);
                let dt = sensors.dt_ms as int;
                let pos = sensors.position;
                let grounded = sensors.has_ground_contact;
                let new_target = spec_new_target(
                    sensors.candidates@,
                    sensors.self_handle,
                    s.actor.body,
                    pos,
                );
                let cw1 = spec_selected_weapon(s.actor, *weapons);
                let poi1 = spec_poi_after(s, *items, pos, sensors.elapsed_ms);
                let goal = spec_goal(new_target, poi1);
                let look = spec_look(goal, pos);
                let icc = spec_in_close_combat(new_target, pos);
                let need_jump = look.y >= 300 && grounded && icc;
                let was_damaged = s.actor.health < s.last_health;
                let can_aim = if was_damaged {
                    false
                } else {
                    s.restoration_time_ms <= 0
                };
                let steer = match sensors.nav_steering {
                    Some(p) => p,
                    None => goal,
                };
                let dir = spec_dir(steer, pos);
                let whip0 = spec_anim(s.animations, WHIP_CLIP as int);
                let walk0 = spec_anim(s.animations, WALK_CLIP as int);
                let shoot = !icc && can_aim && final(self).combat_machine.machine.active_state
                    == AIM_STATE && new_target is Some && cw1 < s.actor.weapons@.len();
                let shoot_msgs = if shoot {
                    seq![
                        Message::ShootWeapon {
                            weapon: s.actor.weapons@[cw1],
                            initial_velocity: (Vec3 { x: 0, y: 0, z: 0 }),
                            direction: Some(look),
                        },
                    ]
                } else {
                    Seq::<Message>::empty()
                };
                let hit_msgs = match new_target {
                    Some(t) => spec_hit_msgs(ticked_events(whip0, dt), icc, t.handle),
                    None => Seq::<Message>::empty(),
                };
                let walking = spec_is_walking(final(self).locomotion_machine);
                let step_msgs = if walking {
                    spec_step_msgs(ticked_events(walk0, dt), grounded, sensors.footstep_seed, pos)
                } else {
                    Seq::<Message>::empty()
                };
                &&& final(self).target == new_target
                &&& final(self).actor.current_weapon == cw1
                &&& final(self).actor == (ActorState {
                    current_weapon: final(self).actor.current_weapon,
                    ..s.actor
                })
                &&& final(self).point_of_interest == poi1
                &&& final(self).last_poi_update_time_ms == (
                    if sensors.elapsed_ms - s.last_poi_update_time_ms >= 1250 {
                        sensors.elapsed_ms
                    } else {
                        s.last_poi_update_time_ms
                    })
                &&& final(self).last_health == s.actor.health
                &&& final(self).restoration_time_ms == spec_count_down(
                    if was_damaged {
                        800
                    } else {
                        s.restoration_time_ms as int
                    },
                    dt,
                )
                &&& final(self).last_move_dir == (
                    if !icc && grounded && dir is Some {
                        dir->Some_0
                    } else {
                        s.last_move_dir
                    })
                &&& final(self).locomotion_machine.machine.params@ == locomotion_params(
                    icc,
                    need_jump,
                    grounded,
                )
                &&& final(self).locomotion_machine.machine == spec_step(
                    (Machine {
                        params: final(self).locomotion_machine.machine.params,
                        ..s.locomotion_machine.machine
                    }),
                    dt,
                )
                &&& final(self).locomotion_machine == (LocomotionMachine {
                    machine: final(self).locomotion_machine.machine,
                    ..s.locomotion_machine
                })
                &&& final(self).combat_machine.machine.params@ == combat_params(
                    icc,
                    was_damaged,
                    can_aim,
                )
                &&& final(self).combat_machine.machine == spec_step(
                    (Machine {
                        params: final(self).combat_machine.machine.params,
                        ..s.combat_machine.machine
                    }),
                    dt,
                )
                &&& final(self).combat_machine == (CombatMachine {
                    machine: final(self).combat_machine.machine,
                    ..s.combat_machine
                })
                &&& final(self).dying_machine == s.dying_machine
                &&& out.velocity == spec_velocity(
                    icc,
                    need_jump,
                    grounded,
                    dir,
                    s.last_move_dir,
                    spec_bot_definition(s.kind).walk_speed_mu,
                    dt,
                    sensors.lin_vel,
                )
                &&& out.look_dir == spec_dir(goal, pos)
                &&& out.messages@ == shoot_msgs + hit_msgs + step_msgs
                &&& final(self).animations.items@.len() == 9
                &&& forall|h: int| 0 <= h < 9 ==> #[trigger] alive_slot_ok(
                    s.animations,
                    final(self).animations,
                    dt,
                    was_damaged,
                    new_target is Some,
                    walking,
                    h,
                )
                &&& *final(self) == (Bot {
                    target: final(self).target,
                    actor: final(self).actor,
                    locomotion_machine: final(self).locomotion_machine,
                    combat_machine: final(self).combat_machine,
                    animations: final(self).animations,
                    last_health: final(self).last_health,
                    restoration_time_ms: final(self).restoration_time_ms,
                    last_poi_update_time_ms: final(self).last_poi_update_time_ms,
                    point_of_interest: final(self).point_of_interest,
                    last_move_dir: final(self).last_move_dir,
                    ..s
                })
            }),
    {
        let dt = sensors.dt_ms;
        self.animations.update(dt);
        let ghost a_upd = self.animations;
        proof {
            assert forall|h: int| 0 <= h < 9 implies live(a_upd, h) by {
                assert(live(old(self).animations, h));
                assert(old(self).animations.items@[h] is Some);
            }
        }
        proof {
            crate::perception::lemma_select_upto_sound(
                sensors.candidates@,
                sensors.self_handle,
                self.actor.body,
                sensors.position,
                sensors.candidates@.len() as int,
            );
        }
        self.target = select_target(
            sensors.self_handle,
            self.actor.body,
            sensors.position,
            &sensors.candidates,
        );
        self.select_weapon(weapons);
        self.select_point_of_interest(items, sensors.position, sensors.elapsed_ms);
        proof {
            lemma_poi_upto_range(*items, sensors.position, items.pool@.len() as int);
        }
        let tgt = self.target;
        let goal = match tgt {
            Some(t) => t.position,
            None => self.point_of_interest,
        };
        let look = goal.sub(sensors.position);
        let icc = match tgt {
            Some(t) => sqr_dist(t.position, sensors.position) <= CLOSE_COMBAT_SQ_MU,
            None => false,
        };
        let mut vel = sensors.lin_vel;
        let need_jump = look.y >= 300 && sensors.has_ground_contact && icc;
        if need_jump {
            vel = Vec3 { x: vel.x, y: 80, z: vel.z };
        }
        let was_damaged = self.actor.health < self.last_health;
        if was_damaged {
            proof {
                assert(live(a_upd, HIT_REACTION_CLIP as int));
            }
            self.animations.rewind(HIT_REACTION_CLIP);
            self.restoration_time_ms = 800;
        }
        let ghost v1 = self.animations;
        let can_aim = self.restoration_time_ms <= 0;
        self.last_health = self.actor.health;
        let dir = steer_direction(sensors.nav_steering, goal, sensors.position);
        if !icc {
            if sensors.has_ground_contact {
                match dir {
                    Some(d) => {
                        vel = Vec3 {
                            x: scale_div(d.x, 1000, dt),
                            y: vel.y,
                            z: scale_div(d.z, 1000, dt),
                        };
                        self.last_move_dir = d;
                    },
                    None => (),
                }
            } else {
                let walk = self.definition().walk_speed_mu;
                proof {
                    assert(0 < walk <= 1_000_000);
                }
                vel = Vec3 {
                    x: scale_div(self.last_move_dir.x, walk as u64, dt),
                    y: vel.y,
                    z: scale_div(self.last_move_dir.z, walk as u64, dt),
                };
            }
        }
        let look_dir = normalize_milli(look);
        self.locomotion_machine.apply(dt, icc, need_jump, sensors.has_ground_contact);
        self.combat_machine.apply(dt, icc, was_damaged, can_aim);
        let mut messages: Vec<Message> = Vec::new();
        if !icc && can_aim && self.can_shoot() && tgt.is_some() {
            if self.actor.current_weapon < self.actor.weapons.len() {
                let w = self.actor.weapons[self.actor.current_weapon];
                messages.push(
                    Message::ShootWeapon {
                        weapon: w,
                        initial_velocity: Vec3::zero(),
                        direction: Some(look),
                    },
                );
            }
        }
        match tgt {
            Some(t) => {
                proof {
                    assert(live(a_upd, WHIP_CLIP as int));
                    assert(self.animations.items@[WHIP_CLIP as int] == a_upd.items@[
                        WHIP_CLIP as int
                    ]);
                }
                let evs = self.animations.drain_events(WHIP_CLIP);
                collect_hit_msgs(&evs, icc, t.handle, &mut messages);
            },
            None => (),
        }
        let ghost v2 = self.animations;
        let walking = self.locomotion_machine.is_walking();
        if walking {
            proof {
                assert(live(a_upd, WALK_CLIP as int));
                assert(self.animations.items@[WALK_CLIP as int] == a_upd.items@[
                    WALK_CLIP as int
                ]);
            }
            let evs = self.animations.drain_events(WALK_CLIP);
            collect_step_msgs(
                &evs,
                sensors.has_ground_contact,
                sensors.footstep_seed,
                sensors.position,
                &mut messages,
            );
        }
        let rt = self.restoration_time_ms;
        let dt_i = dt as i64;
        self.restoration_time_ms = if rt - dt_i < -TIME_LIMIT {
            -TIME_LIMIT
        } else {
            rt - dt_i
        };
        proof {
            assert forall|h: int| 0 <= h < 9 implies live(self.animations, h) by {
                assert(live(a_upd, h));
            }
            let s = *old(self);
            let dtg = dt as int;
            let pos = sensors.position;
            let new_target = spec_new_target(
                sensors.candidates@,
                sensors.self_handle,
                s.actor.body,
                pos,
            );
            let cw1 = spec_selected_weapon(s.actor, *weapons);
            let poi1 = spec_poi_after(s, *items, pos, sensors.elapsed_ms);
            let goal = spec_goal(new_target, poi1);
            let lookg = spec_look(goal, pos);
            let iccg = spec_in_close_combat(new_target, pos);
            let can_aim_g = if s.actor.health < s.last_health {
                false
            } else {
                s.restoration_time_ms <= 0
            };
            let whip0 = spec_anim(s.animations, WHIP_CLIP as int);
            let walk0 = spec_anim(s.animations, WALK_CLIP as int);
            let shoot = !iccg && can_aim_g && self.combat_machine.machine.active_state
                == AIM_STATE && new_target is Some && cw1 < s.actor.weapons@.len();
            let shoot_msgs = if shoot {
                seq![
                    Message::ShootWeapon {
                        weapon: s.actor.weapons@[cw1],
                        initial_velocity: (Vec3 { x: 0, y: 0, z: 0 }),
                        direction: Some(lookg),
                    },
                ]
            } else {
                Seq::<Message>::empty()
            };
            let hit_msgs = match new_target {
                Some(t) => spec_hit_msgs(ticked_events(whip0, dtg), iccg, t.handle),
                None => Seq::<Message>::empty(),
            };
            let step_msgs = if walking {
                spec_step_msgs(ticked_events(walk0, dtg), sensors.has_ground_contact, sensors.footstep_seed, pos)
            } else {
                Seq::<Message>::empty()
            };
            assert(messages@ =~= shoot_msgs + hit_msgs + step_msgs);
            let was_damaged_g = s.actor.health < s.last_health;
            assert(look_dir == spec_dir(goal, pos));
            assert(self.animations.items@.len() == 9);
            lemma_alive_slots(
                old(self).animations,
                a_upd,
                v1,
                v2,
                self.animations,
                dtg,
                was_damaged_g,
                new_target is Some,
                walking,
            );
        }
        TickOutput { messages, velocity: vel, look_dir }
    }
}

impl Bot {
    /// Detaches the bot from the scene: frees all nine of its clips. The
    /// engine-side removal of its nodes and body follows outside the core.
    pub fn clean_up(&mut self)
        requires
            wf_bot(*old(self)),
        ensures
            final(self).animations.items@.len() == 9,
            forall|h: int| 0 <= h < 9 ==> final(self).animations.items@[h] is None,
            *final(self) == (Bot { animations: final(self).animations, ..*old(self) }),
    {
        let mut h: usize = 0;
        while h < 9
            invariant
                h <= 9,
                self.animations.items@.len() == 9,
                forall|j: int| 0 <= j < h ==> self.animations.items@[j] is None,
                forall|j: int| (h <= j < 9) ==> self.animations.items@[j] == old(
                    self,
                ).animations.items@[j],
                *self == (Bot { animations: self.animations, ..*old(self) }),
            decreases 9 - h,
        {
            self.animations.remove(h);
            h = h + 1;
        }
    }
}

} // verus!
