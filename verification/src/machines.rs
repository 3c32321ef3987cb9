//! The three behaviour layers of a bot: locomotion, combat and dying.
//!
//! Each layer owns one blend [`Machine`](crate::machine::Machine) over a fixed
//! graph and registers its clips in the bot's animation container. A layer is
//! driven purely by boolean flags handed to `apply` each tick; the flags are
//! written into the machine's rule parameters and the machine advances one
//! step.

use vstd::prelude::*;
use crate::animation::Animation;
use crate::animation::AnimationContainer;
use crate::animation::AnimationSignal;
use crate::animation::ANIM_LEN_LIMIT;
use crate::animation::DT_LIMIT;
use crate::animation::live;
use crate::animation::spec_anim;
use crate::animation::wf_animation;
use crate::animation::wf_container;
use crate::machine::Machine;
use crate::machine::State;
use crate::machine::Transition;
use crate::machine::spec_step;
use crate::machine::wf_machine;

verus! {

/// A clip just registered by a layer: at the start of its timeline with an
/// empty event queue and the given attributes.
pub open spec fn is_clip(
    a: Animation,
    enabled: bool,
    looped: bool,
    speed_milli: u64,
    length_ms: u64,
    signals: Seq<AnimationSignal>,
    leg_tracks: bool,
) -> bool {
    &&& a.enabled == enabled
    &&& a.looped == looped
    &&& a.speed_milli == speed_milli
    &&& a.length_ms == length_ms
    &&& a.pos_ms == 0
    &&& a.signals@ == signals
    &&& a.events@.len() == 0
    &&& a.leg_tracks == leg_tracks
}

// Locomotion layer: states and rule parameters.
pub const JUMP_STATE: usize = 0;

pub const FALLING_STATE: usize = 1;

pub const WALK_STATE: usize = 2;

pub const IDLE_STATE: usize = 3;

pub const WALK_TO_IDLE_PARAM: usize = 0;

pub const WALK_TO_JUMP_PARAM: usize = 1;

pub const IDLE_TO_WALK_PARAM: usize = 2;

pub const IDLE_TO_JUMP_PARAM: usize = 3;

pub const JUMP_TO_FALLING_PARAM: usize = 4;

pub const FALLING_TO_IDLE_PARAM: usize = 5;

/// Timeline id of the locomotion layer's footstep signal.
pub const STEP_SIGNAL: u64 = 1;

/// The locomotion graph's transition table, in declaration order; the order
/// decides which transition wins when several rules are true at once.
pub open spec fn locomotion_transitions() -> Seq<Transition> {
    seq![
        Transition { from: WALK_STATE, to: IDLE_STATE, rule: WALK_TO_IDLE_PARAM, duration_ms: 500 },
        Transition { from: WALK_STATE, to: JUMP_STATE, rule: WALK_TO_JUMP_PARAM, duration_ms: 500 },
        Transition { from: IDLE_STATE, to: WALK_STATE, rule: IDLE_TO_WALK_PARAM, duration_ms: 500 },
        Transition { from: IDLE_STATE, to: JUMP_STATE, rule: IDLE_TO_JUMP_PARAM, duration_ms: 500 },
        Transition {
            from: JUMP_STATE,
            to: FALLING_STATE,
            rule: JUMP_TO_FALLING_PARAM,
            duration_ms: 500,
        },
        Transition {
            from: FALLING_STATE,
            to: IDLE_STATE,
            rule: FALLING_TO_IDLE_PARAM,
            duration_ms: 500,
        },
    ]
}

/// The locomotion rule parameters for one tick's flags: walking stops for
/// close combat, either ground state may jump, and airborne state follows
/// ground contact.
pub open spec fn locomotion_params(
    in_close_combat: bool,
    need_jump: bool,
    has_ground_contact: bool,
) -> Seq<bool> {
    seq![
        in_close_combat,
        need_jump,
        !in_close_combat,
        need_jump,
        !has_ground_contact,
        has_ground_contact,
    ]
}

/// The locomotion layer: Idle, Walk, Jump and Falling around one machine.
pub struct LocomotionMachine {
    pub machine: Machine,
    /// Clip of the walk state; its step signals become footstep sounds.
    pub walk_animation: usize,
    pub walk_state: usize,
}

/// The locomotion layer keeps its fixed graph: four states over the four
/// clips, the fixed transition table, six rule parameters.
pub open spec fn wf_locomotion(lm: LocomotionMachine) -> bool {
    &&& wf_machine(lm.machine)
    &&& lm.machine.states@.len() == 4
    &&& lm.machine.params@.len() == 6
    &&& lm.machine.transitions@ == locomotion_transitions()
    &&& lm.walk_state == WALK_STATE
    &&& lm.machine.states@[WALK_STATE as int].animation == lm.walk_animation
}

/// Walking covers the walk state itself and any in-progress transition
/// blending toward it.
pub open spec fn spec_is_walking(lm: LocomotionMachine) -> bool {
    ||| lm.machine.active_state == lm.walk_state
    ||| (lm.machine.active_transition matches Some(at)
        && lm.machine.transitions@[at.index as int].to == lm.walk_state)
}

impl LocomotionMachine {
    /// Builds the locomotion graph and registers its four clips (idle, walk,
    /// jump, falling — all looping) in the container; the walk clip carries
    /// two step signals at 0.4 s and 0.8 s. Entry state: Idle.
    pub fn new(
        animations: &mut AnimationContainer,
        idle_ms: u64,
        walk_ms: u64,
        jump_ms: u64,
        falling_ms: u64,
    ) -> (lm: LocomotionMachine)
        requires
            wf_container(*old(animations)),
            0 < idle_ms <= ANIM_LEN_LIMIT,
            800 <= walk_ms <= ANIM_LEN_LIMIT,
            0 < jump_ms <= ANIM_LEN_LIMIT,
            0 < falling_ms <= ANIM_LEN_LIMIT,
        ensures
            wf_container(*final(animations)),
            wf_locomotion(lm),
            lm.machine.active_state == IDLE_STATE,
            lm.machine.active_transition is None,
            forall|i: int| 0 <= i < 6 ==> !(#[trigger] lm.machine.params@[i]),
            final(animations).items@.len() == old(animations).items@.len() + 4,
            forall|h: int| 0 <= h < old(animations).items@.len()
                ==> final(animations).items@[h] == old(animations).items@[h],
            ({
                let base = old(animations).items@.len() as int;
                &&& live(*final(animations), base + 0)
                &&& live(*final(animations), base + 1)
                &&& live(*final(animations), base + 2)
                &&& live(*final(animations), base + 3)
                &&& lm.walk_animation == base + 1
                &&& lm.machine.states@ =~= seq![
                    State { animation: (base + 2) as usize },
                    State { animation: (base + 3) as usize },
                    State { animation: (base + 1) as usize },
                    State { animation: (base + 0) as usize },
                ]
                &&& is_clip(
                    spec_anim(*final(animations), base + 0),
                    true,
                    true,
                    1000,
                    idle_ms,
                    Seq::empty(),
                    true,
                )
                &&& is_clip(
                    spec_anim(*final(animations), base + 1),
                    true,
                    true,
                    1000,
                    walk_ms,
                    seq![
                        AnimationSignal { time_ms: 400, id: STEP_SIGNAL },
                        AnimationSignal { time_ms: 800, id: STEP_SIGNAL },
                    ],
                    true,
                )
                &&& is_clip(
                    spec_anim(*final(animations), base + 2),
                    true,
                    true,
                    1000,
                    jump_ms,
                    Seq::empty(),
                    true,
                )
                &&& is_clip(
                    spec_anim(*final(animations), base + 3),
                    true,
                    true,
                    1000,
                    falling_ms,
                    Seq::empty(),
                    true,
                )
            }),
    {
        let idle_animation = animations.add(Animation::new(idle_ms, true));
        let mut walk = Animation::new(walk_ms, true);
        walk.add_signal(400, STEP_SIGNAL);
        walk.add_signal(800, STEP_SIGNAL);
        proof {
            assert(walk.signals@ =~= seq![
                AnimationSignal { time_ms: 400, id: STEP_SIGNAL },
                AnimationSignal { time_ms: 800, id: STEP_SIGNAL },
            ]);
        }
        let walk_animation = animations.add(walk);
        let jump_animation = animations.add(Animation::new(jump_ms, true));
        let falling_animation = animations.add(Animation::new(falling_ms, true));

        let states: Vec<State> = vec![
            State { animation: jump_animation },
            State { animation: falling_animation },
            State { animation: walk_animation },
            State { animation: idle_animation },
        ];
        let transitions: Vec<Transition> = vec![
            Transition {
                from: WALK_STATE,
                to: IDLE_STATE,
                rule: WALK_TO_IDLE_PARAM,
                duration_ms: 500,
            },
            Transition {
                from: WALK_STATE,
                to: JUMP_STATE,
                rule: WALK_TO_JUMP_PARAM,
                duration_ms: 500,
            },
            Transition {
                from: IDLE_STATE,
                to: WALK_STATE,
                rule: IDLE_TO_WALK_PARAM,
                duration_ms: 500,
            },
            Transition {
                from: IDLE_STATE,
                to: JUMP_STATE,
                rule: IDLE_TO_JUMP_PARAM,
                duration_ms: 500,
            },
            Transition {
                from: JUMP_STATE,
                to: FALLING_STATE,
                rule: JUMP_TO_FALLING_PARAM,
                duration_ms: 500,
            },
            Transition {
                from: FALLING_STATE,
                to: IDLE_STATE,
                rule: FALLING_TO_IDLE_PARAM,
                duration_ms: 500,
            },
        ];
        proof {
            assert(transitions@ =~= locomotion_transitions());
        }
        let machine = Machine::new(states, transitions, 6, IDLE_STATE);
        LocomotionMachine { machine, walk_animation, walk_state: WALK_STATE }
    }

    /// Whether the layer is in its walk state or blending toward it.
    pub fn is_walking(&self) -> (r: bool)
        requires
            wf_locomotion(*self),
        ensures
            r == spec_is_walking(*self),
    {
        if self.machine.active_state == self.walk_state {
            true
        } else {
            match self.machine.active_transition {
                Some(at) => self.machine.transitions[at.index].to == self.walk_state,
                None => false,
            }
        }
    }

    /// Writes the tick's flags into the rule parameters and advances the
    /// machine one step.
    pub fn apply(&mut self, dt_ms: u64, in_close_combat: bool, need_jump: bool, has_ground_contact: bool)
        requires
            wf_locomotion(*old(self)),
            dt_ms <= DT_LIMIT,
        ensures
            wf_locomotion(*final(self)),
            final(self).walk_animation == old(self).walk_animation,
            final(self).walk_state == old(self).walk_state,
            final(self).machine.params@ == locomotion_params(
                in_close_combat,
                need_jump,
                has_ground_contact,
            ),
            final(self).machine == spec_step(
                (Machine { params: final(self).machine.params, ..old(self).machine }),
                dt_ms as int,
            ),
    {
        self.machine.set_parameter(IDLE_TO_WALK_PARAM, !in_close_combat);
        self.machine.set_parameter(WALK_TO_IDLE_PARAM, in_close_combat);
        self.machine.set_parameter(WALK_TO_JUMP_PARAM, need_jump);
        self.machine.set_parameter(IDLE_TO_JUMP_PARAM, need_jump);
        self.machine.set_parameter(JUMP_TO_FALLING_PARAM, !has_ground_contact);
        self.machine.set_parameter(FALLING_TO_IDLE_PARAM, has_ground_contact);
        proof {
            assert(self.machine.params@ =~= locomotion_params(
                in_close_combat,
                need_jump,
                has_ground_contact,
            ));
        }
        self.machine.advance(dt_ms);
    }

    /// Frees the layer's clips from the container.
    pub fn clean_up(&mut self, animations: &mut AnimationContainer)
        requires
            wf_locomotion(*old(self)),
            forall|i: int| 0 <= i < 4 ==> #[trigger] old(self).machine.states@[i].animation
                < old(animations).items@.len(),
        ensures
            *final(self) == *old(self),
            final(animations).items@.len() == old(animations).items@.len(),
            forall|h: int| 0 <= h < final(animations).items@.len()
                ==> final(animations).items@[h] == if exists|i: int|
                    0 <= i < 4 && (#[trigger] old(self).machine.states@[i].animation) == h {
                    None::<Animation>
                } else {
                    old(animations).items@[h]
                },
    {
        let a0 = self.machine.states[0].animation;
        let a1 = self.machine.states[1].animation;
        let a2 = self.machine.states[2].animation;
        let a3 = self.machine.states[3].animation;
        animations.remove(a0);
        animations.remove(a1);
        animations.remove(a2);
        animations.remove(a3);
        proof {
            assert forall|h: int| 0 <= h < final(animations).items@.len() implies
                final(animations).items@[h] == if exists|i: int|
                    0 <= i < 4 && (#[trigger] old(self).machine.states@[i].animation) == h {
                    None::<Animation>
                } else {
                    old(animations).items@[h]
                } by {
                if h == a0 || h == a1 || h == a2 || h == a3 {
                    assert(exists|i: int|
                        0 <= i < 4 && (#[trigger] old(self).machine.states@[i].animation) == h);
                }
            }
        }
    }
}

// Combat layer: states and rule parameters.
pub const HIT_REACTION_STATE: usize = 0;

pub const AIM_STATE: usize = 1;

pub const WHIP_STATE: usize = 2;

pub const AIM_TO_WHIP_PARAM: usize = 0;

pub const WHIP_TO_AIM_PARAM: usize = 1;

pub const HIT_REACTION_TO_AIM_PARAM: usize = 2;

pub const AIM_TO_HIT_REACTION_PARAM: usize = 3;

pub const WHIP_TO_HIT_REACTION_PARAM: usize = 4;

/// Timeline id of the combat layer's melee-hit signal.
pub const HIT_SIGNAL: u64 = 1;

/// The combat graph's transition table, in declaration order.
pub open spec fn combat_transitions() -> Seq<Transition> {
    seq![
        Transition { from: AIM_STATE, to: WHIP_STATE, rule: AIM_TO_WHIP_PARAM, duration_ms: 500 },
        Transition { from: WHIP_STATE, to: AIM_STATE, rule: WHIP_TO_AIM_PARAM, duration_ms: 500 },
        Transition {
            from: WHIP_STATE,
            to: HIT_REACTION_STATE,
            rule: WHIP_TO_HIT_REACTION_PARAM,
            duration_ms: 200,
        },
        Transition {
            from: AIM_STATE,
            to: HIT_REACTION_STATE,
            rule: AIM_TO_HIT_REACTION_PARAM,
            duration_ms: 200,
        },
        Transition {
            from: HIT_REACTION_STATE,
            to: AIM_STATE,
            rule: HIT_REACTION_TO_AIM_PARAM,
            duration_ms: 500,
        },
    ]
}

/// The combat rule parameters for one tick's flags: whip in close combat,
/// aim otherwise, a hit reaction on damage, and back to aim once recovered.
pub open spec fn combat_params(in_close_combat: bool, was_damaged: bool, can_aim: bool) -> Seq<
    bool,
> {
    seq![in_close_combat, !in_close_combat, can_aim, was_damaged, was_damaged]
}

/// The combat layer: Aim, Whip and HitReaction around one machine.
pub struct CombatMachine {
    pub machine: Machine,
    /// Clip of the hit-reaction state; restarted when the bot takes damage.
    pub hit_reaction_animation: usize,
    /// Clip of the whip state; its hit signal becomes melee damage.
    pub whip_animation: usize,
    pub aim_state: usize,
}

/// The combat layer keeps its fixed graph: three states over the three clips,
/// the fixed transition table, five rule parameters.
pub open spec fn wf_combat(cm: CombatMachine) -> bool {
    &&& wf_machine(cm.machine)
    &&& cm.machine.states@.len() == 3
    &&& cm.machine.params@.len() == 5
    &&& cm.machine.transitions@ == combat_transitions()
    &&& cm.aim_state == AIM_STATE
    &&& cm.machine.states@[WHIP_STATE as int].animation == cm.whip_animation
    &&& cm.machine.states@[HIT_REACTION_STATE as int].animation == cm.hit_reaction_animation
    &&& cm.whip_animation != cm.hit_reaction_animation
}

impl CombatMachine {
    /// Builds the combat graph and registers its three clips: a looping aim,
    /// a looping whip with the melee-hit signal at 0.9 s, and a one-shot
    /// hit reaction at double speed. None of them drives the leg tracks, so
    /// they do not fight the locomotion layer. Entry state: Aim.
    pub fn new(
        animations: &mut AnimationContainer,
        aim_ms: u64,
        whip_ms: u64,
        hit_reaction_ms: u64,
    ) -> (cm: CombatMachine)
        requires
            wf_container(*old(animations)),
            0 < aim_ms <= ANIM_LEN_LIMIT,
            900 <= whip_ms <= ANIM_LEN_LIMIT,
            0 < hit_reaction_ms <= ANIM_LEN_LIMIT,
        ensures
            wf_container(*final(animations)),
            wf_combat(cm),
            cm.machine.active_state == AIM_STATE,
            cm.machine.active_transition is None,
            forall|i: int| 0 <= i < 5 ==> !(#[trigger] cm.machine.params@[i]),
            final(animations).items@.len() == old(animations).items@.len() + 3,
            forall|h: int| 0 <= h < old(animations).items@.len()
                ==> final(animations).items@[h] == old(animations).items@[h],
            ({
                let base = old(animations).items@.len() as int;
                &&& live(*final(animations), base + 0)
                &&& live(*final(animations), base + 1)
                &&& live(*final(animations), base + 2)
                &&& cm.whip_animation == base + 1
                &&& cm.hit_reaction_animation == base + 2
                &&& cm.machine.states@ =~= seq![
                    State { animation: (base + 2) as usize },
                    State { animation: (base + 0) as usize },
                    State { animation: (base + 1) as usize },
                ]
                &&& is_clip(
                    spec_anim(*final(animations), base + 0),
                    true,
                    true,
                    1000,
                    aim_ms,
                    Seq::empty(),
                    false,
                )
                &&& is_clip(
                    spec_anim(*final(animations), base + 1),
                    true,
                    true,
                    1000,
                    whip_ms,
                    seq![AnimationSignal { time_ms: 900, id: HIT_SIGNAL }],
                    false,
                )
                &&& is_clip(
                    spec_anim(*final(animations), base + 2),
                    true,
                    false,
                    2000,
                    hit_reaction_ms,
                    Seq::empty(),
                    false,
                )
            }),
    {
        let mut aim = Animation::new(aim_ms, true);
        aim.disable_leg_tracks();
        let aim_animation = animations.add(aim);
        let mut whip = Animation::new(whip_ms, true);
        whip.add_signal(900, HIT_SIGNAL);
        whip.disable_leg_tracks();
        proof {
            assert(whip.signals@ =~= seq![AnimationSignal { time_ms: 900, id: HIT_SIGNAL }]);
        }
        let whip_animation = animations.add(whip);
        let mut hit_reaction = Animation::new(hit_reaction_ms, false);
        hit_reaction.set_loop(false);
        hit_reaction.set_speed(2000);
        hit_reaction.disable_leg_tracks();
        let hit_reaction_animation = animations.add(hit_reaction);

        let states: Vec<State> = vec![
            State { animation: hit_reaction_animation },
            State { animation: aim_animation },
            State { animation: whip_animation },
        ];
        let transitions: Vec<Transition> = vec![
            Transition {
                from: AIM_STATE,
                to: WHIP_STATE,
                rule: AIM_TO_WHIP_PARAM,
                duration_ms: 500,
            },
            Transition {
                from: WHIP_STATE,
                to: AIM_STATE,
                rule: WHIP_TO_AIM_PARAM,
                duration_ms: 500,
            },
            Transition {
                from: WHIP_STATE,
                to: HIT_REACTION_STATE,
                rule: WHIP_TO_HIT_REACTION_PARAM,
                duration_ms: 200,
            },
            Transition {
                from: AIM_STATE,
                to: HIT_REACTION_STATE,
                rule: AIM_TO_HIT_REACTION_PARAM,
                duration_ms: 200,
            },
            Transition {
                from: HIT_REACTION_STATE,
                to: AIM_STATE,
                rule: HIT_REACTION_TO_AIM_PARAM,
                duration_ms: 500,
            },
        ];
        proof {
            assert(transitions@ =~= combat_transitions());
        }
        let machine = Machine::new(states, transitions, 5, AIM_STATE);
        CombatMachine { machine, hit_reaction_animation, whip_animation, aim_state: AIM_STATE }
    }

    /// Writes the tick's flags into the rule parameters and advances the
    /// machine one step.
    pub fn apply(&mut self, dt_ms: u64, in_close_combat: bool, was_damaged: bool, can_aim: bool)
        requires
            wf_combat(*old(self)),
            dt_ms <= DT_LIMIT,
        ensures
            wf_combat(*final(self)),
            final(self).whip_animation == old(self).whip_animation,
            final(self).hit_reaction_animation == old(self).hit_reaction_animation,
            final(self).aim_state == old(self).aim_state,
            final(self).machine.params@ == combat_params(in_close_combat, was_damaged, can_aim),
            final(self).machine == spec_step(
                (Machine { params: final(self).machine.params, ..old(self).machine }),
                dt_ms as int,
            ),
    {
        self.machine.set_parameter(WHIP_TO_AIM_PARAM, !in_close_combat);
        self.machine.set_parameter(AIM_TO_WHIP_PARAM, in_close_combat);
        self.machine.set_parameter(WHIP_TO_HIT_REACTION_PARAM, was_damaged);
        self.machine.set_parameter(AIM_TO_HIT_REACTION_PARAM, was_damaged);
        self.machine.set_parameter(HIT_REACTION_TO_AIM_PARAM, can_aim);
        proof {
            assert(self.machine.params@ =~= combat_params(in_close_combat, was_damaged, can_aim));
        }
        self.machine.advance(dt_ms);
    }

    /// Frees the layer's clips from the container.
    pub fn clean_up(&mut self, animations: &mut AnimationContainer)
        requires
            wf_combat(*old(self)),
            forall|i: int| 0 <= i < 3 ==> #[trigger] old(self).machine.states@[i].animation
                < old(animations).items@.len(),
        ensures
            *final(self) == *old(self),
            final(animations).items@.len() == old(animations).items@.len(),
            forall|h: int| 0 <= h < final(animations).items@.len()
                ==> final(animations).items@[h] == if exists|i: int|
                    0 <= i < 3 && (#[trigger] old(self).machine.states@[i].animation) == h {
                    None::<Animation>
                } else {
                    old(animations).items@[h]
                },
    {
        let a0 = self.machine.states[0].animation;
        let a1 = self.machine.states[1].animation;
        let a2 = self.machine.states[2].animation;
        animations.remove(a0);
        animations.remove(a1);
        animations.remove(a2);
        proof {
            assert forall|h: int| 0 <= h < final(animations).items@.len() implies
                final(animations).items@[h] == if exists|i: int|
                    0 <= i < 3 && (#[trigger] old(self).machine.states@[i].animation) == h {
                    None::<Animation>
                } else {
                    old(animations).items@[h]
                } by {
                if h == a0 || h == a1 || h == a2 {
                    assert(exists|i: int|
                        0 <= i < 3 && (#[trigger] old(self).machine.states@[i].animation) == h);
                }
            }
        }
    }
}

// Dying layer: states and rule parameter.
pub const DYING_STATE: usize = 0;

pub const DEAD_STATE: usize = 1;

pub const DYING_TO_DEAD_PARAM: usize = 0;

/// The dying graph's single one-way transition, with the fixed 1.5 s blend
/// matching the dying clip's terminal alignment.
pub open spec fn dying_transitions() -> Seq<Transition> {
    seq![
        Transition {
            from: DYING_STATE,
            to: DEAD_STATE,
            rule: DYING_TO_DEAD_PARAM,
            duration_ms: 1500,
        },
    ]
}

/// The dying layer: Dying blending one way into the terminal Dead state.
pub struct DyingMachine {
    pub machine: Machine,
    pub dead_state: usize,
    pub dead_animation: usize,
    pub dying_animation: usize,
}

/// The dying layer keeps its fixed graph: two states over the two clips, the
/// single transition, one rule parameter.
pub open spec fn wf_dying(dm: DyingMachine) -> bool {
    &&& wf_machine(dm.machine)
    &&& dm.machine.states@.len() == 2
    &&& dm.machine.params@.len() == 1
    &&& dm.machine.transitions@ == dying_transitions()
    &&& dm.dead_state == DEAD_STATE
    &&& dm.machine.states@[DYING_STATE as int].animation == dm.dying_animation
    &&& dm.machine.states@[DEAD_STATE as int].animation == dm.dead_animation
    &&& dm.dying_animation != dm.dead_animation
}

impl DyingMachine {
    /// Builds the dying graph and registers its two clips, both created
    /// disabled until the layer is first applied: the dying clip at 1.5x
    /// speed and the one-shot dead clip. Entry state: Dying.
    pub fn new(animations: &mut AnimationContainer, dying_ms: u64, dead_ms: u64) -> (dm: DyingMachine)
        requires
            wf_container(*old(animations)),
            0 < dying_ms <= ANIM_LEN_LIMIT,
            0 < dead_ms <= ANIM_LEN_LIMIT,
        ensures
            wf_container(*final(animations)),
            wf_dying(dm),
            dm.machine.active_state == DYING_STATE,
            dm.machine.active_transition is None,
            !dm.machine.params@[0],
            final(animations).items@.len() == old(animations).items@.len() + 2,
            forall|h: int| 0 <= h < old(animations).items@.len()
                ==> final(animations).items@[h] == old(animations).items@[h],
            ({
                let base = old(animations).items@.len() as int;
                &&& live(*final(animations), base + 0)
                &&& live(*final(animations), base + 1)
                &&& dm.dying_animation == base + 0
                &&& dm.dead_animation == base + 1
                &&& is_clip(
                    spec_anim(*final(animations), base + 0),
                    false,
                    true,
                    1500,
                    dying_ms,
                    Seq::empty(),
                    true,
                )
                &&& is_clip(
                    spec_anim(*final(animations), base + 1),
                    false,
                    false,
                    1000,
                    dead_ms,
                    Seq::empty(),
                    true,
                )
            }),
    {
        let mut dying = Animation::new(dying_ms, true);
        dying.set_enabled(false);
        dying.set_speed(1500);
        let dying_animation = animations.add(dying);
        let mut dead = Animation::new(dead_ms, false);
        dead.set_enabled(false);
        dead.set_loop(false);
        let dead_animation = animations.add(dead);

        let states: Vec<State> = vec![
            State { animation: dying_animation },
            State { animation: dead_animation },
        ];
        let transitions: Vec<Transition> = vec![
            Transition {
                from: DYING_STATE,
                to: DEAD_STATE,
                rule: DYING_TO_DEAD_PARAM,
                duration_ms: 1500,
            },
        ];
        proof {
            assert(transitions@ =~= dying_transitions());
        }
        let machine = Machine::new(states, transitions, 1, DYING_STATE);
        DyingMachine { machine, dead_state: DEAD_STATE, dead_animation, dying_animation }
    }

    /// Enables the layer's two clips and advances the machine one step with
    /// the single rule set from `is_dead`.
    pub fn apply(&mut self, animations: &mut AnimationContainer, dt_ms: u64, is_dead: bool)
        requires
            wf_dying(*old(self)),
            dt_ms <= DT_LIMIT,
            wf_container(*old(animations)),
            live(*old(animations), old(self).dying_animation as int),
            live(*old(animations), old(self).dead_animation as int),
        ensures
            wf_container(*final(animations)),
            wf_dying(*final(self)),
            final(self).dead_state == old(self).dead_state,
            final(self).dead_animation == old(self).dead_animation,
            final(self).dying_animation == old(self).dying_animation,
            final(animations).items@ == old(animations).items@.update(
                old(self).dying_animation as int,
                Some(
                    Animation {
                        enabled: true,
                        ..spec_anim(*old(animations), old(self).dying_animation as int)
                    },
                ),
            ).update(
                old(self).dead_animation as int,
                Some(
                    Animation {
                        enabled: true,
                        ..spec_anim(*old(animations), old(self).dead_animation as int)
                    },
                ),
            ),
            final(self).machine.params@ == seq![is_dead],
            final(self).machine == spec_step(
                (Machine { params: final(self).machine.params, ..old(self).machine }),
                dt_ms as int,
            ),
    {
        animations.set_enabled(self.dying_animation, true);
        animations.set_enabled(self.dead_animation, true);
        self.machine.set_parameter(DYING_TO_DEAD_PARAM, is_dead);
        proof {
            assert(self.machine.params@ =~= seq![is_dead]);
        }
        self.machine.advance(dt_ms);
    }

    /// Frees the layer's clips from the container.
    pub fn clean_up(&mut self, animations: &mut AnimationContainer)
        requires
            wf_dying(*old(self)),
            old(self).dying_animation < old(animations).items@.len(),
            old(self).dead_animation < old(animations).items@.len(),
        ensures
            *final(self) == *old(self),
            final(animations).items@ == old(animations).items@.update(
                old(self).dying_animation as int,
                None::<Animation>,
            ).update(old(self).dead_animation as int, None::<Animation>),
    {
        animations.remove(self.dying_animation);
        animations.remove(self.dead_animation);
    }
}

} // verus!
