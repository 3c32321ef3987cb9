use bot_core::animation::AnimationContainer;
use bot_core::machine::ActiveTransition;
use bot_core::machine::Machine;
use bot_core::machine::State;
use bot_core::machine::Transition;
use bot_core::machines::CombatMachine;
use bot_core::machines::DyingMachine;
use bot_core::machines::LocomotionMachine;
use bot_core::machines::AIM_STATE;
use bot_core::machines::DEAD_STATE;
use bot_core::machines::DYING_STATE;
use bot_core::machines::HIT_REACTION_STATE;
use bot_core::machines::IDLE_STATE;
use bot_core::machines::WALK_STATE;
use bot_core::machines::WHIP_STATE;

fn locomotion() -> (AnimationContainer, LocomotionMachine) {
    let mut animations = AnimationContainer::new();
    let lm = LocomotionMachine::new(&mut animations, 1000, 1000, 1000, 1000);
    (animations, lm)
}

#[test]
fn locomotion_starts_idle() {
    let (_a, lm) = locomotion();
    assert_eq!(lm.machine.active_state, IDLE_STATE);
    assert!(lm.machine.active_transition.is_none());
    assert!(!lm.is_walking());
}

#[test]
fn blend_weight_is_full_outside_transitions() {
    let (_a, lm) = locomotion();
    assert_eq!(lm.machine.blend_weight_permille(), 1000);
}

#[test]
fn blend_weight_stays_in_unit_interval_and_completes_at_duration() {
    // Idle -> Walk has a 500 ms blend; the weight must stay within [0, 1000]
    // permille and hit 1000 (the completed transition) exactly at 500 ms.
    let (_a, mut lm) = locomotion();
    lm.apply(100, false, false, true); // starts Idle -> Walk at blend time 0
    assert!(lm.machine.active_transition.is_some());
    let mut elapsed = 0u64;
    while elapsed < 500 {
        let w = lm.machine.blend_weight_permille();
        assert!(w <= 1000);
        assert_eq!(w as i64, (elapsed as i64) * 1000 / 500);
        assert!(w < 1000);
        lm.apply(100, false, false, true);
        elapsed += 100;
    }
    // The tick that brought the accumulated blend time to 500 ms completed
    // the transition: the walk state is active at full weight.
    assert_eq!(lm.machine.active_state, WALK_STATE);
    assert!(lm.machine.active_transition.is_none());
    assert_eq!(lm.machine.blend_weight_permille(), 1000);
}

#[test]
fn walk_and_back_to_idle_takes_the_full_blend_each_way() {
    // Scenario: IdleToWalk, then WalkToIdle with no jump flags; the
    // active state returns to Idle only after the full 500 ms blend.
    let (_a, mut lm) = locomotion();
    // Reach Walk: one tick starts the transition, five ticks of 100 ms blend.
    lm.apply(100, false, false, true);
    for _ in 0..5 {
        assert_ne!(lm.machine.active_state, WALK_STATE);
        lm.apply(100, false, false, true);
    }
    assert_eq!(lm.machine.active_state, WALK_STATE);
    // Now close combat stops walking: Walk -> Idle.
    lm.apply(100, true, false, true); // starts the transition
    let mut blended = 0u64;
    while blended < 500 {
        assert_ne!(lm.machine.active_state, IDLE_STATE);
        lm.apply(100, true, false, true);
        blended += 100;
    }
    assert_eq!(lm.machine.active_state, IDLE_STATE);
}

#[test]
fn is_walking_covers_transition_toward_walk() {
    let (_a, mut lm) = locomotion();
    lm.apply(16, false, false, true);
    assert!(lm.machine.active_transition.is_some());
    assert!(lm.is_walking());
}

#[test]
fn first_true_rule_in_declaration_order_wins() {
    // From Idle both Idle->Walk and Idle->Jump can fire when not in close
    // combat and a jump is needed; Idle->Walk is declared first and wins.
    let (_a, mut lm) = locomotion();
    lm.apply(16, false, true, true);
    let at = lm.machine.active_transition.expect("a transition must start");
    assert_eq!(lm.machine.transitions[at.index].to, WALK_STATE);
}

#[test]
fn machine_holds_at_most_one_transition_and_state_without_rules() {
    // A tick in which no rule is true leaves the active state unchanged —
    // normal steady state, not an error.
    let (_a, mut lm) = locomotion();
    lm.apply(100, true, false, true); // in close combat: no rule out of Idle
    assert_eq!(lm.machine.active_state, IDLE_STATE);
    assert!(lm.machine.active_transition.is_none());
}

#[test]
fn layer_clean_up_frees_its_clips() {
    let (mut a, mut lm) = locomotion();
    lm.clean_up(&mut a);
    for h in 0..4 {
        assert!(!a.is_live(h));
    }
    let mut a2 = AnimationContainer::new();
    let mut cm = CombatMachine::new(&mut a2, 1000, 1000, 1000);
    cm.clean_up(&mut a2);
    for h in 0..3 {
        assert!(!a2.is_live(h));
    }
    let mut a3 = AnimationContainer::new();
    let mut dm = DyingMachine::new(&mut a3, 1000, 1000);
    dm.clean_up(&mut a3);
    for h in 0..2 {
        assert!(!a3.is_live(h));
    }
}

#[test]
fn combat_starts_at_aim_and_reacts_to_damage() {
    let mut animations = AnimationContainer::new();
    let mut cm = CombatMachine::new(&mut animations, 1000, 1000, 1000);
    assert_eq!(cm.machine.active_state, AIM_STATE);
    // Damage starts Aim -> HitReaction (200 ms blend).
    cm.apply(16, false, true, false);
    let at = cm.machine.active_transition.expect("hit reaction must start");
    assert_eq!(cm.machine.transitions[at.index].to, HIT_REACTION_STATE);
    assert_eq!(cm.machine.transitions[at.index].duration_ms, 200);
}

#[test]
fn combat_whips_in_close_combat() {
    let mut animations = AnimationContainer::new();
    let mut cm = CombatMachine::new(&mut animations, 1000, 1000, 1000);
    cm.apply(16, true, false, false);
    let at = cm.machine.active_transition.expect("whip must start");
    assert_eq!(cm.machine.transitions[at.index].to, WHIP_STATE);
}

#[test]
fn dying_reaches_dead_after_full_blend() {
    // Scenario: is_dead held continuously; Dying -> Dead completes
    // only once the 1.5 s blend has fully elapsed.
    let mut animations = AnimationContainer::new();
    let mut dm = DyingMachine::new(&mut animations, 1000, 1000);
    assert_eq!(dm.machine.active_state, DYING_STATE);
    dm.apply(&mut animations, 100, true); // starts the transition
    let mut blended = 0u64;
    while blended < 1500 {
        assert_ne!(dm.machine.active_state, DEAD_STATE);
        dm.apply(&mut animations, 100, true);
        blended += 100;
    }
    assert_eq!(dm.machine.active_state, DEAD_STATE);
}

#[test]
fn dying_apply_enables_its_clips() {
    let mut animations = AnimationContainer::new();
    let mut dm = DyingMachine::new(&mut animations, 1000, 1000);
    assert!(!animations.get(dm.dying_animation).enabled);
    assert!(!animations.get(dm.dead_animation).enabled);
    dm.apply(&mut animations, 16, false);
    assert!(animations.get(dm.dying_animation).enabled);
    assert!(animations.get(dm.dead_animation).enabled);
}

#[test]
fn machine_scan_skips_other_states_rules() {
    // A machine with two states where only the second state's rule is true:
    // nothing fires from state 0.
    let states = vec![State { animation: 0 }, State { animation: 1 }];
    let transitions = vec![
        Transition { from: 1, to: 0, rule: 0, duration_ms: 100 },
    ];
    let mut m = Machine::new(states, transitions, 1, 0);
    m.set_parameter(0, true);
    m.advance(16);
    assert_eq!(m.active_state, 0);
    assert!(m.active_transition.is_none());
}

#[test]
fn machine_transition_progress_accumulates() {
    let states = vec![State { animation: 0 }, State { animation: 1 }];
    let transitions = vec![
        Transition { from: 0, to: 1, rule: 0, duration_ms: 300 },
    ];
    let mut m = Machine::new(states, transitions, 1, 0);
    m.set_parameter(0, true);
    m.advance(16); // starts at blend time 0
    assert_eq!(
        m.active_transition,
        Some(ActiveTransition { index: 0, elapsed_ms: 0 })
    );
    m.advance(120);
    assert_eq!(
        m.active_transition,
        Some(ActiveTransition { index: 0, elapsed_ms: 120 })
    );
    m.advance(180); // 120 + 180 reaches 300 exactly: completes now
    assert_eq!(m.active_state, 1);
    assert!(m.active_transition.is_none());
}
