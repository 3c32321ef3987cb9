//! Weighted animation-blend state machine.
//!
//! A [`Machine`] is a directed graph of states, each wrapping one animation
//! clip, with transitions guarded by named boolean rule parameters and a blend
//! duration. Exactly one state is active, or one transition is in progress
//! interpolating between two (the `Option` field makes more than one
//! in-progress transition per layer unrepresentable). Transitions are started
//! only by rule evaluation each tick — the sole external control point is the
//! parameter values. When several outgoing rules are true at once, the first
//! transition in declaration order wins.

use vstd::prelude::*;
use vstd::arithmetic::div_mod::lemma_div_pos_is_pos;
use vstd::arithmetic::div_mod::lemma_multiply_divide_lt;
use vstd::arithmetic::div_mod::lemma_div_multiples_vanish;

verus! {

/// Longest blend duration the core accepts, in milliseconds.
pub const DURATION_LIMIT: u64 = 60_000;

/// One node of the graph, wrapping the clip it plays.
#[derive(Clone, Copy, Debug, PartialEq, Eq, Structural)]
pub struct State {
    /// Index of the state's clip in the bot's animation container.
    pub animation: usize,
}

/// One edge of the graph: a guarded, timed cross-fade.
#[derive(Clone, Copy, Debug, PartialEq, Eq, Structural)]
pub struct Transition {
    pub from: usize,
    pub to: usize,
    /// Index of the boolean rule parameter that starts this transition.
    pub rule: usize,
    pub duration_ms: u64,
}

/// The single transition currently interpolating, if any.
#[derive(Clone, Copy, Debug, PartialEq, Eq, Structural)]
pub struct ActiveTransition {
    /// Index of the transition in the machine's transition table.
    pub index: usize,
    /// Blend time accumulated so far; strictly under the duration.
    pub elapsed_ms: u64,
}

/// A blend state machine for one behaviour layer.
pub struct Machine {
    pub states: Vec<State>,
    pub transitions: Vec<Transition>,
    pub params: Vec<bool>,
    pub active_state: usize,
    pub active_transition: Option<ActiveTransition>,
}

/// The rule parameter at `rule` exists and is set.
pub open spec fn param_true(params: Seq<bool>, rule: int) -> bool {
    0 <= rule < params.len() && params[rule]
}

/// Well-formed machine: indices in range, positive bounded durations, and an
/// in-progress transition that leaves the active state with blend time
/// strictly under its duration.
pub open spec fn wf_machine(m: Machine) -> bool {
    &&& m.states@.len() > 0
    &&& m.active_state < m.states@.len()
    &&& forall|i: int| 0 <= i < m.transitions@.len() ==> {
        let t = #[trigger] m.transitions@[i];
        &&& t.from < m.states@.len()
        &&& t.to < m.states@.len()
        &&& t.rule < m.params@.len()
        &&& 0 < t.duration_ms <= DURATION_LIMIT
    }
    &&& m.active_transition matches Some(at) ==> {
        &&& at.index < m.transitions@.len()
        &&& m.transitions@[at.index as int].from == m.active_state
        &&& at.elapsed_ms < m.transitions@[at.index as int].duration_ms
    }
}

/// The first transition at or after position `i`, in declaration order, that
/// leaves `from` and whose rule is set.
pub open spec fn first_ready(ts: Seq<Transition>, params: Seq<bool>, from: int, i: int) -> Option<
    int,
>
    decreases ts.len() - i,
{
    if i < 0 || i >= ts.len() {
        None
    } else if ts[i].from == from && param_true(params, ts[i].rule as int) {
        Some(i)
    } else {
        first_ready(ts, params, from, i + 1)
    }
}

/// One tick of the machine. With a transition in progress the blend time
/// advances; the moment it reaches the configured duration the destination
/// becomes active and the transition ends. With none in progress, the first
/// ready outgoing transition (declaration order) starts at blend time zero.
/// With no ready rule the active state is simply kept — the normal steady
/// state, not an error.
pub open spec fn spec_step(m: Machine, dt: int) -> Machine {
    match m.active_transition {
        Some(at) => {
            let t = m.transitions@[at.index as int];
            if at.elapsed_ms + dt < t.duration_ms {
                Machine {
                    active_transition: Some(
                        ActiveTransition {
                            index: at.index,
                            elapsed_ms: (at.elapsed_ms + dt) as u64,
                        },
                    ),
                    ..m
                }
            } else {
                Machine { active_state: t.to, active_transition: None, ..m }
            }
        },
        None => match first_ready(m.transitions@, m.params@, m.active_state as int, 0) {
            Some(k) => Machine {
                active_transition: Some(ActiveTransition { index: k as usize, elapsed_ms: 0 }),
                ..m
            },
            None => m,
        },
    }
}

impl Machine {
    /// A machine over the given graph, with every rule parameter cleared and
    /// the entry state active.
    pub fn new(
        states: Vec<State>,
        transitions: Vec<Transition>,
        n_params: usize,
        entry: usize,
    ) -> (m: Machine)
        requires
            states@.len() > 0,
            entry < states@.len(),
            forall|i: int| 0 <= i < transitions@.len() ==> {
                let t = #[trigger] transitions@[i];
                &&& t.from < states@.len()
                &&& t.to < states@.len()
                &&& t.rule < n_params
                &&& 0 < t.duration_ms <= DURATION_LIMIT
            },
        ensures
            wf_machine(m),
            m.states == states,
            m.transitions == transitions,
            m.params@ == Seq::new(n_params as nat, |i: int| false),
            m.active_state == entry,
            m.active_transition is None,
    {
        let mut params: Vec<bool> = Vec::new();
        let mut i: usize = 0;
        while i < n_params
            invariant
                i <= n_params,
                params@ =~= Seq::new(i as nat, |j: int| false),
            decreases n_params - i,
        {
            params.push(false);
            i = i + 1;
        }
        proof {
            assert(params@ =~= Seq::new(n_params as nat, |j: int| false));
        }
        Machine { states, transitions, params, active_state: entry, active_transition: None }
    }

    /// Sets one boolean rule parameter; the only external control point.
    pub fn set_parameter(&mut self, rule: usize, value: bool)
        requires
            rule < old(self).params@.len(),
        ensures
            final(self).params@ == old(self).params@.update(rule as int, value),
            *final(self) == (Machine { params: final(self).params, ..*old(self) }),
    {
        self.params.set(rule, value);
    }

    /// Advances the machine by one tick, exactly as [`spec_step`] says.
    pub fn advance(&mut self, dt_ms: u64)
        requires
            wf_machine(*old(self)),
            dt_ms <= crate::animation::DT_LIMIT,
        ensures
            wf_machine(*final(self)),
            *final(self) == spec_step(*old(self), dt_ms as int),
    {
        match self.active_transition {
            Some(at) => {
                let duration = self.transitions[at.index].duration_ms;
                let to = self.transitions[at.index].to;
                if at.elapsed_ms + dt_ms < duration {
                    self.active_transition = Some(
                        ActiveTransition { index: at.index, elapsed_ms: at.elapsed_ms + dt_ms },
                    );
                } else {
                    self.active_state = to;
                    self.active_transition = None;
                }
            },
            None => {
                let mut i: usize = 0;
                while i < self.transitions.len()
                    invariant
                        wf_machine(*self),
                        *self == *old(self),
                        i <= self.transitions@.len(),
                        self.active_transition is None,
                        first_ready(
                            self.transitions@,
                            self.params@,
                            self.active_state as int,
                            0,
                        ) == first_ready(
                            self.transitions@,
                            self.params@,
                            self.active_state as int,
                            i as int,
                        ),
                    decreases self.transitions@.len() - i,
                {
                    let t = self.transitions[i];
                    if t.from == self.active_state && self.params[t.rule] {
                        self.active_transition = Some(
                            ActiveTransition { index: i, elapsed_ms: 0 },
                        );
                        return;
                    }
                    i = i + 1;
                }
            },
        }
    }

    /// The blend weight of the in-progress transition, in permille: how far
    /// the cross-fade toward the destination pose has come. With no
    /// transition in progress the active state carries the full weight.
    pub fn blend_weight_permille(&self) -> (r: u64)
        requires
            wf_machine(*self),
        ensures
            r <= 1000,
            self.active_transition matches Some(at) ==> r == (at.elapsed_ms * 1000) as int
                / (self.transitions@[at.index as int].duration_ms as int) && r < 1000,
            self.active_transition is None ==> r == 1000,
    {
        match self.active_transition {
            Some(at) => {
                let duration = self.transitions[at.index].duration_ms;
                proof {
                    lemma_div_pos_is_pos(at.elapsed_ms * 1000, duration as int);
                    lemma_multiply_divide_lt(at.elapsed_ms * 1000, duration as int, 1000);
                    assert(at.elapsed_ms * 1000 < duration * 1000) by (nonlinear_arith)
                        requires at.elapsed_ms < duration;
                }
                at.elapsed_ms * 1000 / duration
            },
            None => 1000,
        }
    }
}

/// A blend weight `e * 1000 / d` over a transition of duration `d` always
/// lies in the unit interval (permille), and reaches the full weight exactly
/// when the accumulated blend time `e` reaches the configured duration —
/// never before and never after.
pub proof fn lemma_blend_weight_unit_interval(e: int, d: int)
    requires
        0 <= e <= d,
        0 < d,
    ensures
        0 <= e * 1000 / d <= 1000,
        e * 1000 / d == 1000 <==> e == d,
{
    lemma_div_pos_is_pos(e * 1000, d);
    lemma_div_multiples_vanish(1000, d);
    assert(e * 1000 <= d * 1000) by (nonlinear_arith)
        requires e <= d, 0 < d;
    vstd::arithmetic::div_mod::lemma_div_is_ordered(e * 1000, d * 1000, d);
    assert(d * 1000 == 1000 * d) by (nonlinear_arith);
    if e < d {
        lemma_multiply_divide_lt(e * 1000, d, 1000);
        assert(e * 1000 < d * 1000) by (nonlinear_arith)
            requires e < d, 0 < d;
    }
}

/// Total of a sequence of tick lengths.
pub open spec fn sum_ms(dts: Seq<u64>) -> int
    decreases dts.len(),
{
    if dts.len() == 0 {
        0
    } else {
        dts[0] + sum_ms(dts.drop_first())
    }
}

/// Running a machine over a sequence of ticks, one [`spec_step`] each.
pub open spec fn spec_run(m: Machine, dts: Seq<u64>) -> Machine
    decreases dts.len(),
{
    if dts.len() == 0 {
        m
    } else {
        spec_run(spec_step(m, dts[0] as int), dts.drop_first())
    }
}

pub proof fn lemma_sum_ms_nonneg(dts: Seq<u64>)
    ensures
        sum_ms(dts) >= 0,
    decreases dts.len(),
{
    if dts.len() > 0 {
        lemma_sum_ms_nonneg(dts.drop_first());
    }
}

/// A transition in progress completes only when the accumulated blend time
/// reaches its configured duration, never earlier: over any ticks whose total
/// stays under the time remaining, the active state does not change, the same
/// transition stays in progress, and its blend time grows by exactly the
/// total — so the destination state (and hence a state reached through it,
/// such as a walk state blending back to idle) becomes active only after the
/// full blend duration has elapsed.
pub proof fn lemma_no_early_arrival(m: Machine, dts: Seq<u64>)
    requires
        wf_machine(m),
        m.active_transition is Some,
        sum_ms(dts) < m.transitions@[m.active_transition->Some_0.index as int].duration_ms
            - m.active_transition->Some_0.elapsed_ms,
    ensures
        wf_machine(spec_run(m, dts)),
        spec_run(m, dts).active_state == m.active_state,
        spec_run(m, dts).active_transition matches Some(at2)
            && at2.index == m.active_transition->Some_0.index
            && at2.elapsed_ms == m.active_transition->Some_0.elapsed_ms + sum_ms(dts),
    decreases dts.len(),
{
    let at = m.active_transition->Some_0;
    if dts.len() == 0 {
    } else {
        lemma_sum_ms_nonneg(dts.drop_first());
        let m1 = spec_step(m, dts[0] as int);
        assert(at.elapsed_ms + dts[0] < m.transitions@[at.index as int].duration_ms);
        lemma_no_early_arrival(m1, dts.drop_first());
    }
}

} // verus!
