//! Playable animation clips with timeline signals.
//!
//! An [`Animation`] models one clip instanced on a bot's skeleton: a playback
//! position on a timeline of known length, enable/loop/speed attributes, and a
//! sorted list of timestamp-triggered signals. When the position crosses a
//! signal's timestamp the signal's id is appended to the clip's event queue,
//! which game logic drains once per tick.
//!
//! Clips live in an [`AnimationContainer`] and are referred to by index, the
//! arena-of-indices pattern: the state machines hold indices, never ownership.

use vstd::prelude::*;

verus! {

/// Longest clip timeline the core accepts, in milliseconds.
pub const ANIM_LEN_LIMIT: u64 = 10_000_000;

/// Largest playback-speed multiplier, in thousandths (10x).
pub const SPEED_LIMIT: u64 = 10_000;

/// Largest tick the core accepts, in milliseconds.
pub const DT_LIMIT: u64 = 60_000;

/// A named event on a clip's timeline, fired when playback crosses its time.
#[derive(Clone, Copy, Debug, PartialEq, Eq, Structural)]
pub struct AnimationSignal {
    pub time_ms: u64,
    pub id: u64,
}

/// One animation clip: timeline state, playback attributes, signals and the
/// queue of signal ids fired but not yet drained.
pub struct Animation {
    pub enabled: bool,
    pub looped: bool,
    /// Playback speed in thousandths; 1000 plays at natural speed.
    pub speed_milli: u64,
    pub length_ms: u64,
    pub pos_ms: u64,
    pub signals: Vec<AnimationSignal>,
    pub events: Vec<u64>,
    /// Whether the clip drives the skeleton's leg tracks; combat-layer clips
    /// clear this so they do not fight the locomotion layer.
    pub leg_tracks: bool,
}

/// Signals sorted by time, each strictly inside the timeline.
pub open spec fn wf_signals(sigs: Seq<AnimationSignal>, length: int) -> bool {
    &&& forall|i: int| 0 <= i < sigs.len() ==> 0 < #[trigger] sigs[i].time_ms <= length
    &&& forall|i: int, j: int|
        0 <= i <= j < sigs.len() ==> #[trigger] sigs[i].time_ms <= #[trigger] sigs[j].time_ms
}

/// Well-formed clip: a bounded timeline, the position on it, a bounded speed,
/// and ordered signals.
pub open spec fn wf_animation(a: Animation) -> bool {
    &&& 0 < a.length_ms <= ANIM_LEN_LIMIT
    &&& a.pos_ms <= a.length_ms
    &&& a.speed_milli <= SPEED_LIMIT
    &&& wf_signals(a.signals@, a.length_ms as int)
}

/// How far the timeline moves in a tick, in milliseconds: the tick scaled by
/// playback speed, capped at one full cycle.
pub open spec fn spec_delta(a: Animation, dt: int) -> int {
    let d = dt * a.speed_milli / 1000;
    if d <= a.length_ms {
        d
    } else {
        a.length_ms as int
    }
}

/// The playback position after a tick: clamped at the end for one-shot clips,
/// wrapped past the end for looping ones.
pub open spec fn spec_new_pos(a: Animation, dt: int) -> int {
    let raw = a.pos_ms + spec_delta(a, dt);
    if !a.looped {
        if raw <= a.length_ms {
            raw
        } else {
            a.length_ms as int
        }
    } else {
        if raw >= a.length_ms {
            raw - a.length_ms
        } else {
            raw
        }
    }
}

/// Ids of the signals with a timestamp in `(lo, hi]`, in timeline order.
pub open spec fn fired_in(sigs: Seq<AnimationSignal>, lo: int, hi: int) -> Seq<u64>
    decreases sigs.len(),
{
    if sigs.len() == 0 {
        Seq::empty()
    } else {
        fired_in(sigs.drop_last(), lo, hi)
            + if lo < sigs.last().time_ms <= hi {
                seq![sigs.last().id]
            } else {
                Seq::empty()
            }
    }
}

/// The signal ids a tick fires, in order. A looping clip that wraps fires the
/// tail of the timeline and then the head.
pub open spec fn spec_fired(a: Animation, dt: int) -> Seq<u64> {
    let raw = a.pos_ms + spec_delta(a, dt);
    if !a.looped {
        if raw <= a.length_ms {
            fired_in(a.signals@, a.pos_ms as int, raw)
        } else {
            fired_in(a.signals@, a.pos_ms as int, a.length_ms as int)
        }
    } else {
        if raw >= a.length_ms {
            fired_in(a.signals@, a.pos_ms as int, a.length_ms as int)
                + fired_in(a.signals@, 0, raw - a.length_ms)
        } else {
            fired_in(a.signals@, a.pos_ms as int, raw)
        }
    }
}

/// Appends to `out` the ids of the signals in `sigs` with time in `(lo, hi]`.
fn collect_fired(sigs: &Vec<AnimationSignal>, lo: u64, hi: u64, out: &mut Vec<u64>)
    ensures
        final(out)@ == old(out)@ + fired_in(sigs@, lo as int, hi as int),
{
    let ghost base = out@;
    let mut i: usize = 0;
    while i < sigs.len()
        invariant
            i <= sigs.len(),
            out@ == base + fired_in(sigs@.take(i as int), lo as int, hi as int),
        decreases sigs.len() - i,
    {
        let s = sigs[i];
        proof {
            assert(sigs@.take(i + 1).drop_last() =~= sigs@.take(i as int));
            assert(sigs@.take(i + 1).last() == sigs@[i as int]);
        }
        if lo < s.time_ms && s.time_ms <= hi {
            out.push(s.id);
        }
        i = i + 1;
    }
    proof {
        assert(sigs@.take(sigs@.len() as int) =~= sigs@);
    }
}

impl Animation {
    /// A fresh clip: enabled, at natural speed, at the start of its timeline,
    /// with no signals and an empty event queue.
    pub fn new(length_ms: u64, looped: bool) -> (a: Animation)
        requires
            0 < length_ms <= ANIM_LEN_LIMIT,
        ensures
            wf_animation(a),
            a.enabled && a.looped == looped && a.speed_milli == 1000,
            a.length_ms == length_ms && a.pos_ms == 0,
            a.signals@ == Seq::<AnimationSignal>::empty(),
            a.events@ == Seq::<u64>::empty(),
            a.leg_tracks,
    {
        Animation {
            enabled: true,
            looped,
            speed_milli: 1000,
            length_ms,
            pos_ms: 0,
            signals: Vec::new(),
            events: Vec::new(),
            leg_tracks: true,
        }
    }

    /// Appends a signal to the timeline; signals are added in time order.
    pub fn add_signal(&mut self, time_ms: u64, id: u64)
        requires
            wf_animation(*old(self)),
            0 < time_ms <= old(self).length_ms,
            old(self).signals@.len() > 0 ==> old(self).signals@.last().time_ms <= time_ms,
        ensures
            wf_animation(*final(self)),
            final(self).signals@ == old(self).signals@.push(
                AnimationSignal { time_ms, id },
            ),
            *final(self) == (Animation { signals: final(self).signals, ..*old(self) }),
    {
        self.signals.push(AnimationSignal { time_ms, id });
    }

    /// Restarts the clip from the beginning of its timeline.
    pub fn rewind(&mut self)
        ensures
            *final(self) == (Animation { pos_ms: 0, ..*old(self) }),
    {
        self.pos_ms = 0;
    }

    /// A one-shot clip has ended once playback reached the end of its
    /// timeline; a looping clip never ends.
    pub fn has_ended(&self) -> (r: bool)
        ensures
            r == (!self.looped && self.pos_ms >= self.length_ms),
    {
        !self.looped && self.pos_ms >= self.length_ms
    }

    pub fn set_enabled(&mut self, enabled: bool)
        ensures
            *final(self) == (Animation { enabled, ..*old(self) }),
    {
        self.enabled = enabled;
    }

    pub fn set_loop(&mut self, looped: bool)
        ensures
            *final(self) == (Animation { looped, ..*old(self) }),
    {
        self.looped = looped;
    }

    pub fn set_speed(&mut self, speed_milli: u64)
        requires
            speed_milli <= SPEED_LIMIT,
        ensures
            *final(self) == (Animation { speed_milli, ..*old(self) }),
    {
        self.speed_milli = speed_milli;
    }

    /// Marks the clip as not driving the skeleton's leg tracks.
    pub fn disable_leg_tracks(&mut self)
        ensures
            *final(self) == (Animation { leg_tracks: false, ..*old(self) }),
    {
        self.leg_tracks = false;
    }

    /// Advances playback by one tick. A disabled clip does not move and fires
    /// nothing; an enabled clip moves to [`spec_new_pos`] and appends the
    /// signals of [`spec_fired`] to its event queue.
    pub fn advance(&mut self, dt_ms: u64)
        requires
            wf_animation(*old(self)),
            dt_ms <= DT_LIMIT,
        ensures
            wf_animation(*final(self)),
            !old(self).enabled ==> *final(self) == *old(self),
            old(self).enabled ==> {
                &&& final(self).pos_ms == spec_new_pos(*old(self), dt_ms as int)
                &&& final(self).events@ == old(self).events@ + spec_fired(*old(self), dt_ms as int)
                &&& *final(self) == (Animation {
                    pos_ms: final(self).pos_ms,
                    events: final(self).events,
                    ..*old(self)
                })
            },
    {
        if !self.enabled {
            return;
        }
        proof {
            assert(dt_ms * self.speed_milli <= DT_LIMIT * SPEED_LIMIT) by (nonlinear_arith)
                requires
                    dt_ms <= DT_LIMIT,
                    self.speed_milli <= SPEED_LIMIT;
        }
        let mut d: u64 = dt_ms * self.speed_milli / 1000;
        if d > self.length_ms {
            d = self.length_ms;
        }
        let raw = self.pos_ms + d;
        if !self.looped {
            let hi = if raw <= self.length_ms {
                raw
            } else {
                self.length_ms
            };
            let lo = self.pos_ms;
            collect_fired(&self.signals, lo, hi, &mut self.events);
            self.pos_ms = hi;
        } else {
            if raw >= self.length_ms {
                let lo = self.pos_ms;
                let end = self.length_ms;
                let wrapped = raw - self.length_ms;
                collect_fired(&self.signals, lo, end, &mut self.events);
                collect_fired(&self.signals, 0, wrapped, &mut self.events);
                self.pos_ms = wrapped;
            } else {
                let lo = self.pos_ms;
                collect_fired(&self.signals, lo, raw, &mut self.events);
                self.pos_ms = raw;
            }
        }
    }

    /// Removes and returns the oldest undrained event, if any.
    pub fn pop_event(&mut self) -> (r: Option<u64>)
        ensures
            old(self).events@.len() == 0 ==> r is None && *final(self) == *old(self),
            old(self).events@.len() > 0 ==> {
                &&& r == Some(old(self).events@[0])
                &&& final(self).events@ == old(self).events@.drop_first()
                &&& *final(self) == (Animation { events: final(self).events, ..*old(self) })
            },
    {
        if self.events.len() == 0 {
            None
        } else {
            let id = self.events.remove(0);
            proof {
                assert(self.events@ =~= old(self).events@.drop_first());
            }
            Some(id)
        }
    }
}

/// An arena of animation clips addressed by index. A freed slot stays `None`,
/// so indices handed out earlier never move.
pub struct AnimationContainer {
    pub items: Vec<Option<Animation>>,
}

/// The clip at a live slot.
pub open spec fn spec_anim(c: AnimationContainer, h: int) -> Animation {
    c.items@[h]->Some_0
}

/// A slot that exists and still holds a clip.
pub open spec fn live(c: AnimationContainer, h: int) -> bool {
    0 <= h < c.items@.len() && c.items@[h] is Some
}

/// Every live clip is well-formed.
pub open spec fn wf_container(c: AnimationContainer) -> bool {
    forall|h: int| live(c, h) ==> wf_animation(#[trigger] spec_anim(c, h))
}

impl AnimationContainer {
    pub fn new() -> (c: AnimationContainer)
        ensures
            c.items@.len() == 0,
            wf_container(c),
    {
        AnimationContainer { items: Vec::new() }
    }

    /// Stores a clip and returns its index.
    pub fn add(&mut self, a: Animation) -> (h: usize)
        requires
            wf_animation(a),
            wf_container(*old(self)),
        ensures
            wf_container(*final(self)),
            h == old(self).items@.len(),
            final(self).items@ == old(self).items@.push(Some(a)),
            live(*final(self), h as int),
            spec_anim(*final(self), h as int) == a,
    {
        let h = self.items.len();
        self.items.push(Some(a));
        proof {
            assert forall|j: int| live(*self, j) implies wf_animation(
                #[trigger] spec_anim(*self, j),
            ) by {
                if j < old(self).items@.len() {
                    assert(self.items@[j] == old(self).items@[j]);
                    assert(wf_animation(spec_anim(*old(self), j)));
                }
            }
        }
        h
    }

    pub fn len(&self) -> (n: usize)
        ensures
            n == self.items@.len(),
    {
        self.items.len()
    }

    pub fn is_live(&self, h: usize) -> (r: bool)
        ensures
            r == live(*self, h as int),
    {
        h < self.items.len() && self.items[h].is_some()
    }

    /// Frees a slot; the clip at it is dropped and the index goes dead.
    pub fn remove(&mut self, h: usize)
        requires
            h < old(self).items@.len(),
        ensures
            final(self).items@ == old(self).items@.update(h as int, None::<Animation>),
    {
        self.items.set(h, None);
    }

    /// Read access to the clip at a live slot.
    pub fn get(&self, h: usize) -> (a: &Animation)
        requires
            live(*self, h as int),
        ensures
            *a == spec_anim(*self, h as int),
    {
        self.items[h].as_ref().unwrap()
    }

    /// Takes the clip out for in-place mutation, leaving the slot empty until
    /// the caller stores the clip back.
    fn take(&mut self, h: usize) -> (a: Animation)
        requires
            live(*old(self), h as int),
        ensures
            a == spec_anim(*old(self), h as int),
            final(self).items@ == old(self).items@.update(h as int, None::<Animation>),
    {
        let mut slot: Option<Animation> = None;
        self.items.set_and_swap(h, &mut slot);
        match slot {
            Some(a) => a,
            None => vstd::pervasive::unreached(),
        }
    }

    /// Restarts the clip at a live slot from time zero.
    pub fn rewind(&mut self, h: usize)
        requires
            live(*old(self), h as int),
            wf_container(*old(self)),
        ensures
            wf_container(*final(self)),
            final(self).items@ == old(self).items@.update(
                h as int,
                Some(Animation { pos_ms: 0, ..spec_anim(*old(self), h as int) }),
            ),
    {
        let mut a = self.take(h);
        a.rewind();
        self.items.set(h, Some(a));
        proof {
            assert forall|j: int| live(*self, j) implies wf_animation(
                #[trigger] spec_anim(*self, j),
            ) by {
                if j != h {
                    assert(self.items@[j] == old(self).items@[j]);
                }
                assert(wf_animation(spec_anim(*old(self), j)));
            }
        }
    }

    pub fn set_enabled(&mut self, h: usize, enabled: bool)
        requires
            live(*old(self), h as int),
            wf_container(*old(self)),
        ensures
            wf_container(*final(self)),
            final(self).items@ == old(self).items@.update(
                h as int,
                Some(Animation { enabled, ..spec_anim(*old(self), h as int) }),
            ),
    {
        let mut a = self.take(h);
        a.set_enabled(enabled);
        self.items.set(h, Some(a));
        proof {
            assert forall|j: int| live(*self, j) implies wf_animation(
                #[trigger] spec_anim(*self, j),
            ) by {
                if j != h {
                    assert(self.items@[j] == old(self).items@[j]);
                }
                assert(wf_animation(spec_anim(*old(self), j)));
            }
        }
    }

    /// Whether the one-shot clip at a live slot has reached its end.
    pub fn has_ended(&self, h: usize) -> (r: bool)
        requires
            live(*self, h as int),
        ensures
            r == {
                let a = spec_anim(*self, h as int);
                !a.looped && a.pos_ms >= a.length_ms
            },
    {
        self.get(h).has_ended()
    }

    /// Removes and returns the oldest undrained event of the clip at a live
    /// slot.
    pub fn pop_event(&mut self, h: usize) -> (r: Option<u64>)
        requires
            live(*old(self), h as int),
        ensures
            ({
                let a = spec_anim(*old(self), h as int);
                &&& a.events@.len() == 0 ==> r is None && *final(self) == *old(self)
                &&& a.events@.len() > 0 ==> {
                    &&& r == Some(a.events@[0])
                    &&& final(self).items@ == old(self).items@.update(
                        h as int,
                        Some(Animation {
                            events: spec_anim(*final(self), h as int).events,
                            ..a
                        }),
                    )
                    &&& spec_anim(*final(self), h as int).events@ == a.events@.drop_first()
                }
            }),
    {
        if self.get(h).events.len() == 0 {
            return None;
        }
        let mut a = self.take(h);
        let r = a.pop_event();
        self.items.set(h, Some(a));
        r
    }

    /// Removes and returns the whole undrained event queue of the clip at a
    /// live slot, oldest first.
    pub fn drain_events(&mut self, h: usize) -> (evs: Vec<u64>)
        requires
            live(*old(self), h as int),
            wf_container(*old(self)),
        ensures
            wf_container(*final(self)),
            evs@ == spec_anim(*old(self), h as int).events@,
            final(self).items@ == old(self).items@.update(
                h as int,
                Some(
                    Animation {
                        events: spec_anim(*final(self), h as int).events,
                        ..spec_anim(*old(self), h as int)
                    },
                ),
            ),
            spec_anim(*final(self), h as int).events@.len() == 0,
    {
        let mut a = self.take(h);
        let evs = a.events;
        a.events = Vec::new();
        self.items.set(h, Some(a));
        proof {
            assert forall|j: int| live(*self, j) implies wf_animation(
                #[trigger] spec_anim(*self, j),
            ) by {
                if j != h {
                    assert(self.items@[j] == old(self).items@[j]);
                }
                assert(wf_animation(spec_anim(*old(self), j)));
            }
        }
        evs
    }

    /// Advances every enabled live clip by one tick; see
    /// [`Animation::advance`].
    pub fn update(&mut self, dt_ms: u64)
        requires
            wf_container(*old(self)),
            dt_ms <= DT_LIMIT,
        ensures
            wf_container(*final(self)),
            final(self).items@.len() == old(self).items@.len(),
            forall|h: int| 0 <= h < final(self).items@.len() ==> {
                &&& (old(self).items@[h] is None ==> final(self).items@[h] is None)
                &&& (old(self).items@[h] matches Some(a) ==> {
                    &&& final(self).items@[h] is Some
                    &&& !a.enabled ==> final(self).items@[h] == Some(a)
                    &&& a.enabled ==> (final(self).items@[h] matches Some(b)
                        && b.pos_ms == spec_new_pos(a, dt_ms as int)
                        && b.events@ == a.events@ + spec_fired(a, dt_ms as int)
                        && b == (Animation { pos_ms: b.pos_ms, events: b.events, ..a }))
                })
            },
    {
        let mut i: usize = 0;
        while i < self.items.len()
            invariant
                wf_container(*self),
                dt_ms <= DT_LIMIT,
                i <= self.items@.len(),
                self.items@.len() == old(self).items@.len(),
                forall|h: int| i <= h < self.items@.len()
                    ==> self.items@[h] == old(self).items@[h],
                forall|h: int| 0 <= h < i ==> {
                    &&& (old(self).items@[h] is None ==> self.items@[h] is None)
                    &&& (old(self).items@[h] matches Some(a) ==> {
                        &&& self.items@[h] is Some
                        &&& !a.enabled ==> self.items@[h] == Some(a)
                        &&& a.enabled ==> (self.items@[h] matches Some(b)
                            && b.pos_ms == spec_new_pos(a, dt_ms as int)
                            && b.events@ == a.events@ + spec_fired(a, dt_ms as int)
                            && b == (Animation { pos_ms: b.pos_ms, events: b.events, ..a }))
                    })
                },
            decreases self.items@.len() - i,
        {
            let ghost pre = *self;
            if self.items[i].is_some() {
                let mut a = self.take(i);
                a.advance(dt_ms);
                self.items.set(i, Some(a));
            }
            proof {
                assert forall|j: int| live(*self, j) implies wf_animation(
                    #[trigger] spec_anim(*self, j),
                ) by {
                    if j != i {
                        assert(self.items@[j] == pre.items@[j]);
                        assert(wf_animation(spec_anim(pre, j)));
                    }
                }
            }
            i = i + 1;
        }
    }
}

} // verus!
