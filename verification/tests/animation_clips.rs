use bot_core::animation::Animation;
use bot_core::animation::AnimationContainer;

#[test]
fn signals_fire_when_playback_crosses_them() {
    let mut a = Animation::new(1000, true);
    a.add_signal(400, 7);
    a.add_signal(800, 7);
    a.advance(500);
    assert_eq!(a.pos_ms, 500);
    assert_eq!(a.events, vec![7]);
    a.advance(400);
    assert_eq!(a.pos_ms, 900);
    assert_eq!(a.events, vec![7, 7]);
}

#[test]
fn a_looping_clip_wraps_and_fires_the_tail_then_the_head() {
    let mut a = Animation::new(1000, true);
    a.add_signal(950, 1);
    a.advance(900);
    assert!(a.events.is_empty());
    // 900 + 200 wraps past the end: the tail signal at 950 fires.
    a.advance(200);
    assert_eq!(a.pos_ms, 100);
    assert_eq!(a.events, vec![1]);
}

#[test]
fn a_one_shot_clip_clamps_and_ends() {
    let mut a = Animation::new(500, false);
    assert!(!a.has_ended());
    a.advance(700);
    assert_eq!(a.pos_ms, 500);
    assert!(a.has_ended());
    a.rewind();
    assert_eq!(a.pos_ms, 0);
    assert!(!a.has_ended());
}

#[test]
fn playback_speed_scales_the_timeline() {
    let mut a = Animation::new(1000, false);
    a.set_speed(2000);
    a.advance(200);
    assert_eq!(a.pos_ms, 400);
}

#[test]
fn a_disabled_clip_does_not_move_or_fire() {
    let mut a = Animation::new(1000, true);
    a.add_signal(100, 1);
    a.set_enabled(false);
    a.advance(500);
    assert_eq!(a.pos_ms, 0);
    assert!(a.events.is_empty());
}

#[test]
fn pop_event_drains_oldest_first() {
    let mut a = Animation::new(1000, true);
    a.add_signal(100, 1);
    a.add_signal(200, 2);
    a.advance(300);
    assert_eq!(a.pop_event(), Some(1));
    assert_eq!(a.pop_event(), Some(2));
    assert_eq!(a.pop_event(), None);
}

#[test]
fn container_updates_only_enabled_clips() {
    let mut c = AnimationContainer::new();
    let on = c.add(Animation::new(1000, true));
    let mut off_clip = Animation::new(1000, true);
    off_clip.set_enabled(false);
    let off = c.add(off_clip);
    c.update(250);
    assert_eq!(c.get(on).pos_ms, 250);
    assert_eq!(c.get(off).pos_ms, 0);
}

#[test]
fn container_slots_stay_stable_after_removal() {
    let mut c = AnimationContainer::new();
    let first = c.add(Animation::new(1000, true));
    let second = c.add(Animation::new(2000, true));
    c.remove(first);
    assert!(!c.is_live(first));
    assert!(c.is_live(second));
    assert_eq!(c.get(second).length_ms, 2000);
}
