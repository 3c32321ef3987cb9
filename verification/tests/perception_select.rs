use bot_core::math::Vec3;
use bot_core::perception::select_target;
use bot_core::perception::CandidateInfo;
use bot_core::physics::RayHit;

fn at(x: i64, y: i64, z: i64) -> Vec3 {
    Vec3 { x, y, z }
}

fn hit(collider: u64, body: u64, trimesh: bool) -> RayHit {
    RayHit {
        collider,
        body,
        trimesh,
        position: at(0, 0, 0),
        normal: at(0, 1000, 0),
    }
}

fn candidate(handle: u64, position: Vec3, in_frustum: bool, hits: Vec<RayHit>) -> CandidateInfo {
    CandidateInfo { handle, position, in_frustum, hits }
}

const SELF_HANDLE: u64 = 100;
const SELF_BODY: u64 = 200;

#[test]
fn nearest_unoccluded_in_frustum_candidate_wins() {
    let cands = vec![
        candidate(1, at(5000, 0, 0), true, vec![]),
        candidate(2, at(2000, 0, 0), true, vec![]),
        candidate(3, at(9000, 0, 0), true, vec![]),
    ];
    let t = select_target(SELF_HANDLE, SELF_BODY, at(0, 0, 0), &cands).unwrap();
    assert_eq!(t.handle, 2);
    assert_eq!(t.position, at(2000, 0, 0));
}

#[test]
fn an_occluded_candidate_is_never_selected_even_if_nearest() {
    // The nearest candidate's occlusion ray first hits a solid triangle
    // mesh: it is rejected outright and the farther one wins.
    let cands = vec![
        candidate(1, at(1000, 0, 0), true, vec![hit(7, 7, true)]),
        candidate(2, at(8000, 0, 0), true, vec![]),
    ];
    let t = select_target(SELF_HANDLE, SELF_BODY, at(0, 0, 0), &cands).unwrap();
    assert_eq!(t.handle, 2);
}

#[test]
fn hits_on_the_bots_own_body_do_not_occlude() {
    // The first hit is the bot's own capsule; the next is another actor's
    // collider, not a triangle mesh, so the candidate stays visible.
    let cands = vec![
        candidate(1, at(3000, 0, 0), true, vec![hit(9, SELF_BODY, false), hit(8, 8, false)]),
    ];
    let t = select_target(SELF_HANDLE, SELF_BODY, at(0, 0, 0), &cands).unwrap();
    assert_eq!(t.handle, 1);
}

#[test]
fn a_trimesh_behind_the_own_body_still_occludes() {
    let cands = vec![
        candidate(1, at(3000, 0, 0), true, vec![hit(9, SELF_BODY, false), hit(8, 8, true)]),
    ];
    assert!(select_target(SELF_HANDLE, SELF_BODY, at(0, 0, 0), &cands).is_none());
}

#[test]
fn the_bot_itself_and_out_of_frustum_actors_are_ineligible() {
    let cands = vec![
        candidate(SELF_HANDLE, at(1000, 0, 0), true, vec![]),
        candidate(2, at(2000, 0, 0), false, vec![]),
    ];
    assert!(select_target(SELF_HANDLE, SELF_BODY, at(0, 0, 0), &cands).is_none());
}

#[test]
fn selection_is_deterministic_for_a_fixed_snapshot() {
    let make = || {
        vec![
            candidate(1, at(4000, 0, 0), true, vec![]),
            candidate(2, at(4000, 0, 0), true, vec![]),
            candidate(3, at(1500, 0, 0), true, vec![hit(7, 7, true)]),
        ]
    };
    let a = select_target(SELF_HANDLE, SELF_BODY, at(0, 0, 0), &make());
    for _ in 0..10 {
        let b = select_target(SELF_HANDLE, SELF_BODY, at(0, 0, 0), &make());
        assert_eq!(a, b);
    }
    // Among equally near candidates the earliest in the snapshot wins.
    assert_eq!(a.unwrap().handle, 1);
}

#[test]
fn no_candidates_means_no_target() {
    assert!(select_target(SELF_HANDLE, SELF_BODY, at(0, 0, 0), &vec![]).is_none());
}
