//! Target acquisition by line of sight.
//!
//! Each tick the bot rebuilds its target from scratch — no stickiness or
//! hysteresis — from a snapshot of candidate actors. A candidate is eligible
//! when it is not the bot itself and stands inside the bot's view frustum;
//! an occlusion ray from the candidate to the bot then rejects it outright if
//! the first hit past the bot's own body is a solid triangle mesh. The
//! nearest unoccluded eligible candidate, by squared distance, becomes the
//! target; among equally near candidates the earliest in the snapshot wins.

use vstd::prelude::*;
use crate::math::Vec3;
use crate::math::in_world;
use crate::math::spec_sqr_dist;
use crate::math::sqr_dist;
use crate::physics::RayHit;

verus! {

/// A snapshot of one candidate actor: its id, where it stands, whether the
/// bot's view frustum contains that position, and the hits of the occlusion
/// ray cast from the candidate to the bot, ordered by distance.
pub struct CandidateInfo {
    pub handle: u64,
    pub position: Vec3,
    pub in_frustum: bool,
    pub hits: Vec<RayHit>,
}

/// A remembered target: the perceived entity's id and where it stood at
/// acquisition time.
#[derive(Clone, Copy, Debug, PartialEq, Eq, Structural)]
pub struct Target {
    pub position: Vec3,
    pub handle: u64,
}

/// Candidate positions within the world bound.
pub open spec fn wf_candidates(cands: Seq<CandidateInfo>) -> bool {
    forall|i: int| 0 <= i < cands.len() ==> in_world(#[trigger] cands[i].position)
}

/// Whether the occlusion ray says the candidate is hidden: the first hit
/// that is not on the bot's own body is a solid triangle mesh.
pub open spec fn spec_occluded(hits: Seq<RayHit>, self_body: u64) -> bool
    decreases hits.len(),
{
    if hits.len() == 0 {
        false
    } else if hits[0].body == self_body {
        spec_occluded(hits.drop_first(), self_body)
    } else {
        hits[0].trimesh
    }
}

/// An eligible candidate: another actor, inside the view frustum, not
/// occluded.
pub open spec fn spec_eligible(c: CandidateInfo, self_handle: u64, self_body: u64) -> bool {
    &&& c.handle != self_handle
    &&& c.in_frustum
    &&& !spec_occluded(c.hits@, self_body)
}

/// The index of the chosen candidate among the first `n`: scanning in
/// snapshot order, an eligible candidate replaces the current choice exactly
/// when it is strictly nearer.
pub open spec fn spec_select_upto(
    cands: Seq<CandidateInfo>,
    self_handle: u64,
    self_body: u64,
    self_position: Vec3,
    n: int,
) -> Option<int>
    decreases n,
{
    if n <= 0 || n > cands.len() {
        None
    } else {
        let prev = spec_select_upto(cands, self_handle, self_body, self_position, n - 1);
        let c = cands[n - 1];
        if spec_eligible(c, self_handle, self_body) && (match prev {
            None => true,
            Some(j) => spec_sqr_dist(c.position, self_position) < spec_sqr_dist(
                cands[j].position,
                self_position,
            ),
        }) {
            Some(n - 1)
        } else {
            prev
        }
    }
}

/// The index of the chosen candidate, if any is eligible.
pub open spec fn spec_select(
    cands: Seq<CandidateInfo>,
    self_handle: u64,
    self_body: u64,
    self_position: Vec3,
) -> Option<int> {
    spec_select_upto(cands, self_handle, self_body, self_position, cands.len() as int)
}

/// Walks the occlusion ray's hits in distance order past the bot's own body.
fn occluded(hits: &Vec<RayHit>, self_body: u64) -> (r: bool)
    ensures
        r == spec_occluded(hits@, self_body),
{
    proof {
        assert(hits@.skip(0) =~= hits@);
    }
    let mut i: usize = 0;
    while i < hits.len()
        invariant
            i <= hits@.len(),
            spec_occluded(hits@, self_body) == spec_occluded(hits@.skip(i as int), self_body),
        decreases hits@.len() - i,
    {
        proof {
            assert(hits@.skip(i as int).drop_first() =~= hits@.skip(i + 1));
            assert(hits@.skip(i as int)[0] == hits@[i as int]);
        }
        if hits[i].body != self_body {
            return hits[i].trimesh;
        }
        i = i + 1;
    }
    proof {
        assert(hits@.skip(hits@.len() as int) =~= Seq::<RayHit>::empty());
    }
    false
}

/// Chooses the new target from the candidate snapshot: the nearest
/// unoccluded candidate inside the view frustum, fully replacing any
/// previous target. `None` when no candidate is eligible.
pub fn select_target(
    self_handle: u64,
    self_body: u64,
    self_position: Vec3,
    candidates: &Vec<CandidateInfo>,
) -> (t: Option<Target>)
    requires
        in_world(self_position),
        wf_candidates(candidates@),
    ensures
        match spec_select(candidates@, self_handle, self_body, self_position) {
            None => t is None,
            Some(j) => t == Some(
                Target { position: candidates@[j].position, handle: candidates@[j].handle },
            ),
        },
{
    let ghost cs = candidates@;
    let mut best: Option<usize> = None;
    let mut best_dist: i64 = 0;
    let mut i: usize = 0;
    while i < candidates.len()
        invariant
            in_world(self_position),
            wf_candidates(cs),
            cs == candidates@,
            i <= cs.len(),
            match spec_select_upto(cs, self_handle, self_body, self_position, i as int) {
                None => best is None,
                Some(j) => best == Some(j as usize) && best_dist == spec_sqr_dist(
                    cs[j].position,
                    self_position,
                ),
            },
        decreases cs.len() - i,
    {
        let c = &candidates[i];
        if c.handle != self_handle && c.in_frustum && !occluded(&c.hits, self_body) {
            let d = sqr_dist(c.position, self_position);
            let better = match best {
                None => true,
                Some(_) => d < best_dist,
            };
            if better {
                best = Some(i);
                best_dist = d;
            }
        }
        i = i + 1;
    }
    proof {
        lemma_select_upto_sound(cs, self_handle, self_body, self_position, cs.len() as int);
    }
    match best {
        None => None,
        Some(j) => {
            let c = &candidates[j];
            Some(Target { position: c.position, handle: c.handle })
        },
    }
}

/// Target selection is deterministic: it is a function of the candidate
/// snapshot and the physics answers alone, so repeated selection over
/// unchanged inputs chooses the same target.
pub proof fn lemma_select_deterministic(
    cands1: Seq<CandidateInfo>,
    cands2: Seq<CandidateInfo>,
    self_handle: u64,
    self_body: u64,
    self_position: Vec3,
)
    requires
        cands1 == cands2,
    ensures
        spec_select(cands1, self_handle, self_body, self_position) == spec_select(
            cands2,
            self_handle,
            self_body,
            self_position,
        ),
{
}

/// What the choice satisfies: a chosen candidate is eligible — in
/// particular, never occluded, even if it is the nearest — and no eligible
/// candidate among those considered is strictly nearer.
pub proof fn lemma_select_upto_sound(
    cands: Seq<CandidateInfo>,
    self_handle: u64,
    self_body: u64,
    self_position: Vec3,
    n: int,
)
    requires
        n <= cands.len(),
    ensures
        spec_select_upto(cands, self_handle, self_body, self_position, n) is None ==> forall|k: int|
            0 <= k < n ==> !spec_eligible(#[trigger] cands[k], self_handle, self_body),
        spec_select_upto(cands, self_handle, self_body, self_position, n) matches Some(j) ==> {
            &&& 0 <= j < n
            &&& spec_eligible(cands[j], self_handle, self_body)
            &&& forall|k: int| 0 <= k < n && spec_eligible(#[trigger] cands[k], self_handle, self_body)
                ==> spec_sqr_dist(cands[j].position, self_position) <= spec_sqr_dist(
                    cands[k].position,
                    self_position,
                )
        },
    decreases n,
{
    if n > 0 {
        lemma_select_upto_sound(cands, self_handle, self_body, self_position, n - 1);
    }
}

/// An occluded candidate is never selected as target, even when it is the
/// nearest candidate: the chosen index always points at an unoccluded,
/// in-frustum candidate other than the bot itself.
pub proof fn lemma_occluded_never_selected(
    cands: Seq<CandidateInfo>,
    self_handle: u64,
    self_body: u64,
    self_position: Vec3,
    i: int,
)
    requires
        0 <= i < cands.len(),
        spec_occluded(cands[i].hits@, self_body),
    ensures
        spec_select(cands, self_handle, self_body, self_position) != Some(i),
{
    lemma_select_upto_sound(cands, self_handle, self_body, self_position, cands.len() as int);
}

} // verus!
