//! Resolving an integrated fighter position against the stage.
//!
//! The stage's polygons are held and searched elsewhere; what reaches this
//! module is what that search found: the floor segments a grounded fighter
//! may stand on, and the points where an airborne fighter's path crossed the
//! stage.

use crate::fighter::state::ground::{GroundedStateCommon, StageLineID};
use crate::fighter::state::land::LandingState;
use crate::fighter::state::{FighterState, FighterStateContext};
use crate::fighter::motion::FighterTranslation;
use crate::math::segment::FGSegment2d;
use crate::math::vec::{vec2_len_sq, vec2_sub, vec2_sub_fits, FGVec2};
use vstd::prelude::*;

verus! {

/// A line segment of a stage polygon, as collision reads it.
#[derive(Clone, Copy, PartialEq, Eq, Structural, Debug)]
pub struct StageLineSegment {
    pub segment: FGSegment2d,
    /// Whether fighters can stand on the segment.
    pub is_floor: bool,
    /// The segment's unit normal, pointing out of its polygon.
    pub normal: FGVec2,
}

/// A point where the path of a fighter's ECB bottom crossed a stage polygon.
#[derive(Clone, Copy, PartialEq, Eq, Structural, Debug)]
pub struct StageRayHit {
    pub line_id: StageLineID,
    pub position: FGVec2,
    pub normal: FGVec2,
}

/// What the stage answered for one fighter this frame.
#[derive(Clone, Debug)]
pub struct StageContacts {
    /// The segments a grounded fighter may stand on, in the order they are
    /// tried: the segment it stands on, then the one before it and the one
    /// after it in its polygon, each where it exists.
    pub floor_candidates: Vec<(usize, StageLineSegment)>,
    /// Where the path of the ECB bottom over the last frame crossed the
    /// stage, one hit per polygon that it crossed.
    pub ray_hits: Vec<StageRayHit>,
}

/// Where an airborne fighter meets the stage.
#[derive(Clone, Copy, PartialEq, Eq, Structural, Debug)]
pub struct AirCollisionWithStageResult {
    pub line_id: StageLineID,
    pub hit_position: FGVec2,
    pub hit_normal: FGVec2,
}

/// The path of the bottom of the ECB over the last frame. The bottom of the
/// ECB is the fighter's position.
pub open spec fn ecb_path(c: &FighterStateContext) -> FGSegment2d {
    FGSegment2d { point1: c.prev_translation.0, point2: c.translation.0 }
}

/// Bits (Q96.32) of the squared distance from a hit to the end of the path.
pub open spec fn hit_distance(h: StageRayHit, end: FGVec2) -> int {
    vec2_len_sq(vec2_sub(end, h.position))
}

/// The distance of every hit to `end` can be computed.
pub open spec fn hits_measurable(hits: Seq<StageRayHit>, end: FGVec2) -> bool {
    forall|i: int| 0 <= i < hits.len() ==> vec2_sub_fits(end, #[trigger] hits[i].position)
}

/// `k` is the hit that sorting the hits by distance, keeping equal ones in
/// order, puts last: the farthest, and of equally far hits the last one.
pub open spec fn is_last_farthest(hits: Seq<StageRayHit>, end: FGVec2, k: int) -> bool {
    &&& 0 <= k < hits.len()
    &&& forall|j: int| 0 <= j < hits.len() ==> hit_distance(#[trigger] hits[j], end) <= hit_distance(hits[k], end)
    &&& forall|j: int| k < j < hits.len() ==> hit_distance(#[trigger] hits[j], end) < hit_distance(hits[k], end)
}

/// The farthest hit, the last of equally far ones; `None` without hits.
pub open spec fn farthest_hit(hits: Seq<StageRayHit>, end: FGVec2) -> Option<StageRayHit> {
    if hits.len() == 0 {
        None
    } else {
        Some(hits[choose|k: int| is_last_farthest(hits, end, k)])
    }
}

pub open spec fn air_result(h: StageRayHit) -> AirCollisionWithStageResult {
    AirCollisionWithStageResult { line_id: h.line_id, hit_position: h.position, hit_normal: h.normal }
}

/// The landing a stage hit makes.
pub open spec fn landing_on(res: AirCollisionWithStageResult) -> FighterState {
    FighterState::Land(
        LandingState {
            grounded_common: GroundedStateCommon { current_line_id: res.line_id },
            duration_counter: 0,
        },
    )
}

/// Only one hit is the last farthest.
proof fn lemma_last_farthest_unique(hits: Seq<StageRayHit>, end: FGVec2, a: int, b: int)
    requires
        is_last_farthest(hits, end, a),
        is_last_farthest(hits, end, b),
    ensures
        a == b,
{
    if a < b {
        assert(hit_distance(hits[b], end) < hit_distance(hits[a], end));
        assert(hit_distance(hits[a], end) <= hit_distance(hits[b], end));
    } else if b < a {
        assert(hit_distance(hits[a], end) < hit_distance(hits[b], end));
        assert(hit_distance(hits[b], end) <= hit_distance(hits[a], end));
    }
}

/// The path of the ECB bottom over the last frame, which the stage is asked
/// to intersect.
pub fn air_collision_ray(ctx: &FighterStateContext) -> (r: FGSegment2d)
    ensures
        r == ecb_path(ctx),
{
    let from = ctx.prev_translation.0.add(ctx.prev_ecb.get_bottom_point());
    let to = ctx.translation.0.add(ctx.ecb.get_bottom_point());
    FGSegment2d::new(from, to)
}

/// Of the points where the fighter's path crossed the stage, the one that
/// it meets: the farthest from where the fighter is now, the last of equally
/// far ones.
pub fn air_collide_with_stage(ctx: &FighterStateContext, hits: &Vec<StageRayHit>) -> (r: Option<
    AirCollisionWithStageResult,
>)
    requires
        hits_measurable(hits@, ctx.translation.0),
    ensures
        r == (match farthest_hit(hits@, ctx.translation.0) {
            Some(h) => Some(air_result(h)),
            None => None,
        }),
{
    let end = ctx.translation.0.add(ctx.ecb.get_bottom_point());
    if hits.len() == 0 {
        return None;
    }
    let ghost hs = hits@;
    let mut best: usize = 0;
    let mut best_distance = hits[0].position.distance_squared(end);
    let mut i: usize = 1;
    while i < hits.len()
        invariant
            hs == hits@,
            1 <= i <= hits.len(),
            best < i,
            hits_measurable(hs, end),
            best_distance.bits == hit_distance(hs[best as int], end),
            is_last_farthest(hs.take(i as int), end, best as int),
        decreases hits.len() - i,
    {
        assert(vec2_sub_fits(end, hs[i as int].position));
        let d = hits[i].position.distance_squared(end);
        if d.bits >= best_distance.bits {
            best = i;
            best_distance = d;
            assert(is_last_farthest(hs.take(i + 1), end, i as int)) by {
                assert forall|j: int| 0 <= j < i + 1 implies hit_distance(
                    #[trigger] hs.take(i + 1)[j],
                    end,
                ) <= hit_distance(hs.take(i + 1)[i as int], end) by {
                    if j < i {
                        assert(hs.take(i as int)[j] == hs.take(i + 1)[j]);
                    }
                }
            }
        } else {
            assert(is_last_farthest(hs.take(i + 1), end, best as int)) by {
                assert forall|j: int| 0 <= j < i + 1 implies hit_distance(
                    #[trigger] hs.take(i + 1)[j],
                    end,
                ) <= hit_distance(hs.take(i + 1)[best as int], end) by {
                    if j < i {
                        assert(hs.take(i as int)[j] == hs.take(i + 1)[j]);
                    }
                }
                assert forall|j: int| best < j < i + 1 implies hit_distance(
                    #[trigger] hs.take(i + 1)[j],
                    end,
                ) < hit_distance(hs.take(i + 1)[best as int], end) by {
                    if j < i {
                        assert(hs.take(i as int)[j] == hs.take(i + 1)[j]);
                    }
                }
            }
        }
        i = i + 1;
    }
    proof {
        assert(hs.take(i as int) =~= hs);
        lemma_last_farthest_unique(hs, end, best as int, choose|k: int| is_last_farthest(hs, end, k));
    }
    let h = hits[best];
    Some(AirCollisionWithStageResult { line_id: h.line_id, hit_position: h.position, hit_normal: h.normal })
}

/// Lands an airborne fighter where it met the stage: the fighter is placed
/// at the hit, standing on the line it hit.
pub fn land_on_stage(ctx: &mut FighterStateContext, res: &AirCollisionWithStageResult) -> (r: FighterState)
    ensures
        r == landing_on(*res),
        *final(ctx) == (FighterStateContext { translation: FighterTranslation(res.hit_position), ..*old(ctx) }),
{
    ctx.translation.0 = res.hit_position.sub(ctx.ecb.get_bottom_point());
    let grounded_common = GroundedStateCommon { current_line_id: res.line_id };
    FighterState::Land(LandingState { grounded_common, duration_counter: 0 })
}

/// What the collision check of an airborne state asks for: a landing
/// where its path met the stage.
pub open spec fn air_landing(c: &FighterStateContext, hits: Seq<StageRayHit>) -> Option<FighterState> {
    match farthest_hit(hits, c.translation.0) {
        Some(h) => Some(landing_on(air_result(h))),
        None => None,
    }
}

/// The context after the collision check of an airborne state.
pub open spec fn context_after_landing<'a>(c: FighterStateContext<'a>, hits: Seq<StageRayHit>) -> FighterStateContext<'a> {
    match farthest_hit(hits, c.translation.0) {
        Some(h) => FighterStateContext { translation: FighterTranslation(h.position), ..c },
        None => c,
    }
}

/// The collision check of an airborne state: where the fighter met the
/// stage it lands there, otherwise nothing happens.
pub fn airborne_collision_interrupt(ctx: &mut FighterStateContext, hits: &Vec<StageRayHit>) -> (r: Option<
    FighterState,
>)
    requires
        hits_measurable(hits@, old(ctx).translation.0),
    ensures
        r == air_landing(old(ctx), hits@),
        *final(ctx) == context_after_landing(*old(ctx), hits@),
{
    match air_collide_with_stage(ctx, hits) {
        Some(res) => Some(land_on_stage(ctx, &res)),
        None => None,
    }
}

} // verus!
