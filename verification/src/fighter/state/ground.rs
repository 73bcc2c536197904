//! Ground movement math shared by every grounded state.

use crate::fighter::attributes::FighterAttributes;
use crate::fighter::motion::{FighterPreviousTranslation, FighterTranslation, FighterVelocity};
use crate::game_settings::GameSettings;
use crate::math::scalar::{abs_int, i32_fits, q16_mul, q16_signum, FGi32};
use crate::fighter::collision::StageLineSegment;
use crate::math::segment::{closest_point_spec, segment_direction, segment_direction_ok, FGSegment2d};
use crate::math::vec::{
    proj_component, proj_component_fits, vec2_add, vec2_add_fits, vec2_dot, vec2_is_normalized,
    vec2_len_sq, vec2_length, vec2_length_fits, vec2_project_scale, vec2_sub, vec2_sub_fits, FGVec2,
};
use vstd::prelude::*;

verus! {

/// A segment of a stage polygon.
#[derive(Clone, Copy, PartialEq, Eq, Structural, Debug, Hash)]
pub struct StageLineID {
    pub polygon: usize,
    pub segment: usize,
}

/// What every grounded state keeps: the floor segment it stands on.
#[derive(Clone, Copy, PartialEq, Eq, Structural, Debug, Hash)]
pub struct GroundedStateCommon {
    pub current_line_id: StageLineID,
}

/// Friction toward a standstill: the velocity is cancelled outright when the
/// friction exceeds it, otherwise reduced by the friction's magnitude.
pub open spec fn grounded_friction(friction: int, ground_vel: int) -> int {
    if abs_int(friction) > abs_int(ground_vel) {
        -ground_vel
    } else {
        q16_mul(-q16_signum(ground_vel), abs_int(friction))
    }
}

/// The change of ground velocity that friction causes.
pub fn apply_grounded_friction(friction: FGi32, ground_vel: FGi32) -> (r: FGi32)
    requires
        friction.bits != i32::MIN,
        ground_vel.bits != i32::MIN,
    ensures
        r.bits == grounded_friction(friction.bits as int, ground_vel.bits as int),
{
    if friction.abs().bits > ground_vel.abs().bits {
        ground_vel.neg()
    } else {
        proof {
            let s = q16_signum(ground_vel.bits as int);
            let f = abs_int(friction.bits as int);
            assert(q16_mul(-s, f) == if s > 0 { -f } else if s < 0 { f } else { 0 }) by (nonlinear_arith)
                requires
                    s == 65536 || s == -65536 || s == 0,
                    0 <= f,
            {
                if s == 65536 {
                    assert(-65536 * f == (-f) * 65536);
                } else if s == -65536 {
                    assert(65536 * f == f * 65536);
                }
            }
        }
        ground_vel.signum().neg().mul(friction.abs())
    }
}

/// Moving along the ground, one step.
pub fn move_accelerate() {
}

/// The requested acceleration, reined in so that the velocity `v` neither
/// overshoots `target` nor the limit `vmax`; once past the target, `friction`
/// brakes instead. Acceleration against the current motion is applied as it
/// is.
pub open spec fn clamped_accel(accel: int, target: int, v: int, friction: int, vmax: int) -> int {
    if q16_mul(v, accel) < 0 {
        accel
    } else if accel > 0 {
        if v + accel > target {
            let a1 = -friction;
            let a2 = if v + a1 < target { target - v } else { a1 };
            if v + a2 > vmax { vmax - v } else { a2 }
        } else {
            accel
        }
    } else if v + accel < target {
        let a1 = friction;
        let a2 = if v + a1 > target { target - v } else { a1 };
        if v + a2 < -vmax { -vmax - v } else { a2 }
    } else {
        accel
    }
}

/// Every intermediate of `clamped_accel` fits, along the path it takes.
pub open spec fn clamped_accel_fits(accel: int, target: int, v: int, friction: int, vmax: int) -> bool {
    &&& i32_fits(q16_mul(v, accel))
    &&& q16_mul(v, accel) >= 0 ==> {
        &&& i32_fits(v + accel)
        &&& (accel > 0 && v + accel > target) ==> {
            let a1 = -friction;
            let a2 = if v + a1 < target { target - v } else { a1 };
            &&& friction != i32::MIN as int
            &&& i32_fits(v + a1)
            &&& (v + a1 < target ==> i32_fits(target - v))
            &&& (v + a2 > vmax ==> i32_fits(vmax - v))
        }
        &&& (accel <= 0 && v + accel < target) ==> {
            let a1 = friction;
            let a2 = if v + a1 > target { target - v } else { a1 };
            &&& i32_fits(v + a1)
            &&& (v + a1 > target ==> i32_fits(target - v))
            &&& vmax != i32::MIN as int
            &&& (v + a2 < -vmax ==> i32_fits(-vmax - v))
        }
    }
}

/// The acceleration that `clamped_accel` describes.
pub fn clamp_accel(accel: FGi32, target: FGi32, v: FGi32, friction: FGi32, vmax: FGi32) -> (r: FGi32)
    requires
        clamped_accel_fits(accel.bits as int, target.bits as int, v.bits as int, friction.bits as int, vmax.bits as int),
    ensures
        r.bits == clamped_accel(accel.bits as int, target.bits as int, v.bits as int, friction.bits as int, vmax.bits as int),
{
    let mut accel = accel;
    if !(v.mul(accel).bits < 0) {
        if accel.bits > 0 {
            if v.add(accel).bits > target.bits {
                accel = friction.neg();
                if v.add(accel).bits < target.bits {
                    accel = target.sub(v);
                }
                if v.add(accel).bits > vmax.bits {
                    accel = vmax.sub(v);
                }
            }
        } else if v.add(accel).bits < target.bits {
            accel = friction;
            if v.add(accel).bits > target.bits {
                accel = target.sub(v);
            }
            if v.add(accel).bits < vmax.neg().bits {
                accel = vmax.neg().sub(v);
            }
        }
    }
    accel
}

/// The ground acceleration a state applies this frame: friction when no
/// velocity is targeted, otherwise the clamped acceleration toward the
/// target under the ground speed limit.
pub open spec fn ground_accel(accel: int, target: int, v: int, friction: int, gmax: int) -> int {
    if target == 0 {
        grounded_friction(friction, v)
    } else {
        clamped_accel(accel, target, v, friction, gmax)
    }
}

pub open spec fn ground_accel_fits(accel: int, target: int, v: int, friction: int, gmax: int) -> bool {
    if target == 0 {
        friction != i32::MIN as int && v != i32::MIN as int
    } else {
        clamped_accel_fits(accel, target, v, friction, gmax)
    }
}

pub fn compute_ground_accel(
    accel: FGi32,
    target_vel: FGi32,
    gr_vel: FGi32,
    attribs: &FighterAttributes,
    game_settings: &GameSettings,
) -> (r: FGi32)
    requires
        ground_accel_fits(
            accel.bits as int,
            target_vel.bits as int,
            gr_vel.bits as int,
            attribs.ground_friction.bits as int,
            game_settings.fighter_common.ground_max_horizontal_velocity.bits as int,
        ),
    ensures
        r.bits == ground_accel(
            accel.bits as int,
            target_vel.bits as int,
            gr_vel.bits as int,
            attribs.ground_friction.bits as int,
            game_settings.fighter_common.ground_max_horizontal_velocity.bits as int,
        ),
{
    if target_vel.bits == 0 {
        apply_grounded_friction(attribs.ground_friction, gr_vel)
    } else {
        clamp_accel(
            accel,
            target_vel,
            gr_vel,
            attribs.ground_friction,
            game_settings.fighter_common.ground_max_horizontal_velocity,
        )
    }
}

/// One frame of grounded motion: only the horizontal velocity moves the
/// fighter, and the old position is kept as the previous one.
pub fn apply_grounded_motion(
    velocity: &FighterVelocity,
    translation: &mut FighterTranslation,
    prev_translation: &mut FighterPreviousTranslation,
)
    requires
        i32_fits(old(translation).0.x.bits + velocity.0.x.bits),
    ensures
        final(prev_translation).0 == old(translation).0,
        final(translation).0.x.bits == old(translation).0.x.bits + velocity.0.x.bits,
        final(translation).0.y == old(translation).0.y,
{
    prev_translation.0 = translation.0;
    translation.0 = translation.0.add(FGVec2::new(velocity.0.x, FGi32::zero()));
}


/// Whether a grounded fighter kept to the floor or left it.
#[derive(Clone, Copy, PartialEq, Eq, Structural, Debug)]
pub enum GroundedMotionResult {
    InGround,
    InAir,
}

/// The projection of `p` onto the line through `seg`.
pub open spec fn floor_projection(seg: FGSegment2d, p: FGVec2) -> FGVec2 {
    let d = segment_direction(seg)->0;
    let s = vec2_project_scale(vec2_sub(p, seg.point1), d);
    vec2_add(
        seg.point1,
        FGVec2 {
            x: FGi32 { bits: proj_component(d.x.bits as int, s) as i32 },
            y: FGi32 { bits: proj_component(d.y.bits as int, s) as i32 },
        },
    )
}

/// Bits (Q16.16) of the distance between the projection of `p` onto the
/// line through `seg` and the point of `seg` closest to `p`: zero where the
/// projection falls on the segment.
pub open spec fn floor_gap(seg: FGSegment2d, p: FGVec2) -> int {
    vec2_length(vec2_sub(floor_projection(seg, p), closest_point_spec(seg, p)))
}

/// The floor test of `p` against `seg` can be computed: the segment has a
/// direction, and no step of the projection overflows.
pub open spec fn floor_test_ok(seg: FGSegment2d, p: FGVec2) -> bool {
    let d = segment_direction(seg)->0;
    let s = vec2_project_scale(vec2_sub(p, seg.point1), d);
    &&& segment_direction_ok(seg)
    &&& segment_direction(seg) is Some
    &&& vec2_len_sq(d) != 0
    &&& vec2_sub_fits(p, seg.point1)
    &&& proj_component_fits(d.x.bits as int, s)
    &&& proj_component_fits(d.y.bits as int, s)
    &&& vec2_add_fits(
        seg.point1,
        FGVec2 {
            x: FGi32 { bits: proj_component(d.x.bits as int, s) as i32 },
            y: FGi32 { bits: proj_component(d.y.bits as int, s) as i32 },
        },
    )
    &&& vec2_sub_fits(floor_projection(seg, p), closest_point_spec(seg, p))
    &&& vec2_length_fits(vec2_sub(floor_projection(seg, p), closest_point_spec(seg, p)))
}

/// A fighter whose feet are at `p` stands on `line`: it is floor, and `p`
/// projects onto the segment itself, within 0.01 (655 raw units are below
/// 0.01, 656 are not).
pub open spec fn stands_on(line: StageLineSegment, p: FGVec2) -> bool {
    line.is_floor && floor_gap(line.segment, p) <= 655
}

/// The first candidate the fighter stands on: where its feet go, the
/// segment's index and the segment's normal.
pub open spec fn first_floor(cands: Seq<(usize, StageLineSegment)>, p: FGVec2) -> Option<(FGVec2, usize, FGVec2)>
    decreases cands.len(),
{
    if cands.len() == 0 {
        None
    } else if stands_on(cands[0].1, p) {
        Some((floor_projection(cands[0].1.segment, p), cands[0].0, cands[0].1.normal))
    } else {
        first_floor(cands.drop_first(), p)
    }
}

/// Every floor test that runs, up to the first that succeeds, can be
/// computed.
pub open spec fn floor_tests_ok(cands: Seq<(usize, StageLineSegment)>, p: FGVec2) -> bool
    decreases cands.len(),
{
    if cands.len() == 0 {
        true
    } else {
        &&& cands[0].1.is_floor ==> floor_test_ok(cands[0].1.segment, p)
        &&& stands_on(cands[0].1, p) || floor_tests_ok(cands.drop_first(), p)
    }
}

/// The velocity left after removing its part along the unit normal `n`.
pub open spec fn slide_velocity(v: FGVec2, n: FGVec2) -> FGVec2 {
    vec2_sub(
        v,
        FGVec2 {
            x: FGi32 { bits: proj_component(n.x.bits as int, vec2_dot(v, n)) as i32 },
            y: FGi32 { bits: proj_component(n.y.bits as int, vec2_dot(v, n)) as i32 },
        },
    )
}

/// Removing the part of `v` along `n` can be computed.
pub open spec fn slide_ok(v: FGVec2, n: FGVec2) -> bool {
    &&& vec2_length_fits(n)
    &&& vec2_is_normalized(n)
    &&& proj_component_fits(n.x.bits as int, vec2_dot(v, n))
    &&& proj_component_fits(n.y.bits as int, vec2_dot(v, n))
    &&& vec2_sub_fits(
        v,
        FGVec2 {
            x: FGi32 { bits: proj_component(n.x.bits as int, vec2_dot(v, n)) as i32 },
            y: FGi32 { bits: proj_component(n.y.bits as int, vec2_dot(v, n)) as i32 },
        },
    )
}

/// What staying on the floor needs: the floor tests can be computed, and so
/// can the velocity along the floor that is found.
pub open spec fn grounded_collision_ok(c: &crate::fighter::state::FighterStateContext, cands: Seq<(usize, StageLineSegment)>) -> bool {
    &&& floor_tests_ok(cands, c.translation.0)
    &&& first_floor(cands, c.translation.0) matches Some((_, _, n)) ==> slide_ok(c.velocity.0, n)
}

/// The fighter placed on the floor at `p`, moving along the floor with
/// normal `n`.
pub open spec fn on_floor<'a>(c: crate::fighter::state::FighterStateContext<'a>, p: FGVec2, n: FGVec2) -> crate::fighter::state::FighterStateContext<'a> {
    crate::fighter::state::FighterStateContext {
        translation: FighterTranslation(p),
        velocity: FighterVelocity(slide_velocity(c.velocity.0, n)),
        ..c
    }
}

/// The floor test of the fighter's feet `p` against one segment: where it
/// passes, where the feet go.
fn floor_test(line: &StageLineSegment, p: FGVec2) -> (r: Option<FGVec2>)
    requires
        line.is_floor ==> floor_test_ok(line.segment, p),
    ensures
        r == (if stands_on(*line, p) {
            Some(floor_projection(line.segment, p))
        } else {
            None
        }),
{
    if !line.is_floor {
        return None;
    }
    let line_dir = line.segment.direction();
    let projected_point = line.segment.point1().add(p.sub(line.segment.point1()).project_onto(line_dir));
    let closest_point = line.segment.closest_point(p);
    let distance = closest_point.distance(projected_point);
    if distance.bits <= 655 {
        Some(projected_point)
    } else {
        None
    }
}

/// The first candidate segment the fighter's feet `p` stand on.
fn find_floor(p: FGVec2, candidates: &Vec<(usize, StageLineSegment)>) -> (r: Option<(FGVec2, usize, FGVec2)>)
    requires
        floor_tests_ok(candidates@, p),
    ensures
        r == first_floor(candidates@, p),
{
    let mut i: usize = 0;
    assert(candidates@.skip(0) =~= candidates@);
    while i < candidates.len()
        invariant
            i <= candidates.len(),
            floor_tests_ok(candidates@.skip(i as int), p),
            first_floor(candidates@, p) == first_floor(candidates@.skip(i as int), p),
        decreases candidates.len() - i,
    {
        let (segment_idx, line) = candidates[i];
        proof {
            assert(candidates@.skip(i as int)[0] == candidates@[i as int]);
            assert(candidates@.skip(i as int).drop_first() =~= candidates@.skip(i + 1));
        }
        if let Some(bp) = floor_test(&line, p) {
            return Some((bp, segment_idx, line.normal));
        }
        i = i + 1;
    }
    proof {
        assert(candidates@.skip(i as int) =~= Seq::<(usize, StageLineSegment)>::empty());
    }
    None
}

/// Keeps a grounded fighter on the floor: of the candidate segments, the
/// first it stands on catches it. The fighter is placed on that segment,
/// loses the part of its velocity along the segment's normal, and stands on
/// that segment from now on. Where it stands on none, it has left the floor
/// and nothing changes.
pub fn collide_with_stage_grounded(
    ctx: &mut crate::fighter::state::FighterStateContext,
    ground_common: &mut GroundedStateCommon,
    candidates: &Vec<(usize, StageLineSegment)>,
    _can_walk_off: bool,
) -> (r: GroundedMotionResult)
    requires
        grounded_collision_ok(old(ctx), candidates@),
    ensures
        match first_floor(candidates@, old(ctx).translation.0) {
            Some((p, idx, n)) => {
                &&& r == GroundedMotionResult::InGround
                &&& *final(ctx) == on_floor(*old(ctx), p, n)
                &&& final(ground_common).current_line_id.polygon == old(ground_common).current_line_id.polygon
                &&& final(ground_common).current_line_id.segment == idx
            },
            None => {
                &&& r == GroundedMotionResult::InAir
                &&& *final(ctx) == *old(ctx)
                &&& *final(ground_common) == *old(ground_common)
            },
        },
{
    let ecb_bottom_pos = ctx.translation.0.add(ctx.ecb.get_bottom_point());
    match find_floor(ecb_bottom_pos, candidates) {
        Some((bp, new_segment_idx, normal)) => {
            ctx.translation.0 = bp.sub(ctx.ecb.get_bottom_point());
            let along_normal = ctx.velocity.0.project_onto_normalized(normal);
            ctx.velocity.0 = ctx.velocity.0.sub(along_normal);
            ground_common.current_line_id.segment = new_segment_idx;
            GroundedMotionResult::InGround
        },
        None => GroundedMotionResult::InAir,
    }
}

/// The floor a grounded state stands on after its collision check.
pub open spec fn floor_after(
    g: GroundedStateCommon,
    c: &crate::fighter::state::FighterStateContext,
    cands: Seq<(usize, StageLineSegment)>,
) -> GroundedStateCommon {
    match first_floor(cands, c.translation.0) {
        Some((_, idx, _)) => GroundedStateCommon {
            current_line_id: StageLineID { polygon: g.current_line_id.polygon, segment: idx },
        },
        None => g,
    }
}

/// The context after a grounded collision check.
pub open spec fn context_after_floor<'a>(
    c: crate::fighter::state::FighterStateContext<'a>,
    cands: Seq<(usize, StageLineSegment)>,
) -> crate::fighter::state::FighterStateContext<'a> {
    match first_floor(cands, c.translation.0) {
        Some((p, _, n)) => on_floor(c, p, n),
        None => c,
    }
}

/// A grounded fighter that stands on no candidate falls.
pub open spec fn left_floor(
    c: &crate::fighter::state::FighterStateContext,
    cands: Seq<(usize, StageLineSegment)>,
) -> Option<crate::fighter::state::FighterState> {
    if first_floor(cands, c.translation.0) is None {
        Some(crate::fighter::state::FighterState::Fall(crate::fighter::state::fall::FallState))
    } else {
        None
    }
}

/// The collision check every grounded state shares: a fighter that has
/// left the floor falls.
pub fn grounded_collision_interrupt(
    ctx: &mut crate::fighter::state::FighterStateContext,
    ground_common: &mut GroundedStateCommon,
    candidates: &Vec<(usize, StageLineSegment)>,
    can_walk_off: bool,
) -> (r: Option<crate::fighter::state::FighterState>)
    requires
        grounded_collision_ok(old(ctx), candidates@),
    ensures
        r == left_floor(old(ctx), candidates@),
        *final(ground_common) == floor_after(*old(ground_common), old(ctx), candidates@),
        *final(ctx) == context_after_floor(*old(ctx), candidates@),
{
    match collide_with_stage_grounded(ctx, ground_common, candidates, can_walk_off) {
        GroundedMotionResult::InAir => Some(
            crate::fighter::state::FighterState::Fall(crate::fighter::state::fall::FallState),
        ),
        GroundedMotionResult::InGround => None,
    }
}

/// The transitions every moving grounded state shares: a jump.
pub fn grounded_movement_common_interrupts(
    ctx: &crate::fighter::state::FighterStateContext,
    ground_common: &GroundedStateCommon,
) -> (r: Option<crate::fighter::state::FighterState>)
    ensures
        r == crate::fighter::state::jump::jump_input(ctx, *ground_common),
{
    crate::fighter::state::jump::check_input(ctx, ground_common)
}

/// The transitions of a standing fighter: an attack, a dash, a turn, a walk
/// or standing still, in that order.
pub fn grounded_movement_standstill_common_interrupts(
    ctx: &crate::fighter::state::FighterStateContext,
    ground_common: &GroundedStateCommon,
) -> (r: Option<crate::fighter::state::FighterState>)
    requires
        ctx.input.current_frame.movement.x.bits != i32::MIN,
    ensures
        r == crate::fighter::state::land::standstill_input(ctx, *ground_common),
{
    if let Some(state) = crate::fighter::state::ground_attack::check_interrupt(ctx, ground_common) {
        Some(state)
    } else if let Some(state) = crate::fighter::state::dash::check_input(ctx, ground_common) {
        Some(state)
    } else if let Some(state) = crate::fighter::state::turn::check_input(ctx, ground_common) {
        Some(state)
    } else if let Some(state) = crate::fighter::state::walk::check_input(ctx, ground_common) {
        Some(state)
    } else if let Some(state) = crate::fighter::state::wait::check_input(ctx, ground_common) {
        Some(state)
    } else {
        None
    }
}


/// The friction a standing fighter brakes with: stronger above walking
/// speed.
pub open spec fn standing_friction(c: &crate::fighter::state::FighterStateContext) -> int {
    let vx = c.velocity.0.x.bits as int;
    if abs_int(vx) > c.attributes.max_walk_vel.bits {
        q16_mul(
            c.attributes.ground_friction.bits as int,
            c.game_settings.fighter_common.ground_friction_over_walk_speed_multiplier.bits as int,
        )
    } else {
        c.attributes.ground_friction.bits as int
    }
}

/// The horizontal velocity after one frame of standing friction.
pub open spec fn standing_vx(c: &crate::fighter::state::FighterStateContext) -> int {
    let vx = c.velocity.0.x.bits as int;
    vx + grounded_friction(standing_friction(c), vx)
}

/// `c` after one frame of grounded motion at horizontal velocity `vx`.
pub open spec fn grounded_moved<'a>(
    c: crate::fighter::state::FighterStateContext<'a>,
    vx: int,
) -> crate::fighter::state::FighterStateContext<'a> {
    crate::fighter::state::FighterStateContext {
        velocity: FighterVelocity(FGVec2 { x: FGi32 { bits: vx as i32 }, y: c.velocity.0.y }),
        prev_translation: FighterPreviousTranslation(c.translation.0),
        translation: FighterTranslation(
            FGVec2 { x: FGi32 { bits: (c.translation.0.x.bits + vx) as i32 }, y: c.translation.0.y },
        ),
        ..c
    }
}

pub open spec fn standing_step_ok(c: &crate::fighter::state::FighterStateContext) -> bool {
    let vx = c.velocity.0.x.bits as int;
    &&& vx != i32::MIN as int
    &&& abs_int(vx) > c.attributes.max_walk_vel.bits ==> i32_fits(
        q16_mul(
            c.attributes.ground_friction.bits as int,
            c.game_settings.fighter_common.ground_friction_over_walk_speed_multiplier.bits as int,
        ),
    )
    &&& standing_friction(c) != i32::MIN as int
    &&& i32_fits(standing_vx(c))
    &&& i32_fits(c.translation.0.x.bits + standing_vx(c))
}

/// One frame of a standing fighter: friction brakes it, then it moves.
pub fn apply_standing_step(ctx: &mut crate::fighter::state::FighterStateContext)
    requires
        standing_step_ok(old(ctx)),
    ensures
        *final(ctx) == grounded_moved(*old(ctx), standing_vx(old(ctx))),
{
    let friction = if ctx.velocity.0.x.abs().bits > ctx.attributes.max_walk_vel.bits {
        ctx.attributes.ground_friction.mul(ctx.game_settings.fighter_common.ground_friction_over_walk_speed_multiplier)
    } else {
        ctx.attributes.ground_friction
    };
    let ground_velocity = ctx.velocity.0.x;
    ctx.velocity.0.x = ctx.velocity.0.x.add(apply_grounded_friction(friction, ground_velocity));
    apply_grounded_motion(&ctx.velocity, &mut ctx.translation, &mut ctx.prev_translation);
}

/// The horizontal velocity after accelerating by `accel` toward `target`.
pub open spec fn moving_vx(c: &crate::fighter::state::FighterStateContext, accel: int, target: int) -> int {
    let vx = c.velocity.0.x.bits as int;
    vx + ground_accel(
        accel,
        target,
        vx,
        c.attributes.ground_friction.bits as int,
        c.game_settings.fighter_common.ground_max_horizontal_velocity.bits as int,
    )
}

pub open spec fn moving_step_ok(c: &crate::fighter::state::FighterStateContext, accel: int, target: int) -> bool {
    &&& ground_accel_fits(
        accel,
        target,
        c.velocity.0.x.bits as int,
        c.attributes.ground_friction.bits as int,
        c.game_settings.fighter_common.ground_max_horizontal_velocity.bits as int,
    )
    &&& i32_fits(moving_vx(c, accel, target))
    &&& i32_fits(c.translation.0.x.bits + moving_vx(c, accel, target))
}

/// One frame of a moving grounded fighter: it accelerates toward the
/// target velocity, then moves.
pub fn apply_moving_step(ctx: &mut crate::fighter::state::FighterStateContext, accel: FGi32, target_vel: FGi32)
    requires
        moving_step_ok(old(ctx), accel.bits as int, target_vel.bits as int),
    ensures
        *final(ctx) == grounded_moved(*old(ctx), moving_vx(old(ctx), accel.bits as int, target_vel.bits as int)),
{
    let accel = compute_ground_accel(accel, target_vel, ctx.velocity.0.x, ctx.attributes, ctx.game_settings);
    ctx.velocity.0.x = ctx.velocity.0.x.add(accel);
    apply_grounded_motion(&ctx.velocity, &mut ctx.translation, &mut ctx.prev_translation);
}


/// Friction never speeds a fighter up and never turns its motion around:
/// the velocity after friction has at most the same magnitude, and never
/// the opposite sign.
pub proof fn friction_never_reverses(friction: int, v: int)
    requires
        i32_fits(friction),
        i32_fits(v),
        friction != i32::MIN as int,
        v != i32::MIN as int,
    ensures
        abs_int(v + grounded_friction(friction, v)) <= abs_int(v),
        v >= 0 ==> v + grounded_friction(friction, v) >= 0,
        v <= 0 ==> v + grounded_friction(friction, v) <= 0,
{
    let s = q16_signum(v);
    let f = abs_int(friction);
    assert(q16_mul(-s, f) == if s > 0 { -f } else if s < 0 { f } else { 0 }) by (nonlinear_arith)
        requires
            s == 65536 || s == -65536 || s == 0,
            0 <= f,
    {
        if s == 65536 {
            assert(-65536 * f == (-f) * 65536);
        } else if s == -65536 {
            assert(65536 * f == f * 65536);
        }
    }
}

/// Acceleration toward a target never carries the velocity past it, nor
/// further from where it was: speeding up (or holding) ends at most at the
/// larger of the velocity and the target, slowing down at least at the
/// smaller. Acceleration against the current motion is not clamped and is
/// left out, as is a negative friction.
pub proof fn clamped_accel_never_overshoots(accel: int, target: int, v: int, friction: int, vmax: int)
    requires
        q16_mul(v, accel) >= 0,
        friction >= 0,
    ensures
        accel > 0 ==> v + clamped_accel(accel, target, v, friction, vmax) <= if v > target { v } else { target },
        accel <= 0 ==> v + clamped_accel(accel, target, v, friction, vmax) >= if v < target { v } else { target },
{
}

/// The brake of a standing fighter's friction: `friction` taken off the
/// speed toward zero, or the whole speed where the friction is larger.
proof fn lemma_brake(vx: int, friction: int)
    requires
        i32_fits(friction),
    ensures
        abs_int(friction) > abs_int(vx) ==> vx + grounded_friction(friction, vx) == 0,
        abs_int(friction) <= abs_int(vx) && vx > 0 ==> vx + grounded_friction(friction, vx) == vx - abs_int(friction),
        abs_int(friction) <= abs_int(vx) && vx < 0 ==> vx + grounded_friction(friction, vx) == vx + abs_int(friction),
        vx == 0 ==> vx + grounded_friction(friction, vx) == 0,
{
    let f = abs_int(friction);
    assert((-65536) * f / 65536 == -f) by (nonlinear_arith);
    assert(65536 * f / 65536 == f) by (nonlinear_arith);
    assert(0 * f / 65536 == 0) by (nonlinear_arith);
}

/// Faster than walking, a standing fighter brakes by its ground friction
/// times the over-walk-speed multiplier each frame, and stops outright where
/// that brake exceeds its speed.
pub proof fn standing_brake_above_walking_speed(c: &crate::fighter::state::FighterStateContext)
    requires
        abs_int(c.velocity.0.x.bits as int) > c.attributes.max_walk_vel.bits,
        i32_fits(
            (c.attributes.ground_friction.bits * c.game_settings.fighter_common.ground_friction_over_walk_speed_multiplier.bits)
                / 65536,
        ),
    ensures
        abs_int(
            (c.attributes.ground_friction.bits * c.game_settings.fighter_common.ground_friction_over_walk_speed_multiplier.bits)
                / 65536,
        ) > abs_int(c.velocity.0.x.bits as int) ==> standing_vx(c) == 0,
        abs_int(
            (c.attributes.ground_friction.bits * c.game_settings.fighter_common.ground_friction_over_walk_speed_multiplier.bits)
                / 65536,
        ) <= abs_int(c.velocity.0.x.bits as int) && c.velocity.0.x.bits > 0 ==> standing_vx(c) == c.velocity.0.x.bits
            - abs_int(
            (c.attributes.ground_friction.bits * c.game_settings.fighter_common.ground_friction_over_walk_speed_multiplier.bits)
                / 65536,
        ),
        abs_int(
            (c.attributes.ground_friction.bits * c.game_settings.fighter_common.ground_friction_over_walk_speed_multiplier.bits)
                / 65536,
        ) <= abs_int(c.velocity.0.x.bits as int) && c.velocity.0.x.bits < 0 ==> standing_vx(c) == c.velocity.0.x.bits
            + abs_int(
            (c.attributes.ground_friction.bits * c.game_settings.fighter_common.ground_friction_over_walk_speed_multiplier.bits)
                / 65536,
        ),
{
    lemma_brake(
        c.velocity.0.x.bits as int,
        (c.attributes.ground_friction.bits * c.game_settings.fighter_common.ground_friction_over_walk_speed_multiplier.bits)
            / 65536,
    );
}

/// At or below walking speed, a standing fighter brakes by its ground
/// friction alone each frame, and stops outright where the friction exceeds
/// its speed.
pub proof fn standing_brake_at_walking_speed(c: &crate::fighter::state::FighterStateContext)
    requires
        abs_int(c.velocity.0.x.bits as int) <= c.attributes.max_walk_vel.bits,
    ensures
        abs_int(c.attributes.ground_friction.bits as int) > abs_int(c.velocity.0.x.bits as int) ==> standing_vx(c) == 0,
        abs_int(c.attributes.ground_friction.bits as int) <= abs_int(c.velocity.0.x.bits as int) && c.velocity.0.x.bits > 0
            ==> standing_vx(c) == c.velocity.0.x.bits - abs_int(c.attributes.ground_friction.bits as int),
        abs_int(c.attributes.ground_friction.bits as int) <= abs_int(c.velocity.0.x.bits as int) && c.velocity.0.x.bits < 0
            ==> standing_vx(c) == c.velocity.0.x.bits + abs_int(c.attributes.ground_friction.bits as int),
        c.velocity.0.x.bits == 0 ==> standing_vx(c) == 0,
{
    lemma_brake(c.velocity.0.x.bits as int, c.attributes.ground_friction.bits as int);
}

} // verus!
