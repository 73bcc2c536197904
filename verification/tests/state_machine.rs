use game_test::fighter::animation::{AnimKind, FighterAnimationFrame};
use game_test::fighter::attack::{AttackHitbox, AttackAngle, AttackKind, FighterAttackScript, FighterAttackScriptAssets, FighterDamage, Knockback, KnockbackType};
use game_test::fighter::attributes::FighterAttributes;
use game_test::fighter::baked_animation::{BakedAnimationClip, BakedFighterAnimations, FixedMat4, BAKED_ANIMATION_FPS};
use game_test::fighter::ecb::{FighterECB, FighterPreviousECB};
use game_test::fighter::motion::{FighterPreviousTranslation, FighterTranslation, FighterVelocity};
use game_test::fighter::state::dash::DashState;
use game_test::fighter::collision::{
    air_collide_with_stage, air_collision_ray, StageContacts, StageLineSegment, StageRayHit,
};
use game_test::fighter::state::fall::FallState;
use game_test::fighter::state::ground::{
    apply_grounded_friction, collide_with_stage_grounded, compute_ground_accel, move_accelerate,
    GroundedMotionResult, GroundedStateCommon, StageLineID,
};
use game_test::fighter::state::land::LandingState;
use game_test::math::segment::FGSegment2d;
use game_test::fighter::state::ground_attack::GroundAttackState;
use game_test::fighter::state::jump::{JumpSquatState, JumpState, JumpType};
use game_test::fighter::state::wait::WaitState;
use game_test::fighter::state::walk::WalkState;
use game_test::fighter::state::{state_collision_step, state_interrupt_step, FighterState, FighterStateContext};
use game_test::fighter::{FighterFacingDirection, FighterHitboxes};
use game_test::game_settings::{FighterSettingsCommon, GameSettings, InputSettingsCommon};
use game_test::input::buffer::{FighterCommands, FighterInput};
use game_test::input::frame::FighterInputFrame;
use game_test::math::scalar::FGi32;
use game_test::math::vec::FGVec2;
use game_test::math::vec3::FGVec3;

fn settings() -> GameSettings {
    GameSettings {
        fighter_common: FighterSettingsCommon {
            walk_speed_ease: FGi32::lit("0.5"),
            ground_max_horizontal_velocity: FGi32::lit("2.5"),
            ground_friction_over_walk_speed_multiplier: FGi32::lit("2"),
        },
        input_common: InputSettingsCommon {
            stick_deadzone: FGi32::lit("0.28"),
            trigger_deadzone: FGi32::lit("0.3"),
            smash_input_reset_axis_threshold: FGi32::lit("0.3"),
            smash_input_axis_threshold: FGi32::lit("0.8"),
            run_stick_threshold: FGi32::lit("0.6"),
            smash_input_frame_threshold: 2,
            input_buffer_size: 5,
        },
        fighter_manifest_paths: vec![],
        stage_manifest_paths: vec![],
    }
}

fn attributes() -> FighterAttributes {
    FighterAttributes {
        base_walk_accel: FGi32::lit("0.1"),
        stick_walk_accel: FGi32::lit("0.1"),
        max_walk_vel: FGi32::lit("1.6"),
        dash_acceleration_duration: 1,
        dash_duration: 11,
        dash_initial_velocity: FGi32::lit("1.9"),
        base_dash_accel: FGi32::lit("0.02"),
        stick_dash_accel: FGi32::lit("0.1"),
        max_dash_vel: FGi32::lit("2.2"),
        jumpsquat_duration: 4,
        short_hop_vertical_velocity: FGi32::lit("2.1"),
        full_jump_vertical_velocity: FGi32::lit("3.1"),
        jump_horizontal_velocity: FGi32::lit("0.8"),
        landing_iasa: 3,
        landing_duration: 4,
        air_acceleration_base: FGi32::lit("0.02"),
        air_acceleration_stick: FGi32::lit("0.06"),
        max_air_horizontal_velocity: FGi32::lit("0.83"),
        ground_friction: FGi32::lit("0.08"),
        terminal_velocity: FGi32::lit("2.8"),
        gravity: FGi32::lit("0.17"),
        air_friction: FGi32::lit("0.02"),
        air_dodge_duration: 30,
        air_dodge_velocity: FGi32::lit("3.1"),
        air_dodge_decay: FGi32::lit("0.9"),
        air_jump_multiplier: FGi32::lit("1.2"),
        air_jump_horizontal_velocity: FGi32::lit("0.9"),
        weight: FGi32::lit("100"),
    }
}

fn baked() -> BakedFighterAnimations {
    BakedFighterAnimations {
        frame_rate: BAKED_ANIMATION_FPS,
        bone_names: vec!["root".into()],
        parents: vec![None],
        clips: vec![BakedAnimationClip { frames: vec![vec![FixedMat4::identity()]; 3] }],
        clip_indices: vec![(AnimKind::Wait, 0), (AnimKind::Turn, 0), (AnimKind::Landing, 0), (AnimKind::AttackJab1, 0)],
    }
}

fn scripts() -> FighterAttackScriptAssets {
    let hb = AttackHitbox {
        id: 0,
        bone: "root".into(),
        damage: FighterDamage::lit("3"),
        offset: FGVec3::zero(),
        radius: FGi32::lit("1"),
        angle: AttackAngle::make_sakurai(),
        knockback_type: KnockbackType::make_fixed(),
        knockback: Knockback::lit("5"),
        knockback_growth: FGi32::lit("50"),
        start_frame: 1,
        end_frame: 3,
    };
    FighterAttackScriptAssets { scripts: vec![(AttackKind::Jab, FighterAttackScript { hitboxes: vec![hb] })] }
}

fn ground() -> GroundedStateCommon {
    GroundedStateCommon { current_line_id: StageLineID { polygon: 0, segment: 1 } }
}

fn context<'a>(
    settings: &'a GameSettings,
    attributes: &'a FighterAttributes,
    baked: &'a BakedFighterAnimations,
    scripts: &'a FighterAttackScriptAssets,
) -> FighterStateContext<'a> {
    FighterStateContext {
        translation: FighterTranslation(FGVec2::zero()),
        prev_translation: FighterPreviousTranslation(FGVec2::zero()),
        input: FighterInput::new(),
        velocity: FighterVelocity(FGVec2::zero()),
        ecb: FighterECB { vertical_half: FGi32::lit("5"), horizontal_half: FGi32::lit("2.5") },
        prev_ecb: FighterPreviousECB { vertical_half: FGi32::lit("5"), horizontal_half: FGi32::lit("2.5") },
        facing_direction: FighterFacingDirection::Right,
        animation_frame: FighterAnimationFrame::new(AnimKind::Wait, true),
        hitboxes: FighterHitboxes::new(),
        animation_request: None,
        game_settings: settings,
        attributes,
        baked_animations: baked,
        attack_scripts: scripts,
    }
}

fn stick(x: &str, y: &str) -> FighterInputFrame {
    let mut f = FighterInputFrame::neutral();
    f.movement = FGVec2::lit(x, y);
    f
}

#[test]
fn friction_brakes_without_reversing() {
    let f = FGi32::lit("0.08");
    assert_eq!(apply_grounded_friction(f, FGi32::lit("1")), FGi32::lit("-0.08"));
    assert_eq!(apply_grounded_friction(f, FGi32::lit("-1")), FGi32::lit("0.08"));
    assert_eq!(apply_grounded_friction(f, FGi32::lit("0.05")), FGi32::lit("-0.05"));
    assert_eq!(apply_grounded_friction(f, FGi32::zero()), FGi32::zero());
    move_accelerate();
}

#[test]
fn ground_acceleration_stops_at_the_target() {
    let s = settings();
    let a = attributes();
    assert_eq!(
        compute_ground_accel(FGi32::lit("0.3"), FGi32::lit("1"), FGi32::lit("0.9"), &a, &s),
        FGi32::lit("0.1")
    );
    assert_eq!(
        compute_ground_accel(FGi32::lit("0.3"), FGi32::lit("1"), FGi32::lit("0.5"), &a, &s),
        FGi32::lit("0.3")
    );
    assert_eq!(
        compute_ground_accel(FGi32::lit("0.3"), FGi32::zero(), FGi32::lit("0.5"), &a, &s),
        FGi32::lit("-0.08")
    );
    assert_eq!(
        compute_ground_accel(FGi32::lit("-0.3"), FGi32::lit("1"), FGi32::lit("0.5"), &a, &s),
        FGi32::lit("-0.3")
    );
}

#[test]
fn smash_input_dashes_from_wait() {
    let (s, a, b, sc) = (settings(), attributes(), baked(), scripts());
    let mut ctx = context(&s, &a, &b, &sc);
    ctx.input.set_lifetime(FighterCommands::SmashMoveLeft, 3);
    let mut state = FighterState::Wait(WaitState { grounded_common: ground() });
    assert!(state_interrupt_step(&mut state, &mut ctx));
    assert_eq!(state, FighterState::Dash(DashState::new(FighterFacingDirection::Left, ground())));
    assert_eq!(ctx.facing_direction, FighterFacingDirection::Left);
    assert!(!ctx.input.has_command(FighterCommands::SmashMoveLeft));
    assert_eq!(ctx.velocity.0.x, FGi32::lit("-1.9"));
    assert_eq!(ctx.animation_request, Some((AnimKind::Dash, false)));
    assert_eq!(state.name(), "Dash");
}

#[test]
fn centred_stick_keeps_waiting_and_tilted_stick_walks() {
    let (s, a, b, sc) = (settings(), attributes(), baked(), scripts());
    let mut ctx = context(&s, &a, &b, &sc);
    let wait = FighterState::Wait(WaitState { grounded_common: ground() });
    assert_eq!(wait.check_interrupt(&ctx), None);
    ctx.input.push_input_frame(stick("0.5", "0"));
    assert_eq!(wait.check_interrupt(&ctx), Some(FighterState::Walk(WalkState { grounded_common: ground() })));
    let walk = FighterState::Walk(WalkState { grounded_common: ground() });
    ctx.input.push_input_frame(stick("0.1", "0"));
    assert_eq!(walk.check_interrupt(&ctx), Some(FighterState::Wait(WaitState { grounded_common: ground() })));
}

#[test]
fn walking_accelerates_and_moves() {
    let (s, a, b, sc) = (settings(), attributes(), baked(), scripts());
    let mut ctx = context(&s, &a, &b, &sc);
    ctx.input.push_input_frame(stick("1", "0"));
    let mut state = FighterState::Walk(WalkState { grounded_common: ground() });
    state.update(&mut ctx);
    // accel = 1 * 0.1 + 1 * 0.1, target = 1.6
    assert_eq!(ctx.velocity.0.x.to_bits(), 6554 * 2);
    assert_eq!(ctx.translation.0.x.to_bits(), 6554 * 2);
    assert_eq!(ctx.prev_translation.0, FGVec2::zero());
}

#[test]
fn jump_squat_becomes_a_jump_and_jumps_launch() {
    let (s, a, b, sc) = (settings(), attributes(), baked(), scripts());
    let mut ctx = context(&s, &a, &b, &sc);
    ctx.input.set_lifetime(FighterCommands::Jump, 4);
    let mut state = FighterState::Wait(WaitState { grounded_common: ground() });
    assert!(state_interrupt_step(&mut state, &mut ctx));
    assert_eq!(state, FighterState::JumpSquat(JumpSquatState::create(ground())));
    assert!(!ctx.input.has_command(FighterCommands::Jump));
    assert_eq!(ctx.animation_frame, FighterAnimationFrame::new(AnimKind::JumpSquat, false));
    for _ in 0..4 {
        assert!(!state_interrupt_step(&mut state, &mut ctx));
        state.update(&mut ctx);
    }
    assert!(state_interrupt_step(&mut state, &mut ctx));
    assert_eq!(state, FighterState::Jump(JumpState { jump_type: JumpType::ShortHop }));
    assert_eq!(ctx.velocity.0.y, FGi32::lit("2.1"));
    assert_eq!(ctx.animation_request, Some((AnimKind::JumpForward, false)));
    state.update(&mut ctx);
    assert_eq!(ctx.velocity.0.y, FGi32::lit("2.1").sub(FGi32::lit("0.17")));
}

#[test]
fn shield_in_jump_squat_wavedashes_down() {
    let (s, a, b, sc) = (settings(), attributes(), baked(), scripts());
    let mut ctx = context(&s, &a, &b, &sc);
    ctx.input.set_lifetime(FighterCommands::Shield, 2);
    let state = FighterState::JumpSquat(JumpSquatState::create(ground()));
    match state.check_interrupt(&ctx) {
        Some(FighterState::AirDodge(d)) => {
            assert_eq!(d.duration_counter, 0);
            assert_eq!(d.direction, FGVec2::lit("0", "-1"));
        },
        other => panic!("expected an air dodge, got {:?}", other),
    }
}

#[test]
fn attack_press_starts_a_jab_that_arms_hitboxes() {
    let (s, a, b, sc) = (settings(), attributes(), baked(), scripts());
    let mut ctx = context(&s, &a, &b, &sc);
    ctx.input.set_lifetime(FighterCommands::Attack, 2);
    let state = FighterState::Land(game_test::fighter::state::land::LandingState::create(ground()));
    ctx.animation_frame = FighterAnimationFrame { kind: AnimKind::Landing, frame: 9, repeat: false };
    let next = state.check_interrupt(&ctx);
    assert_eq!(
        next,
        Some(FighterState::GroundAttack(GroundAttackState { attack_kind: AttackKind::Jab, grounded_common: ground() }))
    );
    let mut next = next.unwrap();
    next.on_enter(&mut ctx);
    assert_eq!(ctx.hitboxes.attack_script, Some(AttackKind::Jab));
    assert_eq!(ctx.animation_frame, FighterAnimationFrame::new(AnimKind::AttackJab1, false));
    ctx.animation_frame.advance();
    ctx.animation_frame.advance();
    next.update(&mut ctx);
    assert_eq!(ctx.hitboxes.active_hitboxes, vec![0]);
    ctx.animation_frame.frame = 4;
    assert_eq!(next.check_interrupt(&ctx), Some(FighterState::Wait(WaitState { grounded_common: ground() })));
}

#[test]
fn falling_respects_terminal_velocity() {
    let (s, a, b, sc) = (settings(), attributes(), baked(), scripts());
    let mut ctx = context(&s, &a, &b, &sc);
    ctx.velocity.0.y = FGi32::lit("-2.75");
    let mut state = FighterState::Fall(game_test::fighter::state::fall::FallState);
    state.update(&mut ctx);
    assert_eq!(ctx.velocity.0.y, FGi32::lit("-2.8"));
    assert_eq!(ctx.translation.0.y, FGi32::lit("-2.8"));
    assert_eq!(state.check_interrupt(&ctx), None);
}

#[test]
fn the_context_samples_bones_and_animation_end() {
    let (s, a, b, sc) = (settings(), attributes(), baked(), scripts());
    let mut ctx = context(&s, &a, &b, &sc);
    assert_eq!(ctx.sample_bone("root"), Some(FixedMat4::identity()));
    assert_eq!(ctx.sample_bone("hand"), None);
    ctx.play_animation(AnimKind::Turn, false);
    assert_eq!(ctx.get_current_animation_frame(), 0);
    assert!(!ctx.is_current_animation_finished());
    ctx.animation_frame.frame = 4;
    assert!(ctx.is_current_animation_finished());
}

fn flat_floor(from: &str, to: &str) -> StageLineSegment {
    StageLineSegment {
        segment: FGSegment2d::new(FGVec2::lit(from, "0"), FGVec2::lit(to, "0")),
        is_floor: true,
        normal: FGVec2::lit("0", "1"),
    }
}

#[test]
fn grounded_fighter_snaps_to_the_floor_and_loses_vertical_speed() {
    let (s, a, b, sc) = (settings(), attributes(), baked(), scripts());
    let mut ctx = context(&s, &a, &b, &sc);
    ctx.translation.0 = FGVec2::lit("0.5", "0.25");
    ctx.velocity.0 = FGVec2::lit("1", "-0.5");
    let mut g = ground();
    let candidates = vec![(1usize, flat_floor("-10", "10"))];
    let r = collide_with_stage_grounded(&mut ctx, &mut g, &candidates, false);
    assert_eq!(r, GroundedMotionResult::InGround);
    assert_eq!(ctx.translation.0, FGVec2::lit("0.5", "0"));
    assert_eq!(ctx.velocity.0, FGVec2::lit("1", "0"));
    assert_eq!(g, ground());
}

#[test]
fn grounded_fighter_past_the_segment_end_moves_to_the_next_segment() {
    let (s, a, b, sc) = (settings(), attributes(), baked(), scripts());
    let mut ctx = context(&s, &a, &b, &sc);
    ctx.translation.0 = FGVec2::lit("12", "0");
    let mut g = ground();
    let wall = StageLineSegment {
        segment: FGSegment2d::new(FGVec2::lit("12", "-5"), FGVec2::lit("12", "5")),
        is_floor: false,
        normal: FGVec2::lit("-1", "0"),
    };
    let candidates = vec![(1usize, flat_floor("-10", "10")), (0usize, wall), (2usize, flat_floor("10", "20"))];
    let r = collide_with_stage_grounded(&mut ctx, &mut g, &candidates, false);
    assert_eq!(r, GroundedMotionResult::InGround);
    assert_eq!(g.current_line_id, StageLineID { polygon: 0, segment: 2 });
    assert_eq!(ctx.translation.0, FGVec2::lit("12", "0"));
}

#[test]
fn grounded_fighter_off_every_floor_falls() {
    let (s, a, b, sc) = (settings(), attributes(), baked(), scripts());
    let mut ctx = context(&s, &a, &b, &sc);
    ctx.translation.0 = FGVec2::lit("30", "0");
    let contacts = StageContacts { floor_candidates: vec![(1usize, flat_floor("-10", "10"))], ray_hits: vec![] };
    let mut state = FighterState::Walk(WalkState { grounded_common: ground() });
    let before = ctx.translation.0;
    assert!(state_collision_step(&mut state, &mut ctx, &contacts));
    assert_eq!(state, FighterState::Fall(FallState));
    assert_eq!(ctx.translation.0, before);
    let mut waiting = FighterState::Wait(WaitState { grounded_common: ground() });
    let empty = StageContacts { floor_candidates: vec![], ray_hits: vec![] };
    assert_eq!(waiting.check_collision_interrupt(&mut ctx, &empty), Some(FighterState::Fall(FallState)));
}

#[test]
fn airborne_fighter_lands_on_the_farthest_hit() {
    let (s, a, b, sc) = (settings(), attributes(), baked(), scripts());
    let mut ctx = context(&s, &a, &b, &sc);
    ctx.prev_translation.0 = FGVec2::lit("0", "5");
    ctx.translation.0 = FGVec2::lit("0", "-1");
    assert_eq!(air_collision_ray(&ctx), FGSegment2d::new(FGVec2::lit("0", "5"), FGVec2::lit("0", "-1")));
    let near = StageRayHit {
        line_id: StageLineID { polygon: 0, segment: 1 },
        position: FGVec2::lit("0", "0"),
        normal: FGVec2::lit("0", "1"),
    };
    let far = StageRayHit {
        line_id: StageLineID { polygon: 1, segment: 0 },
        position: FGVec2::lit("0", "2"),
        normal: FGVec2::lit("0", "1"),
    };
    let hit = air_collide_with_stage(&ctx, &vec![far, near]).unwrap();
    assert_eq!(hit.line_id, far.line_id);
    assert_eq!(hit.hit_position, far.position);
    assert_eq!(air_collide_with_stage(&ctx, &vec![]), None);

    let contacts = StageContacts { floor_candidates: vec![], ray_hits: vec![near, far] };
    let mut state = FighterState::Fall(FallState);
    assert!(state_collision_step(&mut state, &mut ctx, &contacts));
    assert_eq!(
        state,
        FighterState::Land(LandingState {
            grounded_common: GroundedStateCommon { current_line_id: far.line_id },
            duration_counter: 0,
        })
    );
    assert_eq!(ctx.translation.0, FGVec2::lit("0", "2"));
    assert_eq!(ctx.animation_request, Some((AnimKind::Landing, false)));
}

#[test]
fn equally_far_hits_land_on_the_last() {
    let (s, a, b, sc) = (settings(), attributes(), baked(), scripts());
    let mut ctx = context(&s, &a, &b, &sc);
    ctx.translation.0 = FGVec2::lit("0", "0");
    let left = StageRayHit {
        line_id: StageLineID { polygon: 0, segment: 0 },
        position: FGVec2::lit("-2", "0"),
        normal: FGVec2::lit("0", "1"),
    };
    let right = StageRayHit {
        line_id: StageLineID { polygon: 3, segment: 4 },
        position: FGVec2::lit("2", "0"),
        normal: FGVec2::lit("0", "1"),
    };
    assert_eq!(air_collide_with_stage(&ctx, &vec![left, right]).unwrap().line_id, right.line_id);
    assert_eq!(air_collide_with_stage(&ctx, &vec![right, left]).unwrap().line_id, left.line_id);
    let mut attack = FighterState::GroundAttack(GroundAttackState { attack_kind: AttackKind::Jab, grounded_common: ground() });
    let contacts = StageContacts { floor_candidates: vec![], ray_hits: vec![left] };
    assert_eq!(attack.check_collision_interrupt(&mut ctx, &contacts), None);
}
