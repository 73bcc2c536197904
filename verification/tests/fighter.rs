use game_test::fighter::animation::{AnimKind, FighterAnimationFrame};
use game_test::fighter::attack::{
    update_active_hitbox_list, AttackAngle, FighterAttackScriptAssets, AttackHitbox, AttackKind, FighterAttackScript, FighterDamage,
    Knockback, KnockbackType,
};
use game_test::fighter::attributes::FighterAttributes;
use game_test::fighter::baked_animation::{
    BakedAnimationClip, BakedFighterAnimations, FighterBoneMatrices, FixedMat4, BAKED_ANIMATION_FPS,
};
use game_test::fighter::ecb::{FighterECB, FighterPreviousECB};
use game_test::fighter::hurtbox::{FixedAffineCapsule, FixedCapsule};
use game_test::fighter::manifest::{trimmed_is_empty, FighterHurtbox};
use game_test::fighter::motion::FighterTranslation;
use game_test::fighter::state::fall::FallState;
use game_test::fighter::state::FighterState;
use game_test::fighter::visual_bones::{bind_visual_bones, DuplicateBone};
use game_test::fighter::{spawn_fighter, FighterFacingDirection};
use game_test::math::scalar::FGi32;
use game_test::math::vec::FGVec2;
use game_test::math::vec3::FGVec3;

fn affine_capsule(x: &str, scale_y: &str) -> FixedAffineCapsule {
    let mut transform = FixedMat4::identity();
    transform.cols[1][1] = FGi32::lit(scale_y);
    transform.translate(FGVec3::lit(x, "0", "0"));
    FixedAffineCapsule::new(transform, FGi32::lit("1"), FGi32::lit("1"))
}

fn capsule(x: &str) -> FixedCapsule {
    FixedCapsule::new(FGVec3::lit(x, "-1", "0"), FGVec3::lit(x, "1", "0"), FGi32::lit("1"))
}

#[test]
fn detects_touching_and_separated_capsules() {
    assert!(affine_capsule("0", "1").intersects(capsule("2")));
    assert!(!affine_capsule("0", "1").intersects(capsule("2.01")));
}

#[test]
fn affine_scale_changes_capsule_intersection() {
    let sphere = FixedAffineCapsule::new(FixedMat4::identity(), FGi32::zero(), FGi32::lit("1"));
    let mut squashed_transform = FixedMat4::identity();
    squashed_transform.cols[1][1] = FGi32::lit("0.5");
    let squashed = FixedAffineCapsule::new(squashed_transform, FGi32::zero(), FGi32::lit("1"));
    let target = FixedCapsule::new(FGVec3::lit("0", "1.4", "0"), FGVec3::lit("0", "1.4", "0"), FGi32::lit("0.5"));

    assert!(sphere.intersects(target));
    assert!(!squashed.intersects(target));
}

#[test]
fn previous_ecb_copies_current_dimensions() {
    let current = FighterECB { vertical_half: FGi32::lit("0.5"), horizontal_half: FGi32::lit("0.25") };
    let previous = FighterPreviousECB::from(current);

    assert_eq!(previous.vertical_half, current.vertical_half);
    assert_eq!(previous.horizontal_half, current.horizontal_half);
}

#[test]
fn pose_sampling_wraps_repeating_frames_and_clamps_finished_frames() {
    let first = FixedMat4::identity();
    let mut second = FixedMat4::identity();
    second.translate(FGVec3::lit("2", "0", "0"));
    let mut terminal = FixedMat4::identity();
    terminal.translate(FGVec3::lit("4", "0", "0"));
    let baked = BakedFighterAnimations {
        frame_rate: BAKED_ANIMATION_FPS,
        bone_names: vec!["root".into()],
        parents: vec![None],
        clips: vec![BakedAnimationClip { frames: vec![vec![first], vec![second], vec![terminal]] }],
        clip_indices: vec![(AnimKind::Wait, 0)],
    };

    let repeating = FighterAnimationFrame { kind: AnimKind::Wait, frame: 3, repeat: true };
    let finished = FighterAnimationFrame { kind: AnimKind::Wait, frame: 4, repeat: false };

    assert_eq!(baked.sample_pose(&repeating), Some(&[second][..]));
    assert_eq!(baked.sample_pose(&finished), Some(&[terminal][..]));
}

#[test]
fn bone_matrix_component_keeps_names_aligned_with_the_current_pose() {
    let first = FixedMat4::identity();
    let mut second = FixedMat4::identity();
    second.translate(FGVec3::lit("0", "3", "0"));
    let mut matrices = FighterBoneMatrices::default();
    matrices.set_pose(&["root".into(), "hand".into()], &[None, Some(0)], &[first, second], FGi32::one());

    assert_eq!(matrices.get_current("hand"), Some(second));
    assert_eq!(matrices.iter(), vec![("root", first), ("hand", second)]);
}

#[test]
fn local_pose_reconstructs_model_space_for_gameplay() {
    let mut root = FixedMat4::identity();
    root.translate(FGVec3::lit("10", "0", "0"));
    let mut hand = FixedMat4::identity();
    hand.translate(FGVec3::lit("0", "3", "0"));
    let mut matrices = FighterBoneMatrices::default();

    matrices.set_pose(&["root".into(), "hand".into()], &[None, Some(0)], &[root, hand], FGi32::one());

    assert_eq!(matrices.local(1), Some(hand));
    assert_eq!(matrices.get_current("hand").unwrap().get_translation(), FGVec3::lit("10", "3", "0"));
    assert_eq!(matrices.local(1).unwrap().transform_point(FGVec3::zero()), FGVec3::lit("0", "3", "0"));
}

#[test]
fn model_scale_affects_gameplay_bones_without_changing_visual_locals() {
    let mut root = FixedMat4::identity();
    root.translate(FGVec3::lit("1", "0", "0"));
    let mut hand = FixedMat4::identity();
    hand.translate(FGVec3::lit("0", "2", "0"));
    let mut matrices = FighterBoneMatrices::default();

    matrices.set_pose(&["root".into(), "hand".into()], &[None, Some(0)], &[root, hand], FGi32::lit("10"));

    assert_eq!(matrices.local(1), Some(hand));
    assert_eq!(matrices.get_current("hand").unwrap().get_translation(), FGVec3::lit("10", "20", "0"));
}

#[test]
fn fixed_matrix_transforms_points() {
    let transform = FixedMat4 {
        cols: [
            [FGi32::lit("2"), FGi32::zero(), FGi32::zero(), FGi32::zero()],
            [FGi32::zero(), FGi32::lit("3"), FGi32::zero(), FGi32::zero()],
            [FGi32::zero(), FGi32::zero(), FGi32::lit("4"), FGi32::zero()],
            [FGi32::lit("10"), FGi32::lit("-5"), FGi32::lit("1.5"), FGi32::one()],
        ],
    };

    assert_eq!(transform.transform_point(FGVec3::lit("1.25", "-2", "0.5")), FGVec3::lit("12.5", "-11", "3.5"));
}

#[test]
fn fixed_matrix_rotates_points_around_y() {
    let transform = FixedMat4 {
        cols: [
            [FGi32::one(), FGi32::zero(), FGi32::zero(), FGi32::zero()],
            [FGi32::zero(), FGi32::one(), FGi32::zero(), FGi32::zero()],
            [FGi32::zero(), FGi32::zero(), FGi32::one(), FGi32::zero()],
            [FGi32::lit("10"), FGi32::lit("2"), FGi32::lit("-3"), FGi32::one()],
        ],
    };

    assert_eq!(transform.rotate_y(5).transform_point(FGVec3::lit("1", "0", "0")), FGVec3::lit("10", "2", "-4"));
}

#[test]
fn fixed_matrix_builders_set_euler_rotation_and_translation() {
    let transform = FixedMat4::identity()
        .with_rotation(FGVec3::lit("0", "0", "1.5707963267948966"))
        .with_translation(FGVec3::lit("10", "2", "-3"));

    assert_eq!(transform.transform_point(FGVec3::lit("1", "0", "0")), FGVec3::lit("10", "3", "-3"));
    assert_eq!(transform.get_translation(), FGVec3::lit("10", "2", "-3"));
}

#[test]
fn fixed_matrix_rotation_builder_preserves_translation() {
    let transform = FixedMat4::identity()
        .with_translation(FGVec3::lit("4", "5", "6"))
        .with_rotation(FGVec3::lit("0", "0", "1.5707963267948966"));

    assert_eq!(transform.get_translation(), FGVec3::lit("4", "5", "6"));
}

#[test]
fn frame_count_and_missing_clips() {
    let baked = BakedFighterAnimations {
        frame_rate: BAKED_ANIMATION_FPS,
        bone_names: vec!["root".into(), "hand".into()],
        parents: vec![None, Some(0)],
        clips: vec![BakedAnimationClip { frames: vec![vec![FixedMat4::identity(); 2]; 5] }],
        clip_indices: vec![(AnimKind::Run, 0), (AnimKind::Walk, 7)],
    };
    assert_eq!(baked.frame_count(AnimKind::Run), Some(5));
    assert_eq!(baked.frame_count(AnimKind::Walk), None);
    assert_eq!(baked.frame_count(AnimKind::Wait), None);
    assert!(baked.contains_bone("hand"));
    assert!(!baked.contains_bone("foot"));
    assert!(baked.has_unique_bone_names());
    let dup = BakedFighterAnimations { bone_names: vec!["a".into(), "a".into()], ..baked };
    assert!(!dup.has_unique_bone_names());
}

#[test]
fn four_quarter_turns_give_back_the_matrix() {
    let mut m = FixedMat4::identity();
    m.translate(FGVec3::lit("1", "2", "3"));
    m.cols[0][1] = FGi32::lit("0.5");
    assert_eq!(m.rotate_y(1).rotate_y(3), m);
    assert_eq!(m.rotate_y(4), m);
}

#[test]
fn identity_product_is_neutral() {
    let mut m = FixedMat4::identity();
    m.translate(FGVec3::lit("7", "-2", "0.25"));
    m.cols[2][0] = FGi32::lit("-1.5");
    assert_eq!(FixedMat4::identity().mul(m), m);
    assert_eq!(m.mul(FixedMat4::identity()), m);
}

#[test]
fn fighter_transform_faces_and_places_the_fighter() {
    let t = FighterTranslation(FGVec2::lit("3", "4"));
    let right = t.get_3d_transform(&FighterFacingDirection::Right);
    assert_eq!(right.get_translation(), FGVec3::lit("3", "4", "0"));
    let forward = right.transform_point(FGVec3::lit("0", "0", "1"));
    assert_eq!(forward, FGVec3::lit("4", "4", "0"));
    let left = t.get_3d_transform(&FighterFacingDirection::Left);
    assert_eq!(left.transform_point(FGVec3::lit("0", "0", "1")), FGVec3::lit("2", "4", "0"));
}

#[test]
fn facing_reverses_and_signs() {
    assert_eq!(FighterFacingDirection::Left.reverse(), FighterFacingDirection::Right);
    assert_eq!(FighterFacingDirection::Right.reverse().reverse(), FighterFacingDirection::Right);
    assert_eq!(FighterFacingDirection::Left.to_sign(), FGi32::neg_one());
    assert_eq!(FighterFacingDirection::Right.to_sign(), FGi32::one());
}

fn attributes() -> FighterAttributes {
    FighterAttributes {
        base_walk_accel: FGi32::lit("0.1"),
        stick_walk_accel: FGi32::lit("0.1"),
        max_walk_vel: FGi32::lit("1.6"),
        dash_acceleration_duration: 1,
        dash_duration: 11,
        dash_initial_velocity: FGi32::lit("1.9"),
        base_dash_accel: FGi32::lit("0.02"),
        stick_dash_accel: FGi32::lit("0.1"),
        max_dash_vel: FGi32::lit("2.2"),
        jumpsquat_duration: 4,
        short_hop_vertical_velocity: FGi32::lit("2.1"),
        full_jump_vertical_velocity: FGi32::lit("3.1"),
        jump_horizontal_velocity: FGi32::lit("0.8"),
        landing_iasa: 3,
        landing_duration: 4,
        air_acceleration_base: FGi32::lit("0.02"),
        air_acceleration_stick: FGi32::lit("0.06"),
        max_air_horizontal_velocity: FGi32::lit("0.83"),
        ground_friction: FGi32::lit("0.08"),
        terminal_velocity: FGi32::lit("2.8"),
        gravity: FGi32::lit("0.17"),
        air_friction: FGi32::lit("0.02"),
        air_dodge_duration: 30,
        air_dodge_velocity: FGi32::lit("3.1"),
        air_dodge_decay: FGi32::lit("0.9"),
        air_jump_multiplier: FGi32::lit("1.2"),
        air_jump_horizontal_velocity: FGi32::lit("0.9"),
        weight: FGi32::lit("100"),
    }
}

fn hitbox(start: u32, end: u32) -> AttackHitbox {
    AttackHitbox {
        id: start,
        bone: "hand".into(),
        damage: FighterDamage::lit("10"),
        offset: FGVec3::zero(),
        radius: FGi32::lit("1"),
        angle: AttackAngle::default(),
        knockback_type: KnockbackType::make_normal(),
        knockback: Knockback::lit("10"),
        knockback_growth: FGi32::lit("100"),
        start_frame: start,
        end_frame: end,
    }
}

#[test]
fn knockback_follows_the_formula() {
    let hb = hitbox(0, 5);
    let attribs = attributes();
    let kb = hb.calculate_knockback(
        AttackKind::Jab,
        &attribs,
        FighterDamage::lit("0"),
        FighterDamage::lit("0"),
        false,
        false,
    );
    // Damage 0%: ((0 * 200 / 200) * 1.4 + 18) * (100 * 0.01) + 10 = 18 * 0.99945 + 10
    let s = (655i64 * (100 * 65536)) >> 16;
    let expected = ((1179648i64 * s) >> 16) + 10 * 65536;
    assert_eq!(kb.0.to_bits() as i64, expected);

    let crouched = hb.calculate_knockback(
        AttackKind::Jab,
        &attribs,
        FighterDamage::lit("0"),
        FighterDamage::lit("0"),
        false,
        true,
    );
    assert_eq!(crouched.0.to_bits() as i64, (43691i64 * expected) >> 16);
    let interrupted = hb.calculate_knockback(
        AttackKind::Jab,
        &attribs,
        FighterDamage::lit("0"),
        FighterDamage::lit("0"),
        true,
        true,
    );
    assert_eq!(interrupted.0.to_bits() as i64, (78643i64 * expected) >> 16);

    let damaged = hb.calculate_knockback(
        AttackKind::Jab,
        &attribs,
        FighterDamage::lit("40.5"),
        FighterDamage::lit("0"),
        false,
        false,
    );
    assert!(damaged.0.to_bits() > kb.0.to_bits());
}

#[test]
fn active_hitboxes_follow_the_frame() {
    let script = FighterAttackScript { hitboxes: vec![hitbox(0, 3), hitbox(2, 5), hitbox(6, 8)] };
    let mut list = vec![42];
    update_active_hitbox_list(&script, &mut list, 2);
    assert_eq!(list, vec![0, 1]);
    update_active_hitbox_list(&script, &mut list, 5);
    assert_eq!(list, Vec::<usize>::new());
    update_active_hitbox_list(&script, &mut list, 7);
    assert_eq!(list, vec![2]);
}

#[test]
fn attack_animations() {
    assert_eq!(AttackKind::NAir.get_animation(), AnimKind::AttackJab1);
    assert_eq!(AttackKind::Jab.get_animation(), AnimKind::AttackJab1);
    assert_eq!(AttackKind::UpTilt.get_animation(), AnimKind::AttackUpTilt);
}

#[test]
fn hurtbox_validation_reports_the_first_problem() {
    let mut h = FighterHurtbox {
        bone: " \t ".into(),
        offset: FGVec3::zero(),
        rotation: FGVec3::zero(),
        half_length: FGi32::lit("-1"),
        radius: FGi32::zero(),
    };
    assert_eq!(h.validate(), Err("bone name is empty".to_string()));
    h.bone = "chest".into();
    assert_eq!(h.validate(), Err("radius must be positive".to_string()));
    h.radius = FGi32::lit("1");
    assert_eq!(h.validate(), Err("half-length must be non-negative".to_string()));
    h.half_length = FGi32::zero();
    assert_eq!(h.validate(), Ok(()));
}

#[test]
fn animation_clock_resets_and_advances() {
    let mut f = FighterAnimationFrame::new(AnimKind::Run, true);
    f.advance();
    f.advance();
    assert_eq!(f.frame, 2);
    f.reset(AnimKind::Turn, false);
    assert_eq!(f, FighterAnimationFrame { kind: AnimKind::Turn, frame: 0, repeat: false });
    f.frame = u32::MAX;
    f.advance();
    assert_eq!(f.frame, u32::MAX);
}

#[test]
fn spawned_fighters_fall_facing_right_at_their_spawn_point() {
    let at = FGVec2::lit("-20", "10");
    let f = spawn_fighter(1, at);
    assert_eq!(f.player_handle, 1);
    assert_eq!(f.facing_direction, FighterFacingDirection::Right);
    assert_eq!(f.ecb, FighterECB { vertical_half: FGi32::lit("5.0"), horizontal_half: FGi32::lit("2.5") });
    assert_eq!(f.translation.0, at);
    assert_eq!(f.prev_translation.0, at);
    assert_eq!(f.velocity.0, FGVec2::zero());
    assert_eq!(f.state, FighterState::Fall(FallState));
    assert_eq!(f.animation_frame, FighterAnimationFrame::new(AnimKind::Wait, true));
    assert!(f.hitboxes.attack_script.is_none() && f.hitboxes.active_hitboxes.is_empty());
}

fn scene_node(id: u64, name: &str, parent: Option<u64>) -> (u64, String, Option<u64>) {
    (id, name.to_string(), parent)
}

#[test]
fn scene_nodes_bind_to_the_bone_with_their_parent_and_name() {
    let names = vec!["root".to_string(), "spine".to_string(), "hand".to_string()];
    let parents = vec![None, Some(0), Some(1)];
    // The hand comes before its parents; the scene root and the mesh bind
    // to nothing.
    let nodes = vec![
        scene_node(4, "hand", Some(3)),
        scene_node(1, "Scene", None),
        scene_node(2, "root", Some(1)),
        scene_node(3, "spine", Some(2)),
        scene_node(5, "Mesh", Some(1)),
    ];
    assert_eq!(bind_visual_bones(&names, &parents, &nodes), Ok(vec![(4, 2), (2, 0), (3, 1)]));
}

#[test]
fn a_node_under_an_unbound_bone_name_binds_to_nothing() {
    let names = vec!["root".to_string(), "spine".to_string(), "hand".to_string()];
    let parents = vec![None, Some(0), Some(1)];
    let nodes = vec![scene_node(6, "hand", None), scene_node(7, "spine", Some(6)), scene_node(8, "root", Some(99))];
    assert_eq!(bind_visual_bones(&names, &parents, &nodes), Ok(vec![(8, 0)]));
}

#[test]
fn bones_that_repeat_a_parent_and_name_are_refused() {
    let names = vec!["root".to_string(), "arm".to_string(), "arm".to_string(), "arm".to_string()];
    let parents = vec![None, Some(0), Some(1), Some(0)];
    assert_eq!(bind_visual_bones(&names, &parents, &vec![]), Err(DuplicateBone(3)));
}

#[test]
fn blank_means_what_std_trims() {
    for n in 0u32..=0x10FFFF {
        if let Some(c) = char::from_u32(n) {
            let s = c.to_string();
            assert_eq!(trimmed_is_empty(&s), s.trim().is_empty(), "U+{n:04X}");
        }
    }
    assert!(trimmed_is_empty(" \t\u{3000}\n"));
    assert!(!trimmed_is_empty(" a "));
    assert!(trimmed_is_empty(""));
}

#[test]
fn each_attack_has_its_one_script() {
    let jab = FighterAttackScript { hitboxes: vec![] };
    let up = FighterAttackScript { hitboxes: vec![hitbox(1, 2)] };
    let assets = FighterAttackScriptAssets { scripts: vec![(AttackKind::Jab, jab), (AttackKind::UpTilt, up)] };
    assert_eq!(assets.get(AttackKind::UpTilt).unwrap().hitboxes.len(), 1);
    assert_eq!(assets.get(AttackKind::Jab).unwrap().hitboxes.len(), 0);
    assert!(assets.get(AttackKind::NAir).is_none());
}
