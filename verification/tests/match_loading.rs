use game_test::fighter::animation::AnimKind;
use game_test::fighter::attributes::FighterAttributes;
use game_test::fighter::baked_animation::{BakedAnimationClip, BakedFighterAnimations, FixedMat4};
use game_test::fighter::manifest::{
    prepare_fighter_manifests, FighterId, FighterManifest, ManifestError,
};
use game_test::fighter::FighterCameraProfile;
use game_test::match_loading::{
    check_match_assets, default_match_request, spawn_position, spawn_position_fits, valid_player_handles,
    CharacterAssets,
    MatchError, MatchPlayer, PendingMatch, StageId,
};
use game_test::math::scalar::FGi32;

#[test]
fn match_request_keeps_duplicate_fighter_slots() {
    let request = PendingMatch {
        stage: StageId::TestStage,
        players: vec![
            MatchPlayer { handle: 0, fighter: FighterId::TestFighter },
            MatchPlayer { handle: 1, fighter: FighterId::TestFighter },
        ],
    };

    assert_eq!(request.players.len(), 2);
    assert_eq!(request.players[0].handle, 0);
    assert_eq!(request.players[1].handle, 1);
    assert!(valid_player_handles(&request.players));
}

#[test]
fn player_handles_must_match_the_session_range() {
    let players = [
        MatchPlayer { handle: 0, fighter: FighterId::TestFighter },
        MatchPlayer { handle: 0, fighter: FighterId::TestFighter },
    ];

    assert!(!valid_player_handles(&players));
}

#[test]
fn handle_ranges() {
    let p = |h| MatchPlayer { handle: h, fighter: FighterId::TestFighter };
    assert!(valid_player_handles(&[p(2), p(0), p(1)]));
    assert!(!valid_player_handles(&[p(0), p(2)]));
    assert!(valid_player_handles(&[]));
    let default = default_match_request(3);
    assert_eq!(default.stage, StageId::TestStage);
    assert!(valid_player_handles(&default.players));
    assert_eq!(default.players[2], p(2));
}

#[test]
fn spawn_positions_spread_around_the_centre() {
    assert_eq!(spawn_position(0, 2).x, FGi32::lit("-5"));
    assert_eq!(spawn_position(1, 2).x, FGi32::lit("5"));
    assert_eq!(spawn_position(0, 1).x, FGi32::zero());
    assert_eq!(spawn_position(2, 4).y, FGi32::lit("12.5"));
}

fn attributes() -> FighterAttributes {
    let z = FGi32::zero();
    FighterAttributes {
        base_walk_accel: z,
        stick_walk_accel: z,
        max_walk_vel: z,
        dash_acceleration_duration: 0,
        dash_duration: 0,
        dash_initial_velocity: z,
        base_dash_accel: z,
        stick_dash_accel: z,
        max_dash_vel: z,
        jumpsquat_duration: 0,
        short_hop_vertical_velocity: z,
        full_jump_vertical_velocity: z,
        jump_horizontal_velocity: z,
        landing_iasa: 0,
        landing_duration: 0,
        air_acceleration_base: z,
        air_acceleration_stick: z,
        max_air_horizontal_velocity: z,
        ground_friction: z,
        terminal_velocity: z,
        gravity: z,
        air_friction: z,
        air_dodge_duration: 0,
        air_dodge_velocity: z,
        air_dodge_decay: z,
        air_jump_multiplier: z,
        air_jump_horizontal_velocity: z,
        weight: z,
    }
}

fn manifest(animations: Vec<(AnimKind, String)>) -> FighterManifest {
    let one = FGi32::one();
    FighterManifest {
        id: FighterId::TestFighter,
        model_path: "fighters/test.glb".into(),
        model_scale: one,
        baked_animation_path: "fighters/test.baked".into(),
        attributes: attributes(),
        camera: FighterCameraProfile {
            vertical_origin_offset: one,
            forward_extent: one,
            backward_extent: one,
            upward_extent: one,
            downward_extent: one,
            visibility_radius: one,
        },
        animations,
        attack_scripts: vec![],
        hurtboxes: vec![],
    }
}

fn all_animations() -> Vec<(AnimKind, String)> {
    AnimKind::all().into_iter().map(|k| (k, format!("{:?}", k))).collect()
}

#[test]
fn manifests_are_checked_in_order() {
    let good = manifest(all_animations());
    let registry = prepare_fighter_manifests(&vec![Some(&good)]).unwrap();
    assert_eq!(registry.get(FighterId::TestFighter), Some(0));

    assert_eq!(prepare_fighter_manifests(&vec![None]).unwrap_err(), ManifestError::Unavailable);
    assert_eq!(
        prepare_fighter_manifests(&vec![]).unwrap_err(),
        ManifestError::NotConfigured(FighterId::TestFighter)
    );
    assert_eq!(
        prepare_fighter_manifests(&vec![Some(&good), Some(&good)]).unwrap_err(),
        ManifestError::Duplicate(FighterId::TestFighter)
    );
    let mut missing = all_animations();
    missing.retain(|(k, _)| *k != AnimKind::Turn);
    let partial = manifest(missing);
    assert_eq!(
        prepare_fighter_manifests(&vec![Some(&partial)]).unwrap_err(),
        ManifestError::MissingAnimation(FighterId::TestFighter, AnimKind::Turn)
    );
    let mut bad = manifest(all_animations());
    bad.model_scale = FGi32::zero();
    assert_eq!(
        prepare_fighter_manifests(&vec![Some(&bad)]).unwrap_err(),
        ManifestError::NonPositiveModelScale(FighterId::TestFighter)
    );
    bad.model_path = String::new();
    assert_eq!(
        prepare_fighter_manifests(&vec![Some(&bad)]).unwrap_err(),
        ManifestError::EmptyModelPath(FighterId::TestFighter)
    );
    let mut camera = manifest(all_animations());
    camera.camera.downward_extent = FGi32::lit("-1");
    assert_eq!(
        prepare_fighter_manifests(&vec![Some(&camera)]).unwrap_err(),
        ManifestError::InvalidCameraProfile(FighterId::TestFighter)
    );
    let mut baked_path = manifest(all_animations());
    baked_path.baked_animation_path = String::new();
    assert_eq!(
        prepare_fighter_manifests(&vec![Some(&baked_path)]).unwrap_err(),
        ManifestError::EmptyBakedAnimationPath(FighterId::TestFighter)
    );
}

fn baked(kinds: &[AnimKind]) -> BakedFighterAnimations {
    BakedFighterAnimations {
        frame_rate: 60,
        bone_names: vec!["root".into()],
        parents: vec![None],
        clips: vec![BakedAnimationClip { frames: vec![vec![FixedMat4::identity()]] }],
        clip_indices: kinds.iter().map(|k| (*k, 0)).collect(),
    }
}

#[test]
fn match_assets_are_checked_per_character() {
    let players = vec![
        MatchPlayer { handle: 0, fighter: FighterId::TestFighter },
        MatchPlayer { handle: 1, fighter: FighterId::TestFighter },
    ];
    let m = manifest(vec![(AnimKind::Wait, "idle".into()), (AnimKind::Run, "run".into())]);
    let b = baked(&[AnimKind::Wait, AnimKind::Run]);
    let character = |names: Vec<&str>| CharacterAssets {
        fighter: FighterId::TestFighter,
        manifest: Some(&m),
        model_clip_names: Some(names.into_iter().map(String::from).collect()),
        model_has_scene: true,
        baked: Some(&b),
    };
    assert!(check_match_assets(&players, &vec![character(vec!["idle", "run"]), character(vec![])]).is_ok());
    match check_match_assets(&players, &vec![character(vec!["idle"]), character(vec![])]) {
        Err(MatchError::MissingClip(FighterId::TestFighter, name)) => assert_eq!(name, "run"),
        other => panic!("unexpected {:?}", other),
    }
    assert!(matches!(
        check_match_assets(&players, &vec![character(vec!["idle", "run"])]),
        Err(MatchError::AssetCountMismatch)
    ));
    let dup = vec![players[0], players[0]];
    assert!(matches!(
        check_match_assets(&dup, &vec![character(vec!["idle", "run"]), character(vec![])]),
        Err(MatchError::InvalidPlayerHandles)
    ));
    let mut no_scene = character(vec!["idle", "run"]);
    no_scene.model_has_scene = false;
    assert!(matches!(
        check_match_assets(&players, &vec![no_scene, character(vec![])]),
        Err(MatchError::NoScene)
    ));
    let b2 = baked(&[AnimKind::Wait]);
    let mut unbaked = character(vec!["idle", "run"]);
    unbaked.baked = Some(&b2);
    assert!(matches!(
        check_match_assets(&players, &vec![unbaked, character(vec![])]),
        Err(MatchError::MissingBakedAnimation(FighterId::TestFighter, AnimKind::Run))
    ));
    let no_wait = manifest(vec![(AnimKind::Run, "run".into())]);
    let mut nw = character(vec!["run"]);
    nw.manifest = Some(&no_wait);
    assert!(matches!(check_match_assets(&players, &vec![nw, character(vec![])]), Err(MatchError::NoWaitAnimation)));
    let mut gone = character(vec![]);
    gone.manifest = None;
    assert!(matches!(check_match_assets(&players, &vec![gone, character(vec![])]), Err(MatchError::ManifestUnavailable)));
}

#[test]
fn spawn_positions_fit_for_ordinary_player_counts() {
    assert!(spawn_position_fits(0, 4));
    assert!(spawn_position_fits(3, 4));
    assert!(spawn_position_fits(6553, 6554));
    assert!(!spawn_position_fits(0, 6555));
    assert!(!spawn_position_fits(10000, 1));
}
