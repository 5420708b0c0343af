use level_fit::ldtk::{
    camera_fit_inside_current_level, fitted_viewport, ldtk_world_asset_path, spawn_level,
    EntityBundleKind, IntCellBundleKind, LDTKPlugin, LevelRecord, LevelSelection, ScalingMode,
    SystemKind,
};
use level_fit::space::{Transform, Vec2i};

fn level(iid: u64, px_wid: u32, px_hei: u32, tx: i64, ty: i64) -> LevelRecord {
    LevelRecord {
        iid,
        px_wid,
        px_hei,
        translation: Vec2i { x: tx, y: ty },
    }
}

fn player_at(x: i64, y: i64) -> Option<Transform> {
    Some(Transform {
        translation: Vec2i { x, y },
    })
}

#[test]
fn bootstrap_camera_state() {
    let plan = spawn_level();
    assert_eq!(plan.camera_projection.scale, 1000);
    assert_eq!(plan.camera_projection.viewport_origin, Vec2i { x: 500, y: 500 });
    assert_eq!(plan.camera_projection.scaling_mode, ScalingMode::WindowSize);
    assert_eq!(plan.camera_transform.translation, Vec2i { x: 320_000, y: 180_000 });
}

#[test]
fn bootstrap_asset_path() {
    assert_eq!(ldtk_world_asset_path(), "maps/test_map/test.ldtk");
}

#[test]
fn plugin_dispatch_table() {
    let plan = LDTKPlugin.build();
    assert_eq!(plan.int_cell_registrations.len(), 2);
    assert_eq!(plan.int_cell_registrations[0].cell_value, 1);
    assert_eq!(plan.int_cell_registrations[0].bundle, IntCellBundleKind::Wall);
    assert_eq!(plan.int_cell_registrations[1].cell_value, 2);
    assert_eq!(plan.int_cell_registrations[1].bundle, IntCellBundleKind::Wall);
    assert_eq!(plan.entity_registrations, vec![EntityBundleKind::Player]);
    assert_eq!(plan.initial_level_selection, LevelSelection::Index(0));
    assert_eq!(plan.startup_systems, vec![SystemKind::SpawnLevel]);
    assert_eq!(
        plan.update_systems,
        vec![
            SystemKind::ProcessPlayer,
            SystemKind::MovePlayer,
            SystemKind::CameraFitInsideCurrentLevel,
        ]
    );
}

#[test]
fn fitted_viewport_wide_level() {
    // 1600 x 800 has ratio 2.0, wider than 16/9: fit to height snapped to
    // the 9-pixel grid, round(800 / 9) * 9 = 89 * 9 = 801, width derived as
    // 801 / 9 * 16 = 1424.
    let l = level(1, 1600, 800, 0, 0);
    let (w, h) = fitted_viewport(&l);
    assert_eq!(h, 801);
    assert_eq!(w, 1424);
    assert_eq!(h % 9, 0);
    assert_eq!(9 * w, 16 * h);
}

#[test]
fn fitted_viewport_tall_level() {
    // 800 x 1600 is taller than 16/9: fit to width snapped to the 16-pixel
    // grid, round(800 / 16) * 16 = 800, height derived as 800 / 16 * 9 = 450.
    let l = level(1, 800, 1600, 0, 0);
    let (w, h) = fitted_viewport(&l);
    assert_eq!(w, 800);
    assert_eq!(h, 450);
    assert_eq!(w % 16, 0);
    assert_eq!(9 * w, 16 * h);
}

#[test]
fn fitted_viewport_square_level_uses_tall_branch() {
    let l = level(1, 100, 100, 0, 0);
    let (w, h) = fitted_viewport(&l);
    // round(100 / 16) * 16 = 6 * 16 = 96, height 6 * 9 = 54.
    assert_eq!(w, 96);
    assert_eq!(h, 54);
}

#[test]
fn fitted_viewport_exact_aspect_uses_tall_branch() {
    // 1600 x 900 is exactly 16/9; the comparison is strict, so the
    // width-snapping branch applies and reproduces the level exactly.
    let l = level(1, 1600, 900, 0, 0);
    let (w, h) = fitted_viewport(&l);
    assert_eq!(w, 1600);
    assert_eq!(h, 900);
}

#[test]
fn camera_follows_player_in_wide_level() {
    let mut projection = spawn_level().camera_projection;
    let mut camera = spawn_level().camera_transform;
    let levels = vec![level(1, 1600, 800, 0, 0)];
    let sel = LevelSelection::Index(0);
    camera_fit_inside_current_level(
        &mut projection,
        &mut camera,
        player_at(800_000, 50_000),
        &levels,
        &sel,
    );
    assert_eq!(projection.viewport_origin, Vec2i { x: 0, y: 0 });
    assert_eq!(projection.scaling_mode, ScalingMode::Fixed { width: 1424, height: 801 });
    assert_eq!(projection.scale, 1000);
    // offset = clamp(800000 - 0 - 1424 * 500, 0, (1600 - 1424) * 1000)
    //        = clamp(88000, 0, 176000) = 88000; the wide branch pins y to 0.
    assert_eq!(camera.translation, Vec2i { x: 88_000, y: 0 });
}

#[test]
fn camera_clamps_at_level_edges() {
    let levels = vec![level(1, 1600, 800, 0, 0)];
    let sel = LevelSelection::Index(0);

    let mut projection = spawn_level().camera_projection;
    let mut camera = spawn_level().camera_transform;
    camera_fit_inside_current_level(&mut projection, &mut camera, player_at(0, 0), &levels, &sel);
    assert_eq!(camera.translation, Vec2i { x: 0, y: 0 });

    let mut projection = spawn_level().camera_projection;
    let mut camera = spawn_level().camera_transform;
    camera_fit_inside_current_level(
        &mut projection,
        &mut camera,
        player_at(1_600_000, 0),
        &levels,
        &sel,
    );
    // Pinned to the far edge: (1600 - 1424) * 1000.
    assert_eq!(camera.translation, Vec2i { x: 176_000, y: 0 });
}

#[test]
fn camera_tracks_vertically_in_tall_level() {
    let mut projection = spawn_level().camera_projection;
    let mut camera = spawn_level().camera_transform;
    let levels = vec![level(1, 800, 1600, 5_000, 7_000)];
    let sel = LevelSelection::Index(0);
    camera_fit_inside_current_level(
        &mut projection,
        &mut camera,
        player_at(400_000, 807_000),
        &levels,
        &sel,
    );
    assert_eq!(projection.scaling_mode, ScalingMode::Fixed { width: 800, height: 450 });
    // offset = clamp(807000 - 7000 - 450 * 500, 0, (1600 - 450) * 1000) = 575000,
    // then the level origin is added back on both axes.
    assert_eq!(camera.translation, Vec2i { x: 5_000, y: 582_000 });
}

#[test]
fn camera_level_narrower_than_viewport_pins_to_origin() {
    // A 25 x 14 level is wide (9 * 25 > 16 * 14) and fits to height 18,
    // width 32: larger than the level itself. The collapsed clamp range
    // resolves to the level origin, never a negative offset.
    let mut projection = spawn_level().camera_projection;
    let mut camera = spawn_level().camera_transform;
    let levels = vec![level(1, 25, 14, 0, 0)];
    let sel = LevelSelection::Index(0);
    camera_fit_inside_current_level(&mut projection, &mut camera, player_at(0, 0), &levels, &sel);
    assert_eq!(projection.scaling_mode, ScalingMode::Fixed { width: 32, height: 18 });
    assert_eq!(camera.translation, Vec2i { x: 0, y: 0 });
    assert!(camera.translation.x >= 0);
}

#[test]
fn camera_unchanged_without_player() {
    let mut projection = spawn_level().camera_projection;
    let mut camera = spawn_level().camera_transform;
    let levels = vec![level(1, 1600, 800, 0, 0)];
    let sel = LevelSelection::Index(0);
    camera_fit_inside_current_level(&mut projection, &mut camera, None, &levels, &sel);
    assert_eq!(projection, spawn_level().camera_projection);
    assert_eq!(camera.translation, Vec2i { x: 320_000, y: 180_000 });
}

#[test]
fn camera_unchanged_when_no_level_matches() {
    let mut projection = spawn_level().camera_projection;
    let mut camera = spawn_level().camera_transform;
    let levels = vec![level(1, 1600, 800, 0, 0), level(2, 800, 1600, 0, 0)];
    let sel = LevelSelection::Index(5);
    camera_fit_inside_current_level(
        &mut projection,
        &mut camera,
        player_at(100_000, 100_000),
        &levels,
        &sel,
    );
    assert_eq!(projection, spawn_level().camera_projection);
    assert_eq!(camera.translation, Vec2i { x: 320_000, y: 180_000 });
}

#[test]
fn camera_selection_by_identifier_picks_matching_level() {
    let mut projection = spawn_level().camera_projection;
    let mut camera = spawn_level().camera_transform;
    let levels = vec![level(7, 1600, 800, 0, 0), level(9, 800, 1600, 0, 0)];
    let sel = LevelSelection::Iid(9);
    camera_fit_inside_current_level(
        &mut projection,
        &mut camera,
        player_at(0, 0),
        &levels,
        &sel,
    );
    assert_eq!(projection.scaling_mode, ScalingMode::Fixed { width: 800, height: 450 });
}

#[test]
fn camera_last_matching_level_wins() {
    // Several loaded levels can match an identifier selection; the fit of
    // the last one in load order is what survives the pass.
    let mut projection = spawn_level().camera_projection;
    let mut camera = spawn_level().camera_transform;
    let levels = vec![level(7, 1600, 800, 0, 0), level(7, 800, 1600, 0, 0)];
    let sel = LevelSelection::Iid(7);
    camera_fit_inside_current_level(
        &mut projection,
        &mut camera,
        player_at(0, 0),
        &levels,
        &sel,
    );
    assert_eq!(projection.scaling_mode, ScalingMode::Fixed { width: 800, height: 450 });
}

#[test]
fn camera_exact_fit_level_sits_on_level_origin() {
    // A level that matches the fitted viewport exactly leaves no slack: the
    // clamp range is [0, 0] and the camera sits on the level origin.
    let mut projection = spawn_level().camera_projection;
    let mut camera = spawn_level().camera_transform;
    let levels = vec![level(1, 1600, 900, 0, 0)];
    let sel = LevelSelection::Index(0);
    camera_fit_inside_current_level(
        &mut projection,
        &mut camera,
        player_at(1_000_000, 333_000),
        &levels,
        &sel,
    );
    assert_eq!(projection.scaling_mode, ScalingMode::Fixed { width: 1600, height: 900 });
    assert_eq!(camera.translation, Vec2i { x: 0, y: 0 });
}

#[test]
fn camera_fit_twice_is_idempotent() {
    let mut projection = spawn_level().camera_projection;
    let mut camera = spawn_level().camera_transform;
    let levels = vec![level(1, 1600, 800, 12_000, 3_000)];
    let sel = LevelSelection::Index(0);
    let player = player_at(500_000, 90_000);
    camera_fit_inside_current_level(&mut projection, &mut camera, player, &levels, &sel);
    let projection_once = projection;
    let camera_once = camera;
    camera_fit_inside_current_level(&mut projection, &mut camera, player, &levels, &sel);
    assert_eq!(projection, projection_once);
    assert_eq!(camera, camera_once);
}
