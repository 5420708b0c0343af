//! Level bookkeeping and the level-fit camera controller.
//!
//! The controller keeps a fixed 16:9 camera framed inside the currently
//! selected level: it fits the viewport to the level's shorter proportion,
//! snaps the fitted dimension to a coarse grid to avoid sub-pixel seams at
//! level boundaries, and clamps the camera so the player stays centred along
//! the tracked axis without ever exposing area outside the level.
//!
//! Level pixel dimensions are whole pixels (one pixel is one world unit);
//! positions and translations are milli-units, as everywhere in the crate.

use crate::player::PlayerPlugin;
use crate::space::{
    clamp_offset, lemma_snap_div, lemma_snap_is_multiple, snap_to_grid_u64, spec_clamp_offset,
    spec_snap_to_grid, Transform, Vec2i,
};
use vstd::prelude::*;

verus! {

/// Target aspect ratio of the camera viewport, as the exact pair 16:9.
pub const ASPECT_RATIO_WIDTH: u64 = 16;

pub const ASPECT_RATIO_HEIGHT: u64 = 9;

/// Baseline projection scale (1.0) in milli-units; the controller corrects
/// the viewport every tick, so the value only has to be stable.
pub const CAMERA_SCALE_MILLI: i64 = 1000;

/// Initial camera focus before any level geometry exists: a quarter of the
/// nominal 1280x720 reference resolution, in milli-units.
pub const INITIAL_CAMERA_X_MILLI: i64 = 320_000;

pub const INITIAL_CAMERA_Y_MILLI: i64 = 180_000;

/// Centered viewport origin (0.5, 0.5) in milli-units, the projection
/// baseline before the controller switches to the bottom-left convention.
pub const CENTERED_VIEWPORT_ORIGIN_MILLI: i64 = 500;

/// One loaded level: a stable identifier, its pixel dimensions, and the
/// world-space origin of its bottom-left corner.
#[derive(Clone, Copy, PartialEq, Eq, Structural, Debug)]
pub struct LevelRecord {
    pub iid: u64,
    pub px_wid: u32,
    pub px_hei: u32,
    pub translation: Vec2i,
}

impl LevelRecord {
    /// A level has positive pixel dimensions and an in-range origin.
    pub open spec fn wf(self) -> bool {
        &&& self.px_wid >= 1
        &&& self.px_hei >= 1
        &&& self.translation.wf()
    }
}

/// Which loaded level currently governs camera framing: chosen by position
/// in the loaded-level list, or by stable identifier.
#[derive(Clone, Copy, PartialEq, Eq, Structural, Debug)]
pub enum LevelSelection {
    Index(usize),
    Iid(u64),
}

impl LevelSelection {
    /// Whether the level at position `index` is the selected one.
    pub open spec fn spec_is_match(self, index: int, level: LevelRecord) -> bool {
        match self {
            LevelSelection::Index(i) => i as int == index,
            LevelSelection::Iid(id) => id == level.iid,
        }
    }

    pub fn is_match(&self, index: usize, level: &LevelRecord) -> (r: bool)
        ensures
            r == self.spec_is_match(index as int, *level),
    {
        match self {
            LevelSelection::Index(i) => *i == index,
            LevelSelection::Iid(id) => *id == level.iid,
        }
    }
}

/// How the projection maps world units to the window.
#[derive(Clone, Copy, PartialEq, Eq, Structural, Debug)]
pub enum ScalingMode {
    /// Follow the window size; the bootstrap default.
    WindowSize,
    /// A fixed viewport of `width` x `height` world units (whole pixels).
    Fixed { width: u64, height: u64 },
}

/// The orthographic projection state the controller owns: scale,
/// viewport origin (milli-units of the viewport extent), and scaling mode.
#[derive(Clone, Copy, PartialEq, Eq, Structural, Debug)]
pub struct OrthographicProjection {
    pub scale: i64,
    pub viewport_origin: Vec2i,
    pub scaling_mode: ScalingMode,
}

/// A level is wider than the target aspect ratio exactly when
/// `px_wid / px_hei > 16 / 9`, compared without rounding.
pub open spec fn spec_level_is_wide(level: LevelRecord) -> bool {
    (ASPECT_RATIO_HEIGHT as int) * (level.px_wid as int) > (ASPECT_RATIO_WIDTH as int) * (
    level.px_hei as int)
}

/// The fitted viewport (width, height) in whole pixels. A wide level fits to
/// height snapped to a 9-pixel grid and derives the width; any other level
/// fits to width snapped to a 16-pixel grid and derives the height. Both
/// derived dimensions are exact, so the pair always satisfies
/// `9 * width == 16 * height`.
pub open spec fn spec_fitted_dims(level: LevelRecord) -> (int, int) {
    if spec_level_is_wide(level) {
        let height = spec_snap_to_grid(level.px_hei as int, ASPECT_RATIO_HEIGHT as int);
        ((height / 9) * 16, height)
    } else {
        let width = spec_snap_to_grid(level.px_wid as int, ASPECT_RATIO_WIDTH as int);
        (width, (width / 16) * 9)
    }
}

pub open spec fn spec_fitted_width(level: LevelRecord) -> int {
    spec_fitted_dims(level).0
}

pub open spec fn spec_fitted_height(level: LevelRecord) -> int {
    spec_fitted_dims(level).1
}

/// Compute the fitted viewport for a level.
pub fn fitted_viewport(level: &LevelRecord) -> (dims: (u64, u64))
    requires
        level.wf(),
    ensures
        dims.0 == spec_fitted_width(*level),
        dims.1 == spec_fitted_height(*level),
        dims.0 <= 7_700_000_000u64,
        dims.1 <= 4_294_967_310u64,
{
    if ASPECT_RATIO_HEIGHT * (level.px_wid as u64) > ASPECT_RATIO_WIDTH * (level.px_hei as u64) {
        let height = snap_to_grid_u64(level.px_hei as u64, ASPECT_RATIO_HEIGHT);
        ((height / 9) * 16, height)
    } else {
        let width = snap_to_grid_u64(level.px_wid as u64, ASPECT_RATIO_WIDTH);
        (width, (width / 16) * 9)
    }
}

/// A wide level's fitted height is the 9-snapped level height, a multiple of
/// 9, and the fitted width matches it in the exact ratio 16:9.
pub proof fn lemma_fitted_viewport_wide(level: LevelRecord)
    requires
        level.wf(),
        spec_level_is_wide(level),
    ensures
        spec_fitted_height(level) == spec_snap_to_grid(level.px_hei as int, 9),
        spec_fitted_height(level) % 9 == 0,
        9 * spec_fitted_width(level) == 16 * spec_fitted_height(level),
{
    lemma_snap_is_multiple(level.px_hei as int, 9);
    lemma_snap_div(level.px_hei as int, 9);
    let q: int = (level.px_hei as int + 4) / 9;
    assert(spec_fitted_height(level) == q * 9);
    assert(spec_fitted_width(level) == q * 16);
}

/// Any other level's fitted width is the 16-snapped level width, a multiple
/// of 16, and the fitted height matches it in the exact ratio 16:9.
pub proof fn lemma_fitted_viewport_tall(level: LevelRecord)
    requires
        level.wf(),
        !spec_level_is_wide(level),
    ensures
        spec_fitted_width(level) == spec_snap_to_grid(level.px_wid as int, 16),
        spec_fitted_width(level) % 16 == 0,
        9 * spec_fitted_width(level) == 16 * spec_fitted_height(level),
{
    lemma_snap_is_multiple(level.px_wid as int, 16);
    lemma_snap_div(level.px_wid as int, 16);
    let q: int = (level.px_wid as int + 8) / 16;
    assert(spec_fitted_width(level) == q * 16);
    assert(spec_fitted_height(level) == q * 9);
}

/// The projection after fitting to `level`: bottom-left viewport origin and
/// a fixed viewport of the fitted dimensions. The scale is left as it is.
pub open spec fn spec_fit_projection(
    proj: OrthographicProjection,
    level: LevelRecord,
) -> OrthographicProjection {
    OrthographicProjection {
        scale: proj.scale,
        viewport_origin: Vec2i { x: 0, y: 0 },
        scaling_mode: ScalingMode::Fixed {
            width: spec_fitted_width(level) as u64,
            height: spec_fitted_height(level) as u64,
        },
    }
}

/// The camera transform after fitting to `level` with the player at
/// `player`. Along the fitted axis the camera follows the player, centred
/// (half the fitted dimension subtracted) and clamped to `[0, level - fitted]`
/// in level-local coordinates; the other axis is pinned to 0. The level's own
/// origin is then added to both axes, giving world-space coordinates.
pub open spec fn spec_fit_transform(player: Vec2i, level: LevelRecord) -> Transform {
    if spec_level_is_wide(level) {
        let width = spec_fitted_width(level);
        let off = spec_clamp_offset(
            player.x - level.translation.x - width * 500,
            (level.px_wid as int - width) * 1000,
        );
        Transform {
            translation: Vec2i { x: (off + level.translation.x) as i64, y: level.translation.y },
        }
    } else {
        let height = spec_fitted_height(level);
        let off = spec_clamp_offset(
            player.y - level.translation.y - height * 500,
            (level.px_hei as int - height) * 1000,
        );
        Transform {
            translation: Vec2i { x: level.translation.x, y: (off + level.translation.y) as i64 },
        }
    }
}

/// The fitted camera never shows area outside the level along the tracked
/// axis: its level-local offset (world position minus the level origin) is
/// at least 0 and at most `max(0, (level_dimension - fitted_dimension) *
/// 1000)`, whatever the player position. In a wide level the tracked axis
/// is x and y is pinned to the level origin; in a tall level the roles are
/// mirrored.
pub proof fn lemma_fit_transform_inside_level(player: Vec2i, level: LevelRecord)
    requires
        player.wf(),
        level.wf(),
    ensures
        ({
            let fitted = spec_fit_transform(player, level);
            if spec_level_is_wide(level) {
                let bound = (level.px_wid as int - spec_fitted_width(level)) * 1000;
                let off = fitted.translation.x - level.translation.x;
                &&& 0 <= off
                &&& off <= (if bound >= 0 { bound } else { 0 })
                &&& fitted.translation.y == level.translation.y
            } else {
                let bound = (level.px_hei as int - spec_fitted_height(level)) * 1000;
                let off = fitted.translation.y - level.translation.y;
                &&& 0 <= off
                &&& off <= (if bound >= 0 { bound } else { 0 })
                &&& fitted.translation.x == level.translation.x
            }
        }),
{
    if spec_level_is_wide(level) {
        let width = spec_fitted_width(level);
        let q: int = (level.px_hei as int + 4) / 9;
        lemma_snap_div(level.px_hei as int, 9);
        vstd::arithmetic::div_mod::lemma_fundamental_div_mod(level.px_hei as int + 4, 9);
        assert(q >= 0);
        assert(width == q * 16);
        assert(width >= 0);
        let upper = (level.px_wid as int - width) * 1000;
        let off = spec_clamp_offset(player.x - level.translation.x - width * 500, upper);
        crate::space::lemma_clamp_offset_bounds(
            player.x - level.translation.x - width * 500,
            upper,
        );
        assert(upper <= (level.px_wid as int) * 1000);
        assert(off + level.translation.x <= i64::MAX);
        assert(off + level.translation.x >= i64::MIN);
    } else {
        let height = spec_fitted_height(level);
        let q: int = (level.px_wid as int + 8) / 16;
        lemma_snap_div(level.px_wid as int, 16);
        vstd::arithmetic::div_mod::lemma_fundamental_div_mod(level.px_wid as int + 8, 16);
        assert(q >= 0);
        assert(height == q * 9);
        assert(height >= 0);
        let upper = (level.px_hei as int - height) * 1000;
        let off = spec_clamp_offset(player.y - level.translation.y - height * 500, upper);
        crate::space::lemma_clamp_offset_bounds(
            player.y - level.translation.y - height * 500,
            upper,
        );
        assert(upper <= (level.px_hei as int) * 1000);
        assert(off + level.translation.y <= i64::MAX);
        assert(off + level.translation.y >= i64::MIN);
    }
}

/// Position of the last level among the first `n` that matches the
/// selection, if any. The last match is the one whose fit survives a pass
/// over the whole level list.
pub open spec fn spec_last_match_upto(
    levels: Seq<LevelRecord>,
    sel: LevelSelection,
    n: int,
) -> Option<int>
    recommends
        0 <= n <= levels.len(),
    decreases n,
{
    if n <= 0 {
        None
    } else if sel.spec_is_match(n - 1, levels[n - 1]) {
        Some(n - 1)
    } else {
        spec_last_match_upto(levels, sel, n - 1)
    }
}

/// Camera state after a pass over the first `n` levels: unchanged when no
/// level matches the selection, otherwise fitted to the last match.
pub open spec fn spec_camera_after_upto(
    proj: OrthographicProjection,
    trans: Transform,
    player: Vec2i,
    levels: Seq<LevelRecord>,
    sel: LevelSelection,
    n: int,
) -> (OrthographicProjection, Transform) {
    match spec_last_match_upto(levels, sel, n) {
        None => (proj, trans),
        Some(i) => (spec_fit_projection(proj, levels[i]), spec_fit_transform(player, levels[i])),
    }
}

/// Camera state after one controller tick: unchanged when there is no player
/// or no level matches the selection, otherwise fitted to the selected level.
pub open spec fn spec_camera_after(
    proj: OrthographicProjection,
    trans: Transform,
    player: Option<Transform>,
    levels: Seq<LevelRecord>,
    sel: LevelSelection,
) -> (OrthographicProjection, Transform) {
    match player {
        None => (proj, trans),
        Some(p) => spec_camera_after_upto(
            proj,
            trans,
            p.translation,
            levels,
            sel,
            levels.len() as int,
        ),
    }
}

/// One tick of the level-fit camera controller.
///
/// `player` is the player's transform if a player entity currently exists
/// (absence is an explicit no-op, not an error); `levels` are all loaded
/// levels in their load order. Every level is inspected, and only those that
/// match the selection mutate the camera, so the controller tolerates several
/// simultaneously loaded levels. When the fitted viewport is larger than the
/// level along the tracked axis, the collapsed clamp range resolves to the
/// level origin (offset 0) rather than a negative offset.
pub fn camera_fit_inside_current_level(
    projection: &mut OrthographicProjection,
    camera_transform: &mut Transform,
    player: Option<Transform>,
    levels: &Vec<LevelRecord>,
    level_selection: &LevelSelection,
)
    requires
        player matches Some(p) ==> p.wf(),
        forall|i: int| 0 <= i < levels@.len() ==> (#[trigger] levels@[i]).wf(),
    ensures
        *final(projection) == spec_camera_after(
            *old(projection),
            *old(camera_transform),
            player,
            levels@,
            *level_selection,
        ).0,
        *final(camera_transform) == spec_camera_after(
            *old(projection),
            *old(camera_transform),
            player,
            levels@,
            *level_selection,
        ).1,
{
    let p: Transform = match player {
        Some(p) => p,
        None => {
            return ;
        },
    };
    let ghost proj0 = *projection;
    let ghost trans0 = *camera_transform;
    let mut proj: OrthographicProjection = *projection;
    let mut trans: Transform = *camera_transform;
    let mut idx: usize = 0;
    while idx < levels.len()
        invariant
            idx <= levels@.len(),
            player == Some(p),
            p.wf(),
            forall|i: int| 0 <= i < levels@.len() ==> (#[trigger] levels@[i]).wf(),
            (proj, trans) == spec_camera_after_upto(
                proj0,
                trans0,
                p.translation,
                levels@,
                *level_selection,
                idx as int,
            ),
        decreases levels@.len() - idx,
    {
        let level: &LevelRecord = &levels[idx];
        if level_selection.is_match(idx, level) {
            proof {
                assert(proj.scale == proj0.scale) by {
                    if spec_last_match_upto(levels@, *level_selection, idx as int) is Some {
                    }
                }
            }
            let dims = fitted_viewport(level);
            proj.viewport_origin = Vec2i { x: 0, y: 0 };
            proj.scaling_mode = ScalingMode::Fixed { width: dims.0, height: dims.1 };
            if ASPECT_RATIO_HEIGHT * (level.px_wid as u64) > ASPECT_RATIO_WIDTH * (
            level.px_hei as u64) {
                let width: i64 = dims.0 as i64;
                let v: i64 = p.translation.x - level.translation.x - width * 500;
                let upper: i64 = (level.px_wid as i64) * 1000 - width * 1000;
                let off: i64 = clamp_offset(v, upper);
                trans =
                Transform {
                    translation: Vec2i {
                        x: off + level.translation.x,
                        y: level.translation.y,
                    },
                };
            } else {
                let height: i64 = dims.1 as i64;
                let v: i64 = p.translation.y - level.translation.y - height * 500;
                let upper: i64 = (level.px_hei as i64) * 1000 - height * 1000;
                let off: i64 = clamp_offset(v, upper);
                trans =
                Transform {
                    translation: Vec2i {
                        x: level.translation.x,
                        y: off + level.translation.y,
                    },
                };
            }
            proof {
                assert(trans == spec_fit_transform(p.translation, levels@[idx as int]));
                assert(proj == spec_fit_projection(proj0, levels@[idx as int]));
            }
        }
        proof {
            assert(spec_last_match_upto(levels@, *level_selection, idx as int + 1) == (
            if level_selection.spec_is_match(idx as int, levels@[idx as int]) {
                Some(idx as int)
            } else {
                spec_last_match_upto(levels@, *level_selection, idx as int)
            }));
        }
        idx += 1;
    }
    *projection = proj;
    *camera_transform = trans;
}

/// The systems this crate contributes, named so the host scheduler can be
/// configured from plain data.
#[derive(Clone, Copy, PartialEq, Eq, Structural, Debug)]
pub enum SystemKind {
    SpawnLevel,
    CameraFitInsideCurrentLevel,
    ProcessPlayer,
    MovePlayer,
}

/// Which bundle a solid int-grid cell value is materialized as.
#[derive(Clone, Copy, PartialEq, Eq, Structural, Debug)]
pub enum IntCellBundleKind {
    Wall,
}

/// Which bundle a named level entity is materialized as.
#[derive(Clone, Copy, PartialEq, Eq, Structural, Debug)]
pub enum EntityBundleKind {
    Player,
}

/// One entry of the int-grid dispatch table: cells holding `cell_value` get
/// the named bundle.
#[derive(Clone, Copy, PartialEq, Eq, Structural, Debug)]
pub struct IntCellRegistration {
    pub cell_value: i32,
    pub bundle: IntCellBundleKind,
}

/// Everything the host engine is configured with: the dispatch tables from
/// level data to bundles, the initial level selection, and the systems of
/// each scheduling phase.
pub struct AppPlan {
    pub int_cell_registrations: Vec<IntCellRegistration>,
    pub entity_registrations: Vec<EntityBundleKind>,
    pub initial_level_selection: LevelSelection,
    pub startup_systems: Vec<SystemKind>,
    pub update_systems: Vec<SystemKind>,
}

/// The level-runtime plugin: assembles the whole crate's registrations.
pub struct LDTKPlugin;

impl LDTKPlugin {
    /// The full dispatch table: int-grid cell values 1 and 2 become walls,
    /// the player entity registration and per-tick systems come from
    /// [`PlayerPlugin::build`], the initial selection is the first level,
    /// bootstrap runs at startup, and the camera controller runs every tick
    /// after the player systems.
    pub fn build(&self) -> (plan: AppPlan)
        ensures
            plan.int_cell_registrations@ == seq![
                (IntCellRegistration { cell_value: 1, bundle: IntCellBundleKind::Wall }),
                (IntCellRegistration { cell_value: 2, bundle: IntCellBundleKind::Wall }),
            ],
            plan.entity_registrations@ == seq![EntityBundleKind::Player],
            plan.initial_level_selection == LevelSelection::Index(0usize),
            plan.startup_systems@ == seq![SystemKind::SpawnLevel],
            plan.update_systems@ == seq![
                SystemKind::ProcessPlayer,
                SystemKind::MovePlayer,
                SystemKind::CameraFitInsideCurrentLevel,
            ],
    {
        let mut int_cell_registrations: Vec<IntCellRegistration> = Vec::new();
        int_cell_registrations.push(
            IntCellRegistration { cell_value: 1, bundle: IntCellBundleKind::Wall },
        );
        int_cell_registrations.push(
            IntCellRegistration { cell_value: 2, bundle: IntCellBundleKind::Wall },
        );
        let player = PlayerPlugin;
        let player_plan = player.build();
        let mut update_systems = player_plan.update_systems;
        update_systems.push(SystemKind::CameraFitInsideCurrentLevel);
        let mut startup_systems: Vec<SystemKind> = Vec::new();
        startup_systems.push(SystemKind::SpawnLevel);
        let plan = AppPlan {
            int_cell_registrations,
            entity_registrations: player_plan.entity_registrations,
            initial_level_selection: LevelSelection::Index(0),
            startup_systems,
            update_systems,
        };
        proof {
            assert(plan.int_cell_registrations@ =~= seq![
                (IntCellRegistration { cell_value: 1, bundle: IntCellBundleKind::Wall }),
                (IntCellRegistration { cell_value: 2, bundle: IntCellBundleKind::Wall }),
            ]);
            assert(plan.startup_systems@ =~= seq![SystemKind::SpawnLevel]);
            assert(plan.update_systems@ =~= seq![
                SystemKind::ProcessPlayer,
                SystemKind::MovePlayer,
                SystemKind::CameraFitInsideCurrentLevel,
            ]);
        }
        plan
    }
}

/// The initial camera state the bootstrap creates.
pub struct BootstrapPlan {
    pub camera_projection: OrthographicProjection,
    pub camera_transform: Transform,
}

/// The one-time world bootstrap: the camera starts with the baseline scale,
/// a centered viewport origin following the window size, and its focus at a
/// quarter of the nominal reference resolution, before any level geometry
/// exists. The host performs the entity spawn and starts the asynchronous
/// load of the level asset named by [`ldtk_world_asset_path`]; a load that
/// never resolves leaves every downstream system idle, which is not an
/// error.
pub fn spawn_level() -> (plan: BootstrapPlan)
    ensures
        plan.camera_projection == (OrthographicProjection {
            scale: CAMERA_SCALE_MILLI,
            viewport_origin: Vec2i {
                x: CENTERED_VIEWPORT_ORIGIN_MILLI,
                y: CENTERED_VIEWPORT_ORIGIN_MILLI,
            },
            scaling_mode: ScalingMode::WindowSize,
        }),
        plan.camera_transform == (Transform {
            translation: Vec2i { x: INITIAL_CAMERA_X_MILLI, y: INITIAL_CAMERA_Y_MILLI },
        }),
{
    BootstrapPlan {
        camera_projection: OrthographicProjection {
            scale: CAMERA_SCALE_MILLI,
            viewport_origin: Vec2i {
                x: CENTERED_VIEWPORT_ORIGIN_MILLI,
                y: CENTERED_VIEWPORT_ORIGIN_MILLI,
            },
            scaling_mode: ScalingMode::WindowSize,
        },
        camera_transform: Transform {
            translation: Vec2i { x: INITIAL_CAMERA_X_MILLI, y: INITIAL_CAMERA_Y_MILLI },
        },
    }
}

/// The asset path of the level world the bootstrap asks the loader for.
pub fn ldtk_world_asset_path() -> (r: &'static str)
    ensures
        r@ == "maps/test_map/test.ldtk"@,
{
    "maps/test_map/test.ldtk"
}

/// Fitting is idempotent: a second controller tick with the same player
/// position, level list and selection leaves the camera exactly as the
/// first tick put it.
pub proof fn lemma_camera_fit_idempotent(
    proj: OrthographicProjection,
    trans: Transform,
    player: Option<Transform>,
    levels: Seq<LevelRecord>,
    sel: LevelSelection,
)
    ensures
        ({
            let (proj1, trans1) = spec_camera_after(proj, trans, player, levels, sel);
            spec_camera_after(proj1, trans1, player, levels, sel) == (proj1, trans1)
        }),
{
}

} // verus!
