use level_fit::ldtk::{EntityBundleKind, SystemKind};
use level_fit::phys::components::ColliderShape;
use level_fit::player::{
    move_player, player_entity_identifier, process_player, PlayerPlugin, PlayerSpawnTracker,
};
use level_fit::space::{Transform, Vec2i};

fn player_transforms(points: &[(i64, i64)]) -> Vec<Transform> {
    points
        .iter()
        .map(|&(x, y)| Transform {
            translation: Vec2i { x, y },
        })
        .collect()
}

#[test]
fn player_plugin_contributions() {
    let plan = PlayerPlugin.build();
    assert_eq!(plan.update_systems, vec![SystemKind::ProcessPlayer, SystemKind::MovePlayer]);
    assert_eq!(plan.entity_registrations, vec![EntityBundleKind::Player]);
    assert_eq!(player_entity_identifier(), "Player");
}

#[test]
fn move_player_without_intent_is_a_no_op() {
    let mut players = player_transforms(&[(1_000, 2_000)]);
    move_player(None, 100, &mut players);
    assert_eq!(players[0].translation, Vec2i { x: 1_000, y: 2_000 });
}

#[test]
fn move_player_integrates_intent_exactly() {
    // Unit intent along x for 0.1 s at 150 units/s moves the player by
    // exactly 15 units (15000 milli-units); y is untouched.
    let mut players = player_transforms(&[(0, 9_000)]);
    move_player(Some(Vec2i { x: 1_000, y: 0 }), 100, &mut players);
    assert_eq!(players[0].translation, Vec2i { x: 15_000, y: 9_000 });
}

#[test]
fn move_player_handles_negative_intent_and_many_players() {
    let mut players = player_transforms(&[(10_000, 0), (-5_000, 1_000)]);
    move_player(Some(Vec2i { x: -1_000, y: 500 }), 200, &mut players);
    // dx = -(1000 * 150 * 200 / 1000) = -30000, dy = 500 * 150 * 200 / 1000 = 15000.
    assert_eq!(players[0].translation, Vec2i { x: -20_000, y: 15_000 });
    assert_eq!(players[1].translation, Vec2i { x: -35_000, y: 16_000 });
}

#[test]
fn process_player_attaches_shape_once_per_entity() {
    let mut tracker = PlayerSpawnTracker::new();

    let first = process_player(&mut tracker, &vec![1, 2]);
    assert_eq!(first.len(), 2);
    assert_eq!(first[0].entity, 1);
    assert_eq!(first[1].entity, 2);
    for cmd in &first {
        assert_eq!(
            cmd.shape,
            ColliderShape {
                half_extent_x: 4_000,
                half_extent_y: 4_000,
            }
        );
    }

    // The same entities observed again on a later tick produce nothing.
    let second = process_player(&mut tracker, &vec![1, 2]);
    assert_eq!(second.len(), 0);

    // Only the genuinely new entity is equipped.
    let third = process_player(&mut tracker, &vec![1, 2, 3]);
    assert_eq!(third.len(), 1);
    assert_eq!(third[0].entity, 3);
}

#[test]
fn process_player_deduplicates_within_one_tick() {
    let mut tracker = PlayerSpawnTracker::new();
    let cmds = process_player(&mut tracker, &vec![4, 4]);
    assert_eq!(cmds.len(), 1);
    assert_eq!(cmds[0].entity, 4);
}

#[test]
fn process_player_with_no_spawns_is_a_no_op() {
    let mut tracker = PlayerSpawnTracker::new();
    let cmds = process_player(&mut tracker, &vec![]);
    assert_eq!(cmds.len(), 0);
}
