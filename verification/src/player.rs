//! The player actor: input-driven motion and the one-time materialization of
//! its collision shape.

use crate::phys::components::ColliderShape;
use crate::space::{Transform, Vec2i};
use vstd::prelude::*;
use vstd::seq_lib::lemma_seq_contains_after_push;

verus! {

/// Player movement speed in world units per second.
pub const PLAYER_SPEED: i64 = 150;

/// Largest accepted movement-intent component, in milli-units. Intent
/// vectors are normalized (about one unit long); the bound leaves a
/// thousandfold margin and keeps the displacement product inside `i64`.
pub const MAX_INTENT_MILLI: i64 = 1_000_000;

/// Largest accepted tick duration: one hour, in milliseconds.
pub const MAX_TICK_MILLIS: u64 = 3_600_000;

/// Half-extent, in milli-units, of the square collision shape attached to a
/// newly spawned player (4 x 4 world units).
pub const PLAYER_COLLIDER_HALF_EXTENT_MILLI: i64 = 4_000;

/// Marker component carried by the player entity.
#[derive(Clone, Copy, PartialEq, Eq, Structural, Debug)]
pub struct Player;

/// The player plugin: contributes the player systems and the entity
/// registration that lets the level loader spawn the player.
pub struct PlayerPlugin;

/// What [`PlayerPlugin::build`] contributes to the host configuration.
pub struct PlayerPlan {
    pub update_systems: Vec<crate::ldtk::SystemKind>,
    pub entity_registrations: Vec<crate::ldtk::EntityBundleKind>,
}

impl PlayerPlugin {
    /// Registers actor materialization and input-to-motion as per-tick
    /// systems, and the player entity bundle under its level-data name.
    pub fn build(&self) -> (plan: PlayerPlan)
        ensures
            plan.update_systems@ == seq![
                crate::ldtk::SystemKind::ProcessPlayer,
                crate::ldtk::SystemKind::MovePlayer,
            ],
            plan.entity_registrations@ == seq![crate::ldtk::EntityBundleKind::Player],
    {
        let mut update_systems: Vec<crate::ldtk::SystemKind> = Vec::new();
        update_systems.push(crate::ldtk::SystemKind::ProcessPlayer);
        update_systems.push(crate::ldtk::SystemKind::MovePlayer);
        let mut entity_registrations: Vec<crate::ldtk::EntityBundleKind> = Vec::new();
        entity_registrations.push(crate::ldtk::EntityBundleKind::Player);
        let plan = PlayerPlan { update_systems, entity_registrations };
        proof {
            assert(plan.update_systems@ =~= seq![
                crate::ldtk::SystemKind::ProcessPlayer,
                crate::ldtk::SystemKind::MovePlayer,
            ]);
            assert(plan.entity_registrations@ =~= seq![crate::ldtk::EntityBundleKind::Player]);
        }
        plan
    }
}

/// The name under which the level data declares the player entity.
pub fn player_entity_identifier() -> (r: &'static str)
    ensures
        r@ == "Player"@,
{
    "Player"
}

/// What a spawned player entity carries from the start: a placement, a
/// movement body, and the player tag. The collision shape is attached later
/// by [`process_player`].
#[derive(Clone, Copy, PartialEq, Eq, Structural, Debug)]
pub struct PlayerBundle {
    pub transform: Transform,
    pub rigidbody: crate::phys::components::RigidBodyKind,
    pub player: Player,
}

/// A movement intent is accepted when both components are in range.
pub open spec fn spec_intent_wf(v: Vec2i) -> bool {
    &&& -MAX_INTENT_MILLI <= v.x <= MAX_INTENT_MILLI
    &&& -MAX_INTENT_MILLI <= v.y <= MAX_INTENT_MILLI
}

/// Division by 1000 (the fixed-point scale) truncating toward zero,
/// mirroring how the product is scaled back down in executable code.
pub open spec fn spec_div_milli_trunc(v: int) -> int {
    if v >= 0 {
        v / 1000
    } else {
        -((-v) / 1000)
    }
}

/// Displacement along one axis, in milli-units: intent component times speed
/// times the elapsed milliseconds, scaled back from the milliseconds factor.
pub open spec fn spec_displacement(intent: int, delta_ms: int) -> int {
    spec_div_milli_trunc(intent * PLAYER_SPEED * delta_ms)
}

/// A transform after one tick of movement.
pub open spec fn spec_moved(t: Transform, intent: Vec2i, delta_ms: int) -> Transform {
    Transform {
        translation: Vec2i {
            x: (t.translation.x + spec_displacement(intent.x as int, delta_ms)) as i64,
            y: (t.translation.y + spec_displacement(intent.y as int, delta_ms)) as i64,
        },
    }
}

fn displacement(intent: i64, delta_ms: u64) -> (r: i64)
    requires
        -MAX_INTENT_MILLI <= intent <= MAX_INTENT_MILLI,
        delta_ms <= MAX_TICK_MILLIS,
    ensures
        r == spec_displacement(intent as int, delta_ms as int),
        -540_000_000_000 <= r <= 540_000_000_000,
{
    let negative = intent < 0;
    let magnitude: u64 = if negative {
        (-intent) as u64
    } else {
        intent as u64
    };
    proof {
        assert(magnitude <= 1_000_000);
    }
    let sped: u64 = magnitude * (PLAYER_SPEED as u64);
    proof {
        assert((sped as int) * (delta_ms as int) <= 540_000_000_000_000) by (nonlinear_arith)
            requires
                0 <= sped <= 150_000_000,
                0 <= delta_ms <= 3_600_000,
        ;
    }
    let scaled: u64 = sped * delta_ms;
    let r: i64 = if negative {
        -((scaled / 1000) as i64)
    } else {
        (scaled / 1000) as i64
    };
    proof {
        let v: int = (intent as int) * (PLAYER_SPEED as int) * (delta_ms as int);
        if negative {
            assert(((-intent) as int) * (PLAYER_SPEED as int) * (delta_ms as int) == -v)
                by (nonlinear_arith)
                requires
                    v == (intent as int) * (PLAYER_SPEED as int) * (delta_ms as int),
            ;
            assert(scaled == -v);
        } else {
            assert(scaled == v);
        }
    }
    r
}

/// One tick of input-to-motion.
///
/// `player_movement` is the normalized movement intent for this tick, or
/// `None` when there was no input; `delta_ms` is the elapsed time since the
/// previous tick in milliseconds; `player_query` holds the transforms of
/// every entity carrying the player tag. Without intent nothing moves; with
/// intent every player transform is shifted by intent x speed x elapsed
/// seconds. No clamping or collision resolution happens here.
pub fn move_player(
    player_movement: Option<Vec2i>,
    delta_ms: u64,
    player_query: &mut Vec<Transform>,
)
    requires
        player_movement matches Some(v) ==> spec_intent_wf(v),
        delta_ms <= MAX_TICK_MILLIS,
        forall|i: int|
            0 <= i < old(player_query)@.len() ==> (#[trigger] old(player_query)@[i]).wf(),
    ensures
        final(player_query)@.len() == old(player_query)@.len(),
        player_movement is None ==> final(player_query)@ == old(player_query)@,
        player_movement matches Some(v) ==> forall|i: int|
            0 <= i < old(player_query)@.len() ==> final(player_query)@[i] == spec_moved(
                old(player_query)@[i],
                v,
                delta_ms as int,
            ),
{
    let v: Vec2i = match player_movement {
        Some(v) => v,
        None => {
            return ;
        },
    };
    let dx: i64 = displacement(v.x, delta_ms);
    let dy: i64 = displacement(v.y, delta_ms);
    let mut i: usize = 0;
    while i < player_query.len()
        invariant
            i <= player_query@.len(),
            player_query@.len() == old(player_query)@.len(),
            player_movement == Some(v),
            spec_intent_wf(v),
            delta_ms <= MAX_TICK_MILLIS,
            dx == spec_displacement(v.x as int, delta_ms as int),
            dy == spec_displacement(v.y as int, delta_ms as int),
            -540_000_000_000 <= dx <= 540_000_000_000,
            -540_000_000_000 <= dy <= 540_000_000_000,
            forall|k: int|
                0 <= k < old(player_query)@.len() ==> (#[trigger] old(player_query)@[k]).wf(),
            forall|k: int|
                i <= k < player_query@.len() ==> #[trigger] player_query@[k] == old(
                    player_query,
                )@[k],
            forall|k: int|
                0 <= k < i ==> #[trigger] player_query@[k] == spec_moved(
                    old(player_query)@[k],
                    v,
                    delta_ms as int,
                ),
        decreases player_query@.len() - i,
    {
        let t: Transform = player_query[i];
        let moved = Transform {
            translation: Vec2i { x: t.translation.x + dx, y: t.translation.y + dy },
        };
        player_query.set(i, moved);
        i += 1;
    }
}

/// An instruction for the host engine: attach this collision shape to this
/// entity.
#[derive(Clone, Copy, PartialEq, Eq, Structural, Debug)]
pub struct ColliderAttach {
    pub entity: u64,
    pub shape: ColliderShape,
}

/// The set of already-seen entities after observing `present`.
pub open spec fn spec_seen_after(seen: Set<u64>, present: Seq<u64>) -> Set<u64> {
    seen.union(present.to_set())
}

/// The entities that appear for the first time in `present`.
pub open spec fn spec_newly_added(seen: Set<u64>, present: Seq<u64>) -> Set<u64> {
    present.to_set().difference(seen)
}

/// The explicit last-seen-set diff behind the "just appeared" semantics: it
/// remembers every player entity that has already been materialized, so that
/// an entity observed on many later ticks is never equipped twice.
pub struct PlayerSpawnTracker {
    seen: Vec<u64>,
}

impl PlayerSpawnTracker {
    /// The entities this tracker has already seen.
    pub closed spec fn spec_seen(self) -> Set<u64> {
        self.seen@.to_set()
    }

    pub fn new() -> (t: PlayerSpawnTracker)
        ensures
            t.spec_seen() =~= Set::<u64>::empty(),
    {
        PlayerSpawnTracker { seen: Vec::new() }
    }

    fn contains_id(&self, e: u64) -> (r: bool)
        ensures
            r == self.spec_seen().contains(e),
    {
        let mut i: usize = 0;
        while i < self.seen.len()
            invariant
                i <= self.seen@.len(),
                forall|k: int| 0 <= k < i ==> self.seen@[k] != e,
            decreases self.seen@.len() - i,
        {
            if self.seen[i] == e {
                return true;
            }
            i += 1;
        }
        assert(!self.seen@.contains(e));
        false
    }
}

/// One tick of actor materialization.
///
/// `spawned_players` holds every entity currently carrying the player tag;
/// the tracker supplies the "just appeared" diff. The returned instructions
/// attach the fixed square collision shape exactly to the entities seen for
/// the first time, each at most once, in order of first appearance. An empty
/// input is a no-op.
pub fn process_player(tracker: &mut PlayerSpawnTracker, spawned_players: &Vec<u64>) -> (cmds: Vec<
    ColliderAttach,
>)
    ensures
        final(tracker).spec_seen() == spec_seen_after(old(tracker).spec_seen(), spawned_players@),
        forall|j: int|
            0 <= j < cmds@.len() ==> spec_newly_added(
                old(tracker).spec_seen(),
                spawned_players@,
            ).contains((#[trigger] cmds@[j]).entity),
        forall|j: int|
            0 <= j < cmds@.len() ==> (#[trigger] cmds@[j]).shape == (ColliderShape {
                half_extent_x: PLAYER_COLLIDER_HALF_EXTENT_MILLI,
                half_extent_y: PLAYER_COLLIDER_HALF_EXTENT_MILLI,
            }),
        forall|e: u64|
            #[trigger] spec_newly_added(old(tracker).spec_seen(), spawned_players@).contains(e)
                ==> exists|j: int| 0 <= j < cmds@.len() && cmds@[j].entity == e,
        forall|j: int, k: int|
            0 <= j < k < cmds@.len() ==> cmds@[j].entity != cmds@[k].entity,
{
    let mut cmds: Vec<ColliderAttach> = Vec::new();
    let mut i: usize = 0;
    let ghost seen0 = tracker.spec_seen();
    let ghost sp = spawned_players@;
    while i < spawned_players.len()
        invariant
            i <= sp.len(),
            sp == spawned_players@,
            tracker.spec_seen() == spec_seen_after(seen0, sp.take(i as int)),
            forall|j: int|
                0 <= j < cmds@.len() ==> spec_newly_added(seen0, sp.take(i as int)).contains(
                    (#[trigger] cmds@[j]).entity,
                ),
            forall|j: int|
                0 <= j < cmds@.len() ==> (#[trigger] cmds@[j]).shape == (ColliderShape {
                    half_extent_x: PLAYER_COLLIDER_HALF_EXTENT_MILLI,
                    half_extent_y: PLAYER_COLLIDER_HALF_EXTENT_MILLI,
                }),
            forall|e: u64|
                #[trigger] spec_newly_added(seen0, sp.take(i as int)).contains(e) ==> exists|j: int|
                    0 <= j < cmds@.len() && cmds@[j].entity == e,
            forall|j: int, k: int| 0 <= j < k < cmds@.len() ==> cmds@[j].entity != cmds@[k].entity,
        decreases sp.len() - i,
    {
        let e: u64 = spawned_players[i];
        let ghost prefix = sp.take(i as int);
        let ghost cmds_before = cmds@;
        let ghost seen_seq_before = tracker.seen@;
        let already_seen = tracker.contains_id(e);
        if !already_seen {
            tracker.seen.push(e);
            cmds.push(
                ColliderAttach {
                    entity: e,
                    shape: ColliderShape {
                        half_extent_x: PLAYER_COLLIDER_HALF_EXTENT_MILLI,
                        half_extent_y: PLAYER_COLLIDER_HALF_EXTENT_MILLI,
                    },
                },
            );
        }
        proof {
            sp.lemma_take_succ_push(i as int);
            prefix.lemma_push_to_set_commute(sp[i as int]);
            assert(sp.take(i as int + 1).to_set() == prefix.to_set().insert(e));
            if !already_seen {
                seen_seq_before.lemma_push_to_set_commute(e);
                assert(tracker.spec_seen() == seen_seq_before.to_set().insert(e));
            }
            assert(tracker.spec_seen() =~= spec_seen_after(seen0, sp.take(i as int + 1)));
            assert forall|ee: u64|
                #[trigger] spec_newly_added(seen0, sp.take(i as int + 1)).contains(
                    ee,
                ) implies exists|j: int| 0 <= j < cmds@.len() && cmds@[j].entity == ee by {
                if prefix.to_set().contains(ee) {
                    assert(spec_newly_added(seen0, prefix).contains(ee));
                    let j = choose|j: int|
                        0 <= j < cmds_before.len() && cmds_before[j].entity == ee;
                    assert(cmds@[j].entity == ee);
                } else {
                    assert(ee == sp[i as int]);
                    assert(!already_seen);
                    assert(cmds@[cmds@.len() - 1].entity == ee);
                }
            }
        }
        i += 1;
    }
    proof {
        assert(sp.take(sp.len() as int) == sp);
    }
    cmds
}

/// The seen set after a whole run of ticks, each observing one set of
/// present player entities.
pub open spec fn spec_seen_after_ticks(seen: Set<u64>, ticks: Seq<Seq<u64>>) -> Set<u64>
    decreases ticks.len(),
{
    if ticks.len() == 0 {
        seen
    } else {
        spec_seen_after_ticks(spec_seen_after(seen, ticks[0]), ticks.drop_first())
    }
}

/// What tick `i` of a run materializes.
pub open spec fn spec_attached_at(seen: Set<u64>, ticks: Seq<Seq<u64>>, i: int) -> Set<u64>
    recommends
        0 <= i < ticks.len(),
{
    spec_newly_added(spec_seen_after_ticks(seen, ticks.take(i)), ticks[i])
}

proof fn lemma_seen_after_ticks_snoc(seen: Set<u64>, ticks: Seq<Seq<u64>>, present: Seq<u64>)
    ensures
        spec_seen_after_ticks(seen, ticks.push(present)) == spec_seen_after(
            spec_seen_after_ticks(seen, ticks),
            present,
        ),
    decreases ticks.len(),
{
    reveal_with_fuel(spec_seen_after_ticks, 3);
    if ticks.len() == 0 {
        assert(ticks.push(present)[0] == present);
        assert(ticks.push(present).drop_first() =~= Seq::<Seq<u64>>::empty());
    } else {
        assert(ticks.push(present)[0] == ticks[0]);
        assert(ticks.push(present).drop_first() =~= ticks.drop_first().push(present));
        lemma_seen_after_ticks_snoc(spec_seen_after(seen, ticks[0]), ticks.drop_first(), present);
    }
}

proof fn lemma_seen_after_prefix_monotone(seen: Set<u64>, ticks: Seq<Seq<u64>>, m: int, n: int)
    requires
        0 <= m <= n <= ticks.len(),
    ensures
        spec_seen_after_ticks(seen, ticks.take(m)).subset_of(
            spec_seen_after_ticks(seen, ticks.take(n)),
        ),
    decreases n - m,
{
    if m < n {
        ticks.lemma_take_succ_push(m);
        lemma_seen_after_ticks_snoc(seen, ticks.take(m), ticks[m]);
        lemma_seen_after_prefix_monotone(seen, ticks, m + 1, n);
    }
}

/// Over a whole run of ticks, no entity is materialized twice: what tick `i`
/// attaches and what any later tick `j` attaches are disjoint, whatever the
/// ticks observed in between.
pub proof fn lemma_attach_at_most_once_over_ticks(
    seen: Set<u64>,
    ticks: Seq<Seq<u64>>,
    i: int,
    j: int,
)
    requires
        0 <= i < j < ticks.len(),
    ensures
        spec_attached_at(seen, ticks, i).disjoint(spec_attached_at(seen, ticks, j)),
{
    ticks.lemma_take_succ_push(i);
    lemma_seen_after_ticks_snoc(seen, ticks.take(i), ticks[i]);
    lemma_seen_after_prefix_monotone(seen, ticks, i + 1, j);
    assert forall|e: u64| spec_attached_at(seen, ticks, i).contains(e) implies !spec_attached_at(
        seen,
        ticks,
        j,
    ).contains(e) by {
        assert(spec_seen_after_ticks(seen, ticks.take(i + 1)).contains(e));
        assert(spec_seen_after_ticks(seen, ticks.take(j)).contains(e));
    }
}

/// A collision shape is attached to a given entity at most once across
/// ticks: what one tick materializes is disjoint from what any later tick
/// materializes, because everything attached is remembered as seen, the seen
/// set only grows, and a seen entity is never newly added again.
pub proof fn lemma_attach_at_most_once(seen: Set<u64>, first: Seq<u64>, second: Seq<u64>)
    ensures
        spec_newly_added(seen, first).disjoint(
            spec_newly_added(spec_seen_after(seen, first), second),
        ),
        seen.subset_of(spec_seen_after(seen, first)),
{
    let n1 = spec_newly_added(seen, first);
    let n2 = spec_newly_added(spec_seen_after(seen, first), second);
    assert forall|e: u64| n1.contains(e) implies !n2.contains(e) by {
        assert(first.to_set().contains(e));
        assert(spec_seen_after(seen, first).contains(e));
    }
}

} // verus!
