use vstd::prelude::*;
use rand::Rng;
use crate::assets::GameConfigFile;
use crate::player::Position;

verus! {

/// One full turn, in thousandths of a degree.
pub const FULL_TURN: u32 = 360000;

/// A pickup lying in the world.  Its rotation, in thousandths of a degree,
/// is only drawn, never read by the rules.
#[derive(Clone, Copy, Debug, PartialEq, Eq, Structural)]
pub struct Enemy {
    pub id: u64,
    pub position: Position,
    pub rotation: u32,
}

/// The report that the pickup with this id was captured.
#[derive(Clone, Copy, Debug, PartialEq, Eq, Structural)]
pub struct PickFlower(pub u64);

/// The squared distance between two points.
pub open spec fn dist_sq(p: Position, q: Position) -> int {
    (p.x - q.x) * (p.x - q.x) + (p.y - q.y) * (p.y - q.y)
}

/// A pickup at `q` is captured by a player at `p` when it lies within `range`,
/// the boundary included.
pub open spec fn captured(p: Position, q: Position, range: u32) -> bool {
    dist_sq(p, q) <= range * range
}

/// The ids of the pickups that a player at `p` captures, in order.
pub open spec fn captured_ids(flowers: Seq<Enemy>, p: Position, range: u32) -> Seq<u64>
    decreases flowers.len(),
{
    if flowers.len() == 0 {
        Seq::empty()
    } else {
        let rest = captured_ids(flowers.drop_last(), p, range);
        if captured(p, flowers.last().position, range) {
            rest.push(flowers.last().id)
        } else {
            rest
        }
    }
}

/// The pickups whose id is not among `ids`, in order.
pub open spec fn without_ids(flowers: Seq<Enemy>, ids: Seq<u64>) -> Seq<Enemy>
    decreases flowers.len(),
{
    if flowers.len() == 0 {
        Seq::empty()
    } else {
        let rest = without_ids(flowers.drop_last(), ids);
        if ids.contains(flowers.last().id) {
            rest
        } else {
            rest.push(flowers.last())
        }
    }
}

/// The pickup lies in the square of half side `world_size` about the origin.
pub open spec fn in_world(f: Enemy, world_size: u32) -> bool {
    -world_size <= f.position.x < world_size && -world_size <= f.position.y < world_size
        && f.rotation < FULL_TURN
}

pub open spec fn event_ids(events: Seq<PickFlower>) -> Seq<u64> {
    events.map_values(|e: PickFlower| e.0)
}

fn abs_diff(a: i64, b: i64) -> (r: u128)
    ensures
        r == if a >= b { a - b } else { b - a },
{
    if a >= b {
        (a as i128 - b as i128) as u128
    } else {
        (b as i128 - a as i128) as u128
    }
}

/// Whether a pickup at `q` lies within `range` of `p`.
pub fn within_range(p: Position, q: Position, range: u32) -> (r: bool)
    ensures
        r == captured(p, q, range),
{
    let dx = abs_diff(p.x, q.x);
    let dy = abs_diff(p.y, q.y);
    let r: u128 = range as u128;
    assert(dx * dx == (p.x - q.x) * (p.x - q.x) && dy * dy == (p.y - q.y) * (p.y - q.y)) by (nonlinear_arith)
        requires
            dx == (if p.x >= q.x { p.x - q.x } else { q.x - p.x }),
            dy == (if p.y >= q.y { p.y - q.y } else { q.y - p.y }),
    ;
    if dx > r || dy > r {
        assert(!captured(p, q, range)) by (nonlinear_arith)
            requires
                dx > r || dy > r,
                r >= 0,
                dx * dx == (p.x - q.x) * (p.x - q.x),
                dy * dy == (p.y - q.y) * (p.y - q.y),
                r == range,
        {
            assert(dx >= 0 && dy >= 0);
        }
        return false;
    }
    assert(dx * dx <= r * r && dy * dy <= r * r && r * r <= 0xffff_ffff_ffff_ffffu128 * 1) by (nonlinear_arith)
        requires
            dx <= r,
            dy <= r,
            r <= u32::MAX,
    ;
    dx * dx + dy * dy <= r * r
}

/// Reports every pickup that lies within `range` of the player's position.
pub fn detect_proximity(player: Position, flowers: &Vec<Enemy>, range: u32) -> (events: Vec<PickFlower>)
    ensures
        event_ids(events@) == captured_ids(flowers@, player, range),
{
    let mut events: Vec<PickFlower> = Vec::new();
    let mut i: usize = 0;
    while i < flowers.len()
        invariant
            0 <= i <= flowers@.len(),
            event_ids(events@) == captured_ids(flowers@.take(i as int), player, range),
        decreases flowers@.len() - i,
    {
        let f = flowers[i];
        assert(flowers@.take(i + 1).drop_last() =~= flowers@.take(i as int));
        if within_range(player, f.position, range) {
            events.push(PickFlower(f.id));
        }
        assert(event_ids(events@) =~= captured_ids(flowers@.take(i + 1), player, range));
        i = i + 1;
    }
    assert(flowers@.take(flowers@.len() as int) =~= flowers@);
    events
}

fn reported(events: &Vec<PickFlower>, id: u64) -> (r: bool)
    ensures
        r == event_ids(events@).contains(id),
{
    let mut i: usize = 0;
    while i < events.len()
        invariant
            0 <= i <= events@.len(),
            forall|k: int| 0 <= k < i ==> events@[k].0 != id,
        decreases events@.len() - i,
    {
        if events[i].0 == id {
            assert(event_ids(events@)[i as int] == id);
            return true;
        }
        i = i + 1;
    }
    assert(!event_ids(events@).contains(id)) by {
        if event_ids(events@).contains(id) {
            let k = choose|k: int| 0 <= k < event_ids(events@).len() && event_ids(events@)[k] == id;
            assert(events@[k].0 == id);
        }
    }
    false
}

/// Removes every pickup that a capture was reported for.
pub fn despawn_flower_when_picked(flowers: &mut Vec<Enemy>, events: &Vec<PickFlower>)
    ensures
        final(flowers)@ == without_ids(old(flowers)@, event_ids(events@)),
{
    let mut kept: Vec<Enemy> = Vec::new();
    let mut i: usize = 0;
    while i < flowers.len()
        invariant
            0 <= i <= flowers@.len(),
            flowers@ == old(flowers)@,
            kept@ == without_ids(flowers@.take(i as int), event_ids(events@)),
        decreases flowers@.len() - i,
    {
        let f = flowers[i];
        assert(flowers@.take(i + 1).drop_last() =~= flowers@.take(i as int));
        if !reported(events, f.id) {
            kept.push(f);
        }
        i = i + 1;
    }
    assert(flowers@.take(flowers@.len() as int) =~= flowers@);
    *flowers = kept;
}

/// Relies on rand's `Rng::gen_range` on the thread-local generator: it returns
/// a value drawn from `lo..hi` and panics only on an empty range.
#[verifier::external_body]
fn random_in(lo: i64, hi: i64) -> (r: i64)
    requires
        lo < hi,
    ensures
        lo <= r < hi,
{
    rand::thread_rng().gen_range(lo..hi)
}

/// Places the configured number of pickups at random in the world, each
/// with a random rotation; their ids are their indices.
pub fn init_flowers(config: &GameConfigFile) -> (flowers: Vec<Enemy>)
    requires
        config.wf(),
    ensures
        flowers@.len() == config.num_flowers,
        forall|i: int| 0 <= i < flowers@.len() ==> flowers@[i].id == i,
        forall|i: int| 0 <= i < flowers@.len() ==> in_world(#[trigger] flowers@[i], config.world_size),
{
    let w: i64 = config.world_size as i64;
    let mut flowers: Vec<Enemy> = Vec::new();
    let mut i: u32 = 0;
    while i < config.num_flowers
        invariant
            w == config.world_size,
            w > 0,
            flowers@.len() == i,
            i <= config.num_flowers,
            forall|k: int| 0 <= k < flowers@.len() ==> flowers@[k].id == k,
            forall|k: int| 0 <= k < flowers@.len() ==> in_world(#[trigger] flowers@[k], config.world_size),
        decreases config.num_flowers - i,
    {
        let x = random_in(-w, w);
        let y = random_in(-w, w);
        let rotation = random_in(0, FULL_TURN as i64) as u32;
        flowers.push(Enemy { id: i as u64, position: Position { x, y }, rotation });
        i = i + 1;
    }
    flowers
}

/// The ids increase along the sequence, so no two pickups share one.
pub open spec fn ids_increasing(flowers: Seq<Enemy>) -> bool {
    forall|i: int, j: int| 0 <= i < j < flowers.len() ==> flowers[i].id < flowers[j].id
}

proof fn lemma_captured_ids_members(flowers: Seq<Enemy>, p: Position, range: u32, id: u64)
    ensures
        captured_ids(flowers, p, range).contains(id) <==> exists|i: int|
            0 <= i < flowers.len() && #[trigger] flowers[i].id == id && captured(p, flowers[i].position, range),
    decreases flowers.len(),
{
    if flowers.len() > 0 {
        let init = flowers.drop_last();
        lemma_captured_ids_members(init, p, range, id);
        let rest = captured_ids(init, p, range);
        if captured_ids(flowers, p, range).contains(id) {
            if !rest.contains(id) {
                assert(captured_ids(flowers, p, range) == rest.push(flowers.last().id));
                let k = choose|k: int| 0 <= k < rest.len() + 1 && rest.push(flowers.last().id)[k] == id;
                assert(k == rest.len());
                assert(flowers[flowers.len() - 1].id == id);
            } else {
                let i = choose|i: int| 0 <= i < init.len() && #[trigger] init[i].id == id && captured(p, init[i].position, range);
                assert(flowers[i] == init[i]);
            }
        }
        if exists|i: int| 0 <= i < flowers.len() && #[trigger] flowers[i].id == id && captured(p, flowers[i].position, range) {
            let i = choose|i: int| 0 <= i < flowers.len() && #[trigger] flowers[i].id == id && captured(p, flowers[i].position, range);
            if i < flowers.len() - 1 {
                assert(init[i] == flowers[i]);
                let k = choose|k: int| 0 <= k < rest.len() && rest[k] == id;
                if captured(p, flowers.last().position, range) {
                    assert(rest.push(flowers.last().id)[k] == id);
                }
            } else {
                assert(rest.push(flowers.last().id)[rest.len() as int] == id);
            }
        }
    }
}

proof fn lemma_without_ids_members(flowers: Seq<Enemy>, ids: Seq<u64>)
    ensures
        forall|k: int| #![trigger without_ids(flowers, ids)[k]] 0 <= k < without_ids(flowers, ids).len() ==> exists|i: int|
            0 <= i < flowers.len() && #[trigger] flowers[i] == without_ids(flowers, ids)[k] && !ids.contains(flowers[i].id),
    decreases flowers.len(),
{
    if flowers.len() > 0 {
        let init = flowers.drop_last();
        lemma_without_ids_members(init, ids);
        let rest = without_ids(init, ids);
        assert forall|k: int| #![trigger without_ids(flowers, ids)[k]] 0 <= k < without_ids(flowers, ids).len() implies exists|i: int|
            0 <= i < flowers.len() && #[trigger] flowers[i] == without_ids(flowers, ids)[k] && !ids.contains(flowers[i].id) by {
            if k < rest.len() {
                let i = choose|i: int| 0 <= i < init.len() && #[trigger] init[i] == rest[k] && !ids.contains(init[i].id);
                assert(flowers[i] == init[i]);
                if !ids.contains(flowers.last().id) {
                    assert(rest.push(flowers.last())[k] == rest[k]);
                }
            } else {
                assert(flowers[flowers.len() - 1] == without_ids(flowers, ids)[k]);
            }
        }
    }
}

proof fn lemma_without_ids_increasing(flowers: Seq<Enemy>, ids: Seq<u64>)
    requires
        ids_increasing(flowers),
    ensures
        ids_increasing(without_ids(flowers, ids)),
    decreases flowers.len(),
{
    if flowers.len() > 0 {
        let init = flowers.drop_last();
        lemma_without_ids_increasing(init, ids);
        lemma_without_ids_members(init, ids);
        let rest = without_ids(init, ids);
        if !ids.contains(flowers.last().id) {
            let r = rest.push(flowers.last());
            assert forall|i: int, j: int| 0 <= i < j < r.len() implies r[i].id < r[j].id by {
                if j == rest.len() {
                    let a = choose|a: int| 0 <= a < init.len() && #[trigger] init[a] == rest[i] && !ids.contains(init[a].id);
                    assert(flowers[a] == init[a]);
                } else {
                    assert(r[i] == rest[i] && r[j] == rest[j]);
                }
            }
        }
    }
}

proof fn lemma_without_ids_count(flowers: Seq<Enemy>, ids: Seq<u64>, p: Position, range: u32)
    requires
        forall|i: int| 0 <= i < flowers.len() ==> (ids.contains(#[trigger] flowers[i].id) <==> captured(p, flowers[i].position, range)),
    ensures
        without_ids(flowers, ids).len() + captured_ids(flowers, p, range).len() == flowers.len(),
    decreases flowers.len(),
{
    if flowers.len() > 0 {
        let init = flowers.drop_last();
        assert forall|i: int| 0 <= i < init.len() implies (ids.contains(#[trigger] init[i].id) <==> captured(p, init[i].position, range)) by {
            assert(init[i] == flowers[i]);
        }
        lemma_without_ids_count(init, ids, p, range);
        assert(flowers.last() == flowers[flowers.len() - 1]);
    }
}

/// Capture is decided by distance alone: a pickup is reported exactly when
/// its squared distance to the player is at most the squared range.  After
/// the reported pickups are despawned, the rest are exactly the uncaptured
/// ones, one fewer for each report, and no reported pickup can be reported
/// again, wherever the player goes next.
pub proof fn lemma_capture_removes(flowers: Seq<Enemy>, p: Position, range: u32)
    requires
        ids_increasing(flowers),
    ensures
        forall|i: int| 0 <= i < flowers.len() ==> (captured_ids(flowers, p, range).contains(#[trigger] flowers[i].id)
            <==> dist_sq(p, flowers[i].position) <= range * range),
        ({
            let rest = without_ids(flowers, captured_ids(flowers, p, range));
            &&& ids_increasing(rest)
            &&& rest.len() + captured_ids(flowers, p, range).len() == flowers.len()
            &&& forall|k: int| 0 <= k < rest.len() ==> !captured(p, #[trigger] rest[k].position, range)
            &&& forall|q: Position, id: u64| captured_ids(flowers, p, range).contains(id)
                ==> !(#[trigger] captured_ids(rest, q, range).contains(id))
        }),
{
    let ids = captured_ids(flowers, p, range);
    let rest = without_ids(flowers, ids);
    assert forall|i: int| 0 <= i < flowers.len() implies (ids.contains(#[trigger] flowers[i].id)
        <==> captured(p, flowers[i].position, range)) by {
        lemma_captured_ids_members(flowers, p, range, flowers[i].id);
        if ids.contains(flowers[i].id) {
            let j = choose|j: int| 0 <= j < flowers.len() && #[trigger] flowers[j].id == flowers[i].id && captured(p, flowers[j].position, range);
            if i < j {
                assert(flowers[i].id < flowers[j].id);
            } else if j < i {
                assert(flowers[j].id < flowers[i].id);
            }
        }
    }
    lemma_without_ids_increasing(flowers, ids);
    lemma_without_ids_count(flowers, ids, p, range);
    lemma_without_ids_members(flowers, ids);
    assert forall|k: int| 0 <= k < rest.len() implies !captured(p, #[trigger] rest[k].position, range) by {
        let i = choose|i: int| 0 <= i < flowers.len() && #[trigger] flowers[i] == rest[k] && !ids.contains(flowers[i].id);
    }
    assert forall|q: Position, id: u64| ids.contains(id) implies !(#[trigger] captured_ids(rest, q, range).contains(id)) by {
        lemma_captured_ids_members(rest, q, range, id);
        if captured_ids(rest, q, range).contains(id) {
            let k = choose|k: int| 0 <= k < rest.len() && #[trigger] rest[k].id == id && captured(q, rest[k].position, range);
            let i = choose|i: int| 0 <= i < flowers.len() && #[trigger] flowers[i] == rest[k] && !ids.contains(flowers[i].id);
        }
    }
}

/// Despawning keeps every remaining pickup in the world.
pub proof fn lemma_without_ids_in_world(flowers: Seq<Enemy>, ids: Seq<u64>, world_size: u32, k: int)
    requires
        forall|i: int| 0 <= i < flowers.len() ==> in_world(#[trigger] flowers[i], world_size),
        0 <= k < without_ids(flowers, ids).len(),
    ensures
        in_world(without_ids(flowers, ids)[k], world_size),
{
    lemma_without_ids_members(flowers, ids);
    let i = choose|i: int| 0 <= i < flowers.len() && #[trigger] flowers[i] == without_ids(flowers, ids)[k] && !ids.contains(flowers[i].id);
}

} // verus!
