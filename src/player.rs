use vstd::prelude::*;
use crate::enemy::PickFlower;
use crate::input::{Direction, InputState};

verus! {

/// A point of the world, in thousandths of a world unit.
#[derive(Clone, Copy, Debug, PartialEq, Eq, Structural)]
pub struct Position {
    pub x: i64,
    pub y: i64,
}

/// How many pickups the player has collected this session.
#[derive(Clone, Copy, Debug, PartialEq, Eq, Structural)]
pub struct FlowerCount(pub u64);

/// The player-controlled character.
#[derive(Clone, Copy, Debug, PartialEq, Eq, Structural)]
pub struct Player {
    pub position: Position,
    pub flowers: FlowerCount,
}

/// `v` held to the range of `i64`.
pub open spec fn clamp_i64(v: int) -> int {
    if v > i64::MAX {
        i64::MAX as int
    } else if v < i64::MIN {
        i64::MIN as int
    } else {
        v
    }
}

/// The distance covered at `speed` units per second in `elapsed_ms`
/// milliseconds: with the speed in thousandths of a world unit per second,
/// the distance in thousandths of a world unit, rounded down to one of those.
pub open spec fn travel(speed: u32, elapsed_ms: u32) -> int {
    (speed as int * elapsed_ms as int) / 1000
}

/// `p` displaced by `(dx, dy)`; the world is unbounded but for the range of
/// the coordinates.
pub open spec fn displaced(p: Position, dx: int, dy: int) -> Position {
    Position { x: clamp_i64(p.x + dx) as i64, y: clamp_i64(p.y + dy) as i64 }
}

/// Where a player at `before` ends up after moving along `d` for
/// `elapsed_ms` at `speed`; a zero direction leaves it where it was.
pub open spec fn moved_to(before: Position, d: Direction, speed: u32, elapsed_ms: u32) -> Position {
    if d.is_zero() {
        before
    } else {
        let (dx, dy) = d.step_of(travel(speed, elapsed_ms));
        displaced(before, dx, dy)
    }
}

fn add_clamped(a: i64, b: i64) -> (r: i64)
    ensures
        r == clamp_i64(a + b),
{
    let s: i128 = a as i128 + b as i128;
    if s > i64::MAX as i128 {
        i64::MAX
    } else if s < i64::MIN as i128 {
        i64::MIN
    } else {
        s as i64
    }
}

impl Player {
    /// The player at the origin with nothing collected.
    pub fn spawn() -> (r: Player)
        ensures
            r.position == (Position { x: 0, y: 0 }),
            r.flowers.0 == 0,
    {
        Player { position: Position { x: 0, y: 0 }, flowers: FlowerCount(0) }
    }
}

/// Moves the player along the input's direction at `speed` units per second
/// for `elapsed_ms` milliseconds; the score is untouched.
pub fn move_player(player: &mut Player, input: &InputState, speed: u32, elapsed_ms: u32)
    ensures
        final(player).position == moved_to(old(player).position, input.spec_direction(), speed, elapsed_ms),
        final(player).flowers == old(player).flowers,
{
    let direction = input.normalized_direction();
    if direction.is_zero_vector() {
        return;
    }
    assert((speed as u64) * (elapsed_ms as u64) <= u64::MAX) by (nonlinear_arith)
        requires
            speed <= u32::MAX,
            elapsed_ms <= u32::MAX,
    ;
    let dist: u64 = (speed as u64) * (elapsed_ms as u64) / 1000;
    let (dx, dy) = direction.step(dist);
    let before = player.position;
    player.position = Position { x: add_clamped(before.x, dx), y: add_clamped(before.y, dy) };
}

/// Adds one to the score for each capture reported this tick.
pub fn count_picked_flowers(player: &mut Player, events: &Vec<PickFlower>)
    requires
        old(player).flowers.0 + events@.len() <= u64::MAX,
    ensures
        final(player).flowers.0 == old(player).flowers.0 + events@.len(),
        final(player).position == old(player).position,
{
    let mut i: usize = 0;
    while i < events.len()
        invariant
            0 <= i <= events@.len(),
            player.flowers.0 == old(player).flowers.0 + i,
            player.position == old(player).position,
            old(player).flowers.0 + events@.len() <= u64::MAX,
        decreases events@.len() - i,
    {
        player.flowers = FlowerCount(player.flowers.0 + 1);
        i = i + 1;
    }
}

/// The score after `count_picked_flowers` has counted each batch of capture
/// reports in turn, starting from `score`.
pub open spec fn counted(score: int, batches: Seq<Seq<PickFlower>>) -> int
    decreases batches.len(),
{
    if batches.len() == 0 {
        score
    } else {
        counted(score + batches[0].len(), batches.drop_first())
    }
}

/// The score grows by exactly the number of captures, however they are
/// split into ticks and in whatever order each tick reports them: any two
/// batchings of the same captures give the same score.
pub proof fn lemma_score_independent_of_batching(
    score: int,
    batches: Seq<Seq<PickFlower>>,
    other: Seq<Seq<PickFlower>>,
)
    requires
        batches.flatten().to_multiset() == other.flatten().to_multiset(),
    ensures
        counted(score, batches) == score + batches.flatten().len(),
        counted(score, batches) == counted(score, other),
{
    broadcast use vstd::seq_lib::group_to_multiset_ensures;

    lemma_counted_is_total(score, batches);
    lemma_counted_is_total(score, other);
    batches.flatten().to_multiset_ensures();
    other.flatten().to_multiset_ensures();
    assert(batches.flatten().len() == other.flatten().len());
}

proof fn lemma_counted_is_total(score: int, batches: Seq<Seq<PickFlower>>)
    ensures
        counted(score, batches) == score + batches.flatten().len(),
    decreases batches.len(),
{
    if batches.len() > 0 {
        lemma_counted_is_total(score + batches[0].len(), batches.drop_first());
    }
}

} // verus!
