use vstd::prelude::*;

use crate::health::Health;

verus! {

/// The phases of the game.
#[derive(Clone, Copy, Debug, PartialEq, Eq, Structural)]
pub enum GameState {
    AssetLoading,
    Gaming,
    GameOver,
    Win,
}

impl GameState {
    /// The game starts by loading its assets.
    pub fn new() -> (s: GameState)
        ensures
            s == GameState::AssetLoading,
    {
        GameState::AssetLoading
    }
}

/// Whether a collision between `source` and `target` is one between the
/// entities `a` and `b`, in either order.
pub open spec fn touches(a: u64, b: u64, source: u64, target: u64) -> bool {
    (a == source && b == target) || (a == target && b == source)
}

/// Whether a collision between `source` and `target` is one between the
/// entities `a` and `b`, in either order (entities by their bits).
pub fn collision_between(a: u64, b: u64, source: u64, target: u64) -> (res: bool)
    ensures
        res == touches(a, b, source, target),
{
    (a == source && b == target) || (a == target && b == source)
}

/// The order of a collision's two entities does not matter.
pub proof fn lemma_collision_symmetric(a: u64, b: u64, source: u64, target: u64)
    ensures
        touches(a, b, source, target) == touches(a, b, target, source),
        touches(a, b, source, target) == touches(b, a, source, target),
{
}

/// The phase after the player's hit points were checked: a dead player
/// ends the game.
pub fn after_player_check(state: GameState, player_health: &Health) -> (next: GameState)
    requires
        state == GameState::Gaming,
    ensures
        next == (if player_health.health <= 0 {
            GameState::GameOver
        } else {
            state
        }),
{
    if player_health.is_dead() {
        GameState::GameOver
    } else {
        state
    }
}

/// The phase after the collisions of a frame were checked for the player
/// touching the portal left by the defeated boss: touching it wins.
pub fn after_portal_check(state: GameState, player: u64, portal: u64, collisions: &Vec<(u64, u64)>) -> (next: GameState)
    ensures
        next == (if exists|i: int| 0 <= i < collisions.len() && touches(player, portal, #[trigger] collisions[i].0, collisions[i].1) {
            GameState::Win
        } else {
            state
        }),
{
    let mut i: usize = 0;
    while i < collisions.len()
        invariant
            i <= collisions.len(),
            forall|j: int| 0 <= j < i ==> !touches(player, portal, #[trigger] collisions[j].0, collisions[j].1),
        decreases collisions.len() - i,
    {
        let (source, target) = collisions[i];
        if collision_between(player, portal, source, target) {
            return GameState::Win;
        }
        i = i + 1;
    }
    state
}

/// How many collisions of `cs` are between `a` and `b`.
pub open spec fn count_touches(cs: Seq<(u64, u64)>, a: u64, b: u64) -> nat
    decreases cs.len(),
{
    if cs.len() == 0 {
        0
    } else {
        count_touches(cs.drop_last(), a, b) + if touches(a, b, cs.last().0, cs.last().1) {
            1nat
        } else {
            0nat
        }
    }
}

/// The count of a frame's collisions between `a` and `b`: each collision of
/// `a` with `b`, in either order, adds one, and any other adds nothing; so
/// without a collision involving `a` the count is zero, and it is positive
/// exactly when `a` and `b` collided.
pub proof fn lemma_count_touches_player_item(cs: Seq<(u64, u64)>, a: u64, b: u64)
    ensures
        count_touches(cs, a, b) <= cs.len(),
        (forall|i: int| 0 <= i < cs.len() ==> (#[trigger] cs[i]).0 != a && cs[i].1 != a) ==> count_touches(
            cs,
            a,
            b,
        ) == 0,
        count_touches(cs, a, b) > 0 <==> exists|i: int|
            0 <= i < cs.len() && (#[trigger] cs[i] == (a, b) || cs[i] == (b, a)),
        forall|c: (u64, u64)|
            #[trigger] count_touches(cs.push(c), a, b) == count_touches(cs, a, b) + (if c == (a, b) || c
                == (b, a) {
                1int
            } else {
                0int
            }),
    decreases cs.len(),
{
    assert forall|c: (u64, u64)|
        #[trigger] count_touches(cs.push(c), a, b) == count_touches(cs, a, b) + (if c == (a, b) || c == (
        b,
        a,
    ) {
        1int
    } else {
        0int
    }) by {
        assert(cs.push(c).drop_last() =~= cs);
    }
    if cs.len() > 0 {
        let rest = cs.drop_last();
        lemma_count_touches_player_item(rest, a, b);
        assert(forall|i: int| 0 <= i < rest.len() ==> rest[i] == cs[i]);
        if exists|i: int| 0 <= i < rest.len() && (#[trigger] rest[i] == (a, b) || rest[i] == (b, a)) {
            let i = choose|i: int| 0 <= i < rest.len() && (#[trigger] rest[i] == (a, b) || rest[i] == (b, a));
            assert(cs[i] == rest[i]);
        }
        if exists|i: int| 0 <= i < cs.len() && (#[trigger] cs[i] == (a, b) || cs[i] == (b, a)) {
            let i = choose|i: int| 0 <= i < cs.len() && (#[trigger] cs[i] == (a, b) || cs[i] == (b, a));
            if i < rest.len() {
                assert(rest[i] == cs[i]);
            } else {
                assert(cs.last() == cs[i]);
            }
        }
        assert(cs.last() == cs[cs.len() - 1]);
    }
}

/// How many times the final act is triggered by a frame's collisions: once
/// per collision between the player and the platform's item.
pub fn final_act_triggers(player: u64, item: u64, collisions: &Vec<(u64, u64)>) -> (n: usize)
    ensures
        n == count_touches(collisions@, player, item),
        n <= collisions.len(),
        (forall|i: int| 0 <= i < collisions.len() ==> (#[trigger] collisions[i]).0 != player
            && collisions[i].1 != player) ==> n == 0,
        n > 0 <==> exists|i: int|
            0 <= i < collisions.len() && (#[trigger] collisions[i] == (player, item)
                || collisions[i] == (item, player)),
{
    let mut n: usize = 0;
    let mut i: usize = 0;
    while i < collisions.len()
        invariant
            i <= collisions.len(),
            n == count_touches(collisions@.subrange(0, i as int), player, item),
            n <= i,
        decreases collisions.len() - i,
    {
        let ghost next = collisions@.subrange(0, i + 1);
        assert(next.drop_last() =~= collisions@.subrange(0, i as int));
        let (source, target) = collisions[i];
        if collision_between(player, item, source, target) {
            n = n + 1;
        }
        i = i + 1;
    }
    assert(collisions@.subrange(0, collisions.len() as int) =~= collisions@);
    proof {
        lemma_count_touches_player_item(collisions@, player, item);
    }
    n
}

} // verus!
