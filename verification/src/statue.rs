use vstd::prelude::*;

use crate::item::Item;

verus! {

/// How many statues the level holds; once that many items are active the
/// final act can be triggered.
pub const STATUE_COUNT: usize = 8;

/// The abstract state of a statue.
pub struct StatueView {
    pub item: Item,
    pub triggered: bool,
    pub all_enemies_spawned: bool,
    pub unlocked: bool,
}

/// A statue of the level: walking up to it triggers a wave of enemies, and
/// once all of them were spawned and killed it unlocks its item.
#[derive(Clone, Copy, Debug)]
pub struct Statue {
    pub item: Item,
    triggered: bool,
    pub all_enemies_spawned: bool,
    unlocked: bool,
}

impl View for Statue {
    type V = StatueView;

    closed spec fn view(&self) -> StatueView {
        StatueView {
            item: self.item,
            triggered: self.triggered,
            all_enemies_spawned: self.all_enemies_spawned,
            unlocked: self.unlocked,
        }
    }
}

/// The items whose statues are unlocked, in unlock order.
pub struct ActiveItems(pub Vec<Item>);

/// The number of items there are to unlock.
pub struct MaxItems(pub usize);

/// A statue in `s`'s state that `unlock_statues` unlocks.
pub open spec fn unlockable(s: StatueView, enemies_alive: bool) -> bool {
    !s.unlocked && s.all_enemies_spawned && !enemies_alive
}

/// A statue's state after `unlock_statues`.
pub open spec fn after_unlock(s: StatueView, enemies_alive: bool) -> StatueView {
    if unlockable(s, enemies_alive) {
        StatueView { unlocked: true, ..s }
    } else {
        s
    }
}

/// The items of the statues that `unlock_statues` unlocks, in statue order.
pub open spec fn unlocked_items(s: Seq<StatueView>, enemies_alive: bool) -> Seq<Item>
    decreases s.len(),
{
    if s.len() == 0 {
        Seq::empty()
    } else {
        let rest = unlocked_items(s.drop_last(), enemies_alive);
        if unlockable(s.last(), enemies_alive) {
            rest.push(s.last().item)
        } else {
            rest
        }
    }
}

/// Whether a statue fires when the player is in reach or not.
pub open spec fn fires(s: StatueView, in_reach: bool) -> bool {
    !s.triggered && in_reach
}

/// A statue after the player was in reach or not.
pub open spec fn after_trigger(s: StatueView, in_reach: bool) -> StatueView {
    StatueView { triggered: s.triggered || in_reach, ..s }
}

/// The abstract states of a sequence of statues.
pub open spec fn statue_views(s: Seq<Statue>) -> Seq<StatueView> {
    s.map_values(|t: Statue| t@)
}

impl Statue {
    /// A fresh statue holding `item`: not triggered, no enemies spawned,
    /// locked.
    pub fn new(item: Item) -> (s: Statue)
        ensures
            s@ == (StatueView {
                item,
                triggered: false,
                all_enemies_spawned: false,
                unlocked: false,
            }),
    {
        Statue { item, triggered: false, all_enemies_spawned: false, unlocked: false }
    }

    /// The item the statue holds.
    pub fn item(&self) -> (item: Item)
        ensures
            item == self@.item,
    {
        self.item
    }

    /// Whether the statue gave out its item.
    pub fn is_unlocked(&self) -> (res: bool)
        ensures
            res == self@.unlocked,
    {
        self.unlocked
    }

    /// Sets whether the statue gave out its item.
    pub fn set_unlocked(&mut self, unlocked: bool)
        ensures
            final(self)@ == (StatueView { unlocked, ..old(self)@ }),
    {
        self.unlocked = unlocked;
    }

    /// Whether the player came close enough once.
    pub fn is_triggered(&self) -> (res: bool)
        ensures
            res == self@.triggered,
    {
        self.triggered
    }

    /// The player stands within reach (`in_reach`) of the statue: the first
    /// time that happens the statue is triggered and `true` is returned
    /// (the engine then starts its enemy waves); later calls change nothing.
    pub fn trigger(&mut self, in_reach: bool) -> (fired: bool)
        ensures
            fired == fires(old(self)@, in_reach),
            final(self)@ == after_trigger(old(self)@, in_reach),
    {
        if self.triggered || !in_reach {
            return false;
        }
        self.triggered = true;
        true
    }
}

/// Unlocks every statue whose enemies were all spawned, provided no enemy
/// is alive any more: each such statue becomes unlocked and its item joins
/// the active items. Returns the items unlocked, in statue order.
pub fn unlock_statues(
    statues: &mut Vec<Statue>,
    active_items: &mut ActiveItems,
    enemies_alive: bool,
) -> (unlocked: Vec<Item>)
    ensures
        final(statues)@.len() == old(statues)@.len(),
        forall|i: int|
            0 <= i < old(statues)@.len() ==> #[trigger] final(statues)@[i]@ == after_unlock(
                old(statues)@[i]@,
                enemies_alive,
            ),
        unlocked@ == unlocked_items(statue_views(old(statues)@), enemies_alive),
        final(active_items).0@ == old(active_items).0@ + unlocked@,
        forall|i: int|
            0 <= i < old(statues)@.len() && !old(statues)@[i]@.all_enemies_spawned
                ==> #[trigger] final(statues)@[i]@ == old(statues)@[i]@,
        enemies_alive ==> unlocked@.len() == 0 && final(active_items).0@ == old(active_items).0@,
        forall|k: int|
            #![trigger unlocked@[k]]
            0 <= k < unlocked@.len() ==> exists|i: int|
                0 <= i < old(statues)@.len() && old(statues)@[i]@.all_enemies_spawned
                    && !old(statues)@[i]@.unlocked && #[trigger] old(statues)@[i]@.item == unlocked@[k],
{
    let ghost old_statues = statues@;
    let ghost old_active = active_items.0@;
    let mut unlocked: Vec<Item> = Vec::new();
    let mut i: usize = 0;
    while i < statues.len()
        invariant
            i <= statues@.len(),
            statues@.len() == old_statues.len(),
            forall|j: int| 0 <= j < i ==> #[trigger] statues@[j]@ == after_unlock(old_statues[j]@, enemies_alive),
            forall|j: int| i <= j < statues@.len() ==> #[trigger] statues@[j] == old_statues[j],
            unlocked@ == unlocked_items(statue_views(old_statues.subrange(0, i as int)), enemies_alive),
            active_items.0@ == old_active + unlocked@,
        decreases statues.len() - i,
    {
        let ghost prefix = statue_views(old_statues.subrange(0, i as int));
        let ghost next = statue_views(old_statues.subrange(0, i + 1));
        assert(next.drop_last() =~= prefix);
        assert(next.last() == old_statues[i as int]@);
        let s = statues[i];
        if !s.unlocked && s.all_enemies_spawned && !enemies_alive {
            let mut t = s;
            t.unlocked = true;
            statues.set(i, t);
            active_items.0.push(s.item);
            unlocked.push(s.item);
        }
        i = i + 1;
    }
    assert(old_statues.subrange(0, old_statues.len() as int) =~= old_statues);
    proof {
        lemma_unlocked_items_were_ready(statue_views(old_statues), enemies_alive);
        assert forall|k: int| #![trigger unlocked@[k]] 0 <= k < unlocked@.len() implies exists|i: int|
            0 <= i < old_statues.len() && old_statues[i]@.all_enemies_spawned
                && !old_statues[i]@.unlocked && #[trigger] old_statues[i]@.item == unlocked@[k] by {
            let views = statue_views(old_statues);
            let i = choose|i: int|
                0 <= i < views.len() && views[i].all_enemies_spawned && !views[i].unlocked
                    && #[trigger] views[i].item == unlocked@[k];
            assert(views[i] == old_statues[i]@);
        }
    }
    unlocked
}

/// The result of marking a statue's enemies as all spawned.
#[derive(Clone, Copy, Debug, PartialEq, Eq, Structural)]
pub enum SpawnedMark {
    /// No statue holds the item.
    NoStatue,
    /// The statue at `index` was marked; `already` tells whether it had been
    /// marked before (which points at two statues holding the same item).
    Marked { index: usize, already: bool },
}

/// Whether some statue of `s` holds `item`.
pub open spec fn holds_item(s: Seq<Statue>, item: Item) -> bool {
    exists|i: int| 0 <= i < s.len() && #[trigger] s[i]@.item == item
}

/// The enemy spawner of the statue holding `item` is done: the first
/// statue holding that item learns that all its enemies were spawned, so
/// that it unlocks once they are all dead.
pub fn mark_all_enemies_spawned(statues: &mut Vec<Statue>, item: Item) -> (mark: SpawnedMark)
    ensures
        final(statues)@.len() == old(statues)@.len(),
        !holds_item(old(statues)@, item) ==> mark == SpawnedMark::NoStatue && final(statues)@ == old(statues)@,
        holds_item(old(statues)@, item) ==> mark is Marked,
        mark is Marked ==> {
            &&& 0 <= mark->index < old(statues)@.len()
            &&& old(statues)@[mark->index as int]@.item == item
            &&& forall|j: int| 0 <= j < mark->index ==> #[trigger] old(statues)@[j]@.item != item
            &&& mark->already == old(statues)@[mark->index as int]@.all_enemies_spawned
            &&& final(statues)@[mark->index as int]@ == (StatueView {
                all_enemies_spawned: true,
                ..old(statues)@[mark->index as int]@
            })
            &&& forall|j: int|
                0 <= j < old(statues)@.len() && j != mark->index ==> #[trigger] final(statues)@[j]
                    == old(statues)@[j]
        },
{
    let mut i: usize = 0;
    while i < statues.len()
        invariant
            i <= statues@.len(),
            statues@ == old(statues)@,
            forall|j: int| 0 <= j < i ==> #[trigger] statues@[j]@.item != item,
        decreases statues.len() - i,
    {
        if statues[i].item == item {
            let already = statues[i].all_enemies_spawned;
            let mut t = statues[i];
            t.all_enemies_spawned = true;
            statues.set(i, t);
            return SpawnedMark::Marked { index: i, already };
        }
        i = i + 1;
    }
    SpawnedMark::NoStatue
}

/// Whether the final act's item appears on the platform: only once the
/// items of all statues are active.
pub fn final_act_available(active_items: &ActiveItems) -> (res: bool)
    ensures
        res == (active_items.0@.len() >= STATUE_COUNT),
{
    active_items.0.len() >= STATUE_COUNT
}

/// Only statues whose enemies were all spawned, and that were still
/// locked, give out items: each unlocked item is the item of such a
/// statue, no more items come out than there are statues, and while an
/// enemy is alive nothing is unlocked.
pub proof fn lemma_unlocked_items_were_ready(s: Seq<StatueView>, enemies_alive: bool)
    ensures
        unlocked_items(s, enemies_alive).len() <= s.len(),
        enemies_alive ==> unlocked_items(s, enemies_alive).len() == 0,
        forall|k: int|
            #![trigger unlocked_items(s, enemies_alive)[k]]
            0 <= k < unlocked_items(s, enemies_alive).len() ==> exists|i: int|
                0 <= i < s.len() && s[i].all_enemies_spawned && !s[i].unlocked && #[trigger] s[i].item
                    == unlocked_items(s, enemies_alive)[k],
    decreases s.len(),
{
    if s.len() > 0 {
        let rest = s.drop_last();
        lemma_unlocked_items_were_ready(rest, enemies_alive);
        let u = unlocked_items(s, enemies_alive);
        let r = unlocked_items(rest, enemies_alive);
        assert forall|k: int| #![trigger u[k]] 0 <= k < u.len() implies exists|i: int|
            0 <= i < s.len() && s[i].all_enemies_spawned && !s[i].unlocked && #[trigger] s[i].item
                == u[k] by {
            if k < r.len() {
                assert(u[k] == r[k]);
                let i = choose|i: int|
                    0 <= i < rest.len() && rest[i].all_enemies_spawned && !rest[i].unlocked
                        && #[trigger] rest[i].item == r[k];
                assert(s[i] == rest[i]);
            } else {
                assert(s[s.len() - 1] == s.last());
            }
        }
    }
}

/// Once no enemy is alive, unlocking again right away unlocks nothing more.
pub proof fn lemma_unlock_settles(s: Seq<StatueView>)
    ensures
        unlocked_items(s.map_values(|t: StatueView| after_unlock(t, false)), false).len() == 0,
    decreases s.len(),
{
    let after = s.map_values(|t: StatueView| after_unlock(t, false));
    if s.len() > 0 {
        lemma_unlock_settles(s.drop_last());
        assert(after.drop_last() =~= s.drop_last().map_values(|t: StatueView| after_unlock(t, false)));
    }
}

/// A piece of an earth wall ring.
#[derive(Clone, Copy, Debug, PartialEq, Eq, Structural)]
pub struct EarthWall {
    /// The wall crumbles (plays its despawn animation, then disappears).
    pub despawning: bool,
}

impl EarthWall {
    /// A wall rising.
    pub fn new() -> (w: EarthWall)
        ensures
            !w.despawning,
    {
        EarthWall { despawning: false }
    }

    /// The ring opens: the wall starts crumbling. Returns whether its
    /// despawn animation starts now (not for a wall already crumbling).
    pub fn start_despawn(&mut self) -> (starts: bool)
        ensures
            final(self).despawning,
            starts == !old(self).despawning,
    {
        let starts = !self.despawning;
        self.despawning = true;
        starts
    }

    /// Whether the wall disappears: it crumbles and the animation finished.
    pub fn vanishes(&self, animation_finished: bool) -> (res: bool)
        ensures
            res == (self.despawning && animation_finished),
    {
        self.despawning && animation_finished
    }
}

/// A statue is triggered at most once: after it fired, being in reach
/// again fires nothing and changes nothing.
pub proof fn lemma_trigger_fires_once(s: StatueView, first: bool, again: bool)
    requires
        fires(s, first),
    ensures
        !fires(after_trigger(s, first), again),
        after_trigger(after_trigger(s, first), again) == after_trigger(s, first),
{
}

} // verus!
