use vstd::prelude::*;

use crate::item::Item;

verus! {

/// How long an enemy spawner waits before its first wave, in milliseconds.
pub const FIRST_WAVE_DELAY_MS: u64 = 1000;

/// What is added to a wave's delay before the next wave starts, in
/// milliseconds.
pub const PADDED_TIME_MS: u64 = 500;

/// How the enemies of one wave are placed around their statue.
#[derive(Clone, Copy, Debug, PartialEq, Eq, Structural)]
pub enum SpawnFormation {
    /// Evenly around a circle: enemy `i` of `count` at angle `i / count` of a turn.
    Circle,
    /// All at the same spot, at the wave's angle.
    Group,
    /// Each at a random angle.
    Random,
}

/// One wave of enemies around a statue.
///
/// Distances are in world units and angles in whole degrees; an interval of
/// zero spawns the whole wave at once, otherwise one enemy each time the
/// interval elapses.
#[derive(Clone, Copy, Debug, PartialEq, Eq, Structural)]
pub struct EnemySubSpawner {
    pub item: Item,
    pub count: usize,
    pub current_index: usize,
    pub offset: u32,
    pub angle_degrees: u32,
    pub spawn_formation: SpawnFormation,
    pub interval_ms: u32,
    pub disabled: bool,
}

/// A wave with the given numbers, nothing spawned yet.
pub open spec fn wave(
    item: Item,
    count: usize,
    offset: u32,
    angle_degrees: u32,
    spawn_formation: SpawnFormation,
    interval_ms: u32,
) -> EnemySubSpawner {
    EnemySubSpawner {
        item,
        count,
        current_index: 0,
        offset,
        angle_degrees,
        spawn_formation,
        interval_ms,
        disabled: false,
    }
}

impl EnemySubSpawner {
    /// A wave with no enemies: 200 units out, at angle 0, in a circle, all
    /// at once.
    pub fn new(item: Item) -> (s: EnemySubSpawner)
        ensures
            s == wave(item, 0, 200, 0, SpawnFormation::Circle, 0),
            s.well_formed(),
    {
        EnemySubSpawner {
            item,
            count: 0,
            current_index: 0,
            offset: 200,
            angle_degrees: 0,
            spawn_formation: SpawnFormation::Circle,
            interval_ms: 0,
            disabled: false,
        }
    }

    /// The states a wave passes through: it never spawns more than its
    /// count; a wave that spawns all at once has spawned nothing while it is
    /// still enabled; and one that spawns one by one is disabled once it
    /// spawned them all.
    pub open spec fn well_formed(&self) -> bool {
        &&& self.current_index <= self.count
        &&& (self.interval_ms == 0 && !self.disabled) ==> self.current_index == 0
        &&& (self.interval_ms != 0 && !self.disabled) ==> self.current_index < self.count
    }

    /// Whether the wave is well formed (see `well_formed`).
    pub fn is_well_formed(&self) -> (res: bool)
        ensures
            res == self.well_formed(),
    {
        self.current_index <= self.count && (self.interval_ms != 0 || self.disabled
            || self.current_index == 0) && (self.interval_ms == 0 || self.disabled
            || self.current_index < self.count)
    }

    /// Spawns this frame's enemies: none once disabled; the whole wave if
    /// it spawns all at once; otherwise one enemy if the interval just
    /// elapsed. Returns the indices of the spawned enemies (an index places
    /// an enemy of a circle formation).
    pub fn spawn_enemies(&mut self, interval_elapsed: bool) -> (spawned: Vec<usize>)
        requires
            old(self).well_formed(),
        ensures
            ({
                let k = if old(self).disabled {
                    0
                } else if old(self).interval_ms == 0 {
                    old(self).count as int
                } else if interval_elapsed {
                    1
                } else {
                    0
                };
                &&& spawned@ == Seq::new(k as nat, |j: int| (old(self).current_index + j) as usize)
                &&& *final(self) == (EnemySubSpawner {
                    current_index: (old(self).current_index + k) as usize,
                    ..*old(self)
                })
            }),
    {
        let mut spawned: Vec<usize> = Vec::new();
        if self.disabled {
            return spawned;
        }
        if self.interval_ms == 0 {
            let ghost start = self.current_index;
            let mut n: usize = 0;
            while n < self.count
                invariant
                    start == 0,
                    n <= self.count,
                    self.current_index == start + n,
                    self.count == old(self).count,
                    *self == (EnemySubSpawner { current_index: self.current_index, ..*old(self) }),
                    spawned@ == Seq::new(n as nat, |j: int| (start + j) as usize),
                decreases self.count - n,
            {
                spawned.push(self.current_index);
                self.current_index = self.current_index + 1;
                n = n + 1;
            }
            return spawned;
        }
        if interval_elapsed {
            spawned.push(self.current_index);
            self.current_index = self.current_index + 1;
        }
        spawned
    }

    /// Disables the wave once it spawned all its enemies.
    pub fn disable_when_done(&mut self)
        ensures
            *final(self) == (EnemySubSpawner {
                disabled: old(self).disabled || old(self).current_index == old(self).count,
                ..*old(self)
            }),
    {
        if self.current_index == self.count {
            self.disabled = true;
        }
    }

    /// One frame of a wave: spawn, then disable if done.
    pub fn frame(&mut self, interval_elapsed: bool) -> (spawned: Vec<usize>)
        requires
            old(self).well_formed(),
        ensures
            final(self).well_formed(),
            ({
                let k = if old(self).disabled {
                    0
                } else if old(self).interval_ms == 0 {
                    old(self).count as int
                } else if interval_elapsed {
                    1
                } else {
                    0
                };
                &&& spawned@ == Seq::new(k as nat, |j: int| (old(self).current_index + j) as usize)
                &&& *final(self) == (EnemySubSpawner {
                    current_index: (old(self).current_index + k) as usize,
                    disabled: old(self).disabled || old(self).current_index + k == old(self).count,
                    ..*old(self)
                })
            }),
    {
        let spawned = self.spawn_enemies(interval_elapsed);
        self.disable_when_done();
        spawned
    }
}

/// A fresh wave is well formed, so however the frames go it never spawns
/// more enemies than its count; this includes the empty wave of `new`,
/// which spawns nothing and is then disabled. (An empty wave that spawns
/// one by one is left out: its first interval would spawn an enemy.)
pub proof fn lemma_fresh_wave_well_formed(w: EnemySubSpawner)
    requires
        w.count > 0 || w.interval_ms == 0,
        w.current_index == 0,
        !w.disabled,
    ensures
        w.well_formed(),
{
}

/// The enemy spawner of a triggered statue: it releases the statue's
/// waves one after the other, each after the previous wave's delay.
pub struct EnemySpawner {
    pub item: Item,
    sub_spawners: Vec<(u32, EnemySubSpawner)>,
    sub_spawner_index: usize,
    disabled: bool,
}

/// The abstract state of an enemy spawner.
pub struct EnemySpawnerView {
    pub item: Item,
    pub sub_spawners: Seq<(u32, EnemySubSpawner)>,
    pub sub_spawner_index: nat,
    pub disabled: bool,
}

impl View for EnemySpawner {
    type V = EnemySpawnerView;

    closed spec fn view(&self) -> EnemySpawnerView {
        EnemySpawnerView {
            item: self.item,
            sub_spawners: self.sub_spawners@,
            sub_spawner_index: self.sub_spawner_index as nat,
            disabled: self.disabled,
        }
    }
}

impl EnemySpawner {
    /// The spawner never points past its last wave.
    pub closed spec fn well_formed(&self) -> bool {
        self.sub_spawner_index <= self.sub_spawners.len()
    }

    /// A spawner for the statue holding `item`, with its waves, each paired
    /// with the delay before the next one; nothing released yet. Its first
    /// wave comes after `FIRST_WAVE_DELAY_MS`.
    pub fn new(sub_spawners: Vec<(u32, EnemySubSpawner)>, item: Item) -> (s: EnemySpawner)
        ensures
            s.well_formed(),
            s@ == (EnemySpawnerView {
                item,
                sub_spawners: sub_spawners@,
                sub_spawner_index: 0,
                disabled: false,
            }),
    {
        EnemySpawner { item, sub_spawners, sub_spawner_index: 0, disabled: false }
    }

    /// Whether the spawner released all its waves and they are over.
    pub fn is_disabled(&self) -> (res: bool)
        ensures
            res == self@.disabled,
    {
        self.disabled
    }

    /// The spawner's timer just finished: if a wave is left, the next one is
    /// released. Returns that wave and the duration of the timer until the
    /// wave after it (its delay plus `PADDED_TIME_MS`), in milliseconds.
    pub fn spawn_sub_spawner(&mut self, timer_just_finished: bool) -> (released: Option<(EnemySubSpawner, u64)>)
        requires
            old(self).well_formed(),
        ensures
            final(self).well_formed(),
            ({
                let o = old(self)@;
                if timer_just_finished && o.sub_spawner_index < o.sub_spawners.len() {
                    &&& released == Some((
                        o.sub_spawners[o.sub_spawner_index as int].1,
                        (o.sub_spawners[o.sub_spawner_index as int].0 + PADDED_TIME_MS) as u64,
                    ))
                    &&& final(self)@ == (EnemySpawnerView { sub_spawner_index: o.sub_spawner_index + 1, ..o })
                } else {
                    released == None::<(EnemySubSpawner, u64)> && final(self)@ == o
                }
            }),
    {
        if !timer_just_finished || self.sub_spawner_index >= self.sub_spawners.len() {
            return None;
        }
        let (time, sub_spawner) = self.sub_spawners[self.sub_spawner_index];
        self.sub_spawner_index = self.sub_spawner_index + 1;
        Some((sub_spawner, time as u64 + PADDED_TIME_MS))
    }

    /// Disables the spawner once no wave of any statue is running, all its
    /// own waves were released and its timer finished.
    pub fn disable_when_done(&mut self, waves_running: bool, timer_finished: bool)
        requires
            old(self).well_formed(),
        ensures
            final(self).well_formed(),
            final(self)@ == (EnemySpawnerView {
                disabled: old(self)@.disabled || (!waves_running && old(self)@.sub_spawner_index
                    >= old(self)@.sub_spawners.len() && timer_finished),
                ..old(self)@
            }),
    {
        if waves_running {
            return;
        }
        if self.sub_spawner_index < self.sub_spawners.len() {
            return;
        }
        if timer_finished {
            self.disabled = true;
        }
    }
}

} // verus!
