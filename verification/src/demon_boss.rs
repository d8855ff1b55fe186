use vstd::prelude::*;
use rand::Rng;

use crate::health::{after_damage, Health};
use crate::spell::Fireball;

verus! {

/// Hit points of the demon boss.
pub const DEMON_BOSS_HEALTH: i64 = 10;
/// How many air-current hits fill the boss's rage.
pub const RAGE_STACK_LIMIT: usize = 5;
/// How long the boss's rage lasts, in milliseconds.
pub const RAGE_TIME_MS: u32 = 10000;
/// The movement pause after a strike, in milliseconds.
pub const STRIKE_RECOVERY_MS: u32 = 1000;
/// The movement pause after staggering, in milliseconds.
pub const STAGGER_RECOVERY_MS: u32 = 600;
/// The pause between two strikes, in milliseconds.
pub const STRIKE_COOLDOWN_MS: u32 = 5000;
/// The pause between two spells, in milliseconds.
pub const SPELL_COOLDOWN_MS: u32 = 5000;
/// How long casting a spell takes, in milliseconds.
pub const SPELL_CAST_MS: u32 = 1500;
/// After this long without a spell the boss casts whatever the distance,
/// in milliseconds.
pub const LAST_SPELL_MS: u32 = 10000;

/// What the demon boss is doing.
#[derive(Clone, Copy, Debug, PartialEq, Eq, Structural)]
pub enum DemonBossState {
    Idling,
    Casting,
    Moving,
    Striking,
    Staggering,
    Dying,
}

/// The two spells of the demon boss.
#[derive(Clone, Copy, Debug, PartialEq, Eq, Structural)]
pub enum DemonSpell {
    Explosion,
    EarthPrison,
}

/// The abstract state of the boss's rage.
pub struct DemonBossRageView {
    pub active: bool,
    pub rage_stack: nat,
}

/// The boss's rage: every air current that staggers it adds to the stack,
/// and a full stack makes it rage (faster, harder to push) for a while.
#[derive(Clone, Copy, Debug)]
pub struct DemonBossRage {
    active: bool,
    rage_stack: usize,
}

impl View for DemonBossRage {
    type V = DemonBossRageView;

    closed spec fn view(&self) -> DemonBossRageView {
        DemonBossRageView { active: self.active, rage_stack: self.rage_stack as nat }
    }
}

impl DemonBossRage {
    /// The stack never holds a full rage: it empties when rage starts.
    #[verifier::type_invariant]
    closed spec fn stack_below_limit(self) -> bool {
        self.rage_stack < RAGE_STACK_LIMIT
    }

    /// No rage, empty stack.
    pub fn new() -> (r: DemonBossRage)
        ensures
            r@ == (DemonBossRageView { active: false, rage_stack: 0 }),
    {
        DemonBossRage { active: false, rage_stack: 0 }
    }

    /// Whether the boss rages.
    pub fn is_active(&self) -> (res: bool)
        ensures
            res == self@.active,
    {
        self.active
    }

    /// How many hits the stack holds.
    pub fn rage_stack(&self) -> (res: usize)
        ensures
            res == self@.rage_stack,
            res < RAGE_STACK_LIMIT,
    {
        proof {
            use_type_invariant(self);
        }
        self.rage_stack
    }

    /// One more hit on the stack; the fifth starts the rage and empties the
    /// stack.
    pub fn add(&mut self)
        ensures
            final(self)@ == rage_after_hit(old(self)@),
            final(self)@.rage_stack < RAGE_STACK_LIMIT,
    {
        proof {
            use_type_invariant(&*self);
        }
        let stack = self.rage_stack + 1;
        if stack == RAGE_STACK_LIMIT {
            self.active = true;
            self.rage_stack = 0;
        } else {
            self.rage_stack = stack;
        }
    }

    /// The rage timer ran out: the rage ends (the stack is kept).
    pub fn expire(&mut self)
        ensures
            final(self)@ == (DemonBossRageView { active: false, ..old(self)@ }),
    {
        proof {
            use_type_invariant(&*self);
        }
        self.active = false;
    }
}

/// The rage after one more hit on the stack.
pub open spec fn rage_after_hit(r: DemonBossRageView) -> DemonBossRageView {
    if r.rage_stack + 1 == RAGE_STACK_LIMIT {
        DemonBossRageView { active: true, rage_stack: 0 }
    } else {
        DemonBossRageView { rage_stack: r.rage_stack + 1, ..r }
    }
}

/// From a calm boss with an empty stack, four hits leave it calm and the
/// fifth makes it rage with the stack emptied again.
pub proof fn lemma_fifth_hit_enrages(r: DemonBossRageView)
    requires
        !r.active,
        r.rage_stack == 0,
    ensures
        !rage_after_hit(rage_after_hit(rage_after_hit(rage_after_hit(r)))).active,
        rage_after_hit(rage_after_hit(rage_after_hit(rage_after_hit(r)))).rage_stack == 4,
        rage_after_hit(rage_after_hit(rage_after_hit(rage_after_hit(rage_after_hit(r))))) == (
        DemonBossRageView { active: true, rage_stack: 0 }),
{
}

/// The demon boss: the damage it deals on contact, its rage and its state.
#[derive(Clone, Copy, Debug)]
pub struct DemonBoss {
    pub damage: u32,
    pub rage: DemonBossRage,
    pub state: DemonBossState,
}

/// What the engine observed for the boss in one frame.
#[derive(Clone, Copy, Debug, PartialEq, Eq, Structural)]
pub struct BossFrame {
    /// The boss's current animation (strike or stagger) finished.
    pub animation_finished: bool,
    /// A cast spell was released this frame.
    pub spell_released: bool,
    /// A strike cooldown is running.
    pub strike_cooldown: bool,
    /// A spell cooldown is running.
    pub spell_cooldown: bool,
    /// A movement pause is running at the start of the frame.
    pub movement_cooldown: bool,
    /// The player exists.
    pub player_present: bool,
    /// Whether the time-since-last-spell timer exists, and if so whether it
    /// finished.
    pub last_spell_timer: Option<bool>,
    /// The player is within striking range.
    pub in_strike_range: bool,
    /// The player is at least at casting range.
    pub beyond_cast_range: bool,
}

/// A strike ends when its animation finished; while the boss strikes a
/// movement pause is started every frame.
pub open spec fn striking_to_idle_spec(s: DemonBossState, f: BossFrame) -> (DemonBossState, Option<u32>) {
    if s != DemonBossState::Striking {
        (s, None)
    } else {
        (if f.animation_finished { DemonBossState::Idling } else { s }, Some(STRIKE_RECOVERY_MS))
    }
}

/// Casting ends when the spell is released.
pub open spec fn casting_to_idle_spec(s: DemonBossState, f: BossFrame) -> DemonBossState {
    if s == DemonBossState::Casting && f.spell_released {
        DemonBossState::Idling
    } else {
        s
    }
}

/// Staggering ends when its animation finished; while the boss staggers
/// a movement pause is started every frame.
pub open spec fn staggering_to_idle_spec(s: DemonBossState, f: BossFrame) -> (DemonBossState, Option<u32>) {
    if s != DemonBossState::Staggering {
        (s, None)
    } else {
        (if f.animation_finished { DemonBossState::Idling } else { s }, Some(STAGGER_RECOVERY_MS))
    }
}

/// Whether a state lets the boss start a strike or a spell.
pub open spec fn free_to_act(s: DemonBossState) -> bool {
    s != DemonBossState::Casting && s != DemonBossState::Striking && s != DemonBossState::Dying
}

/// The boss strikes a player in range, unless its strike cools down.
pub open spec fn switch_to_striking_spec(s: DemonBossState, f: BossFrame) -> DemonBossState {
    if !f.strike_cooldown && f.player_present && free_to_act(s) && f.in_strike_range {
        DemonBossState::Striking
    } else {
        s
    }
}

/// The boss casts at a distant player, or when it cast nothing for long,
/// unless its spells cool down.
pub open spec fn switch_to_casting_spec(s: DemonBossState, f: BossFrame) -> DemonBossState {
    match f.last_spell_timer {
        Some(finished) => if !f.spell_cooldown && f.player_present && free_to_act(s) && (
        f.beyond_cast_range || finished) {
            DemonBossState::Casting
        } else {
            s
        },
        None => s,
    }
}

/// An idle boss walks, unless a movement pause runs.
pub open spec fn switch_to_moving_spec(s: DemonBossState, movement_cooldown: bool) -> DemonBossState {
    if !movement_cooldown && s == DemonBossState::Idling {
        DemonBossState::Moving
    } else {
        s
    }
}

/// The state after one frame of the boss's state systems, run in order,
/// and the movement pause started during it, if any.
pub open spec fn boss_frame(s: DemonBossState, f: BossFrame) -> (DemonBossState, Option<u32>) {
    let (s1, c1) = striking_to_idle_spec(s, f);
    let s2 = casting_to_idle_spec(s1, f);
    let (s3, c3) = staggering_to_idle_spec(s2, f);
    let pause = if c1 is Some { c1 } else { c3 };
    let s4 = switch_to_striking_spec(s3, f);
    let s5 = switch_to_casting_spec(s4, f);
    let s6 = switch_to_moving_spec(s5, f.movement_cooldown || pause is Some);
    (s6, pause)
}

impl DemonBoss {
    /// A fresh boss: two damage on contact, no rage, idle.
    pub fn new() -> (b: DemonBoss)
        ensures
            b.damage == 2,
            b.rage@ == (DemonBossRageView { active: false, rage_stack: 0 }),
            b.state == DemonBossState::Idling,
    {
        DemonBoss { damage: 2, rage: DemonBossRage::new(), state: DemonBossState::Idling }
    }

    /// One frame of the boss's state systems, in their order: strike,
    /// cast and stagger end; then the boss may start a strike, a spell or
    /// a walk. Returns the movement pause (in milliseconds) to start, if
    /// any.
    pub fn frame(&mut self, f: BossFrame) -> (pause: Option<u32>)
        ensures
            (final(self).state, pause) == boss_frame(old(self).state, f),
            strike_is_due(old(self).state, f) ==> final(self).state == DemonBossState::Striking,
            final(self).damage == old(self).damage,
            final(self).rage@ == old(self).rage@,
    {
        let mut pause: Option<u32> = None;
        if self.state == DemonBossState::Striking {
            if f.animation_finished {
                self.state = DemonBossState::Idling;
            }
            pause = Some(STRIKE_RECOVERY_MS);
        }
        if self.state == DemonBossState::Casting && f.spell_released {
            self.state = DemonBossState::Idling;
        }
        if self.state == DemonBossState::Staggering {
            if f.animation_finished {
                self.state = DemonBossState::Idling;
            }
            if pause.is_none() {
                pause = Some(STAGGER_RECOVERY_MS);
            }
        }
        let free = self.state != DemonBossState::Casting && self.state != DemonBossState::Striking
            && self.state != DemonBossState::Dying;
        if !f.strike_cooldown && f.player_present && free && f.in_strike_range {
            self.state = DemonBossState::Striking;
        }
        match f.last_spell_timer {
            Some(finished) => {
                let free = self.state != DemonBossState::Casting && self.state
                    != DemonBossState::Striking && self.state != DemonBossState::Dying;
                if !f.spell_cooldown && f.player_present && free && (f.beyond_cast_range
                    || finished) {
                    self.state = DemonBossState::Casting;
                }
            },
            None => {},
        }
        if !f.movement_cooldown && pause.is_none() && self.state == DemonBossState::Idling {
            self.state = DemonBossState::Moving;
        }
        pause
    }

    /// An air current dealing `damage` touched the boss: it loses the hit
    /// points; unless it rages it also staggers and its rage stack grows.
    /// Returns whether it raged (a raging boss is pulled half as far).
    pub fn aer_tracto_hit(&mut self, health: &mut Health, damage: u32) -> (raging: bool)
        ensures
            raging == old(self).rage@.active,
            final(health).health == after_damage(old(health).health, damage),
            final(self).damage == old(self).damage,
            raging ==> final(self).state == old(self).state && final(self).rage@ == old(self).rage@,
            !raging ==> final(self).state == DemonBossState::Staggering && final(self).rage@
                == rage_after_hit(old(self).rage@),
    {
        health.damage(damage);
        let raging = self.rage.is_active();
        if !raging {
            self.state = DemonBossState::Staggering;
            self.rage.add();
        }
        raging
    }

    /// A fireball touched the boss. A dying boss and a burnt-out fireball
    /// change nothing; otherwise the fireball burns out (unless it
    /// pierces) and its damage comes off the boss's hit points. Returns
    /// whether the boss was hit.
    pub fn fireball_hit(&self, fireball: &mut Fireball, health: &mut Health) -> (hit: bool)
        ensures
            hit == (self.state != DemonBossState::Dying && !old(fireball).disabled),
            hit ==> *final(fireball) == (Fireball { disabled: !old(fireball).piercing, ..*old(fireball) })
                && final(health).health == after_damage(old(health).health, old(fireball).damage),
            !hit ==> *final(fireball) == *old(fireball) && *final(health) == *old(health),
    {
        if self.state == DemonBossState::Dying {
            return false;
        }
        if fireball.disabled() {
            return false;
        }
        fireball.disable();
        health.damage(fireball.damage);
        true
    }

    /// A lightning, a strike of the lightning bird or an icicle dealing
    /// `damage` touched the boss: unless it is dying it loses the hit
    /// points. Returns whether it was hit.
    pub fn spell_hit(&self, health: &mut Health, damage: u32) -> (hit: bool)
        ensures
            hit == (self.state != DemonBossState::Dying),
            final(health).health == (if hit {
                after_damage(old(health).health, damage)
            } else {
                old(health).health
            }),
    {
        if self.state == DemonBossState::Dying {
            return false;
        }
        health.damage(damage);
        true
    }

    /// Checks the boss's death: a dying boss whose animation finished is to
    /// be despawned, and a boss out of hit points starts dying. Returns
    /// whether to despawn it and whether it started dying now.
    pub fn check_death(&mut self, health: &Health, animation_finished: bool) -> (res: (bool, bool))
        ensures
            res.0 == (old(self).state == DemonBossState::Dying && animation_finished),
            res.1 == (health.health <= 0 && old(self).state != DemonBossState::Dying),
            final(self).state == (if res.1 {
                DemonBossState::Dying
            } else {
                old(self).state
            }),
            final(self).damage == old(self).damage,
            final(self).rage@ == old(self).rage@,
    {
        let despawn = self.state == DemonBossState::Dying && animation_finished;
        let mut died = false;
        if health.is_dead() && self.state != DemonBossState::Dying {
            self.state = DemonBossState::Dying;
            died = true;
        }
        (despawn, died)
    }

    /// The rage timer finished (it only runs while the boss rages).
    pub fn rage_timer_finished(&mut self)
        ensures
            final(self).rage@ == (DemonBossRageView { active: false, ..old(self).rage@ }),
            final(self).state == old(self).state,
            final(self).damage == old(self).damage,
    {
        self.rage.expire();
    }

    /// What the boss's velocity does this frame: a staggering boss is left
    /// to the push, a walking one chases the player (twice as fast when
    /// raging), any other stands still. `Some(m)` is a chase at `m` times
    /// the walking speed.
    pub fn chase_speed(&self) -> (m: Option<Option<u32>>)
        ensures
            m == (if self.state == DemonBossState::Staggering {
                None
            } else if self.state != DemonBossState::Moving {
                Some(None)
            } else {
                Some(Some(if self.rage@.active { 2u32 } else { 1u32 }))
            }),
    {
        if self.state == DemonBossState::Staggering {
            return None;
        }
        if self.state != DemonBossState::Moving {
            return Some(None);
        }
        if self.rage.is_active() {
            Some(Some(2))
        } else {
            Some(Some(1))
        }
    }

    /// The animation clip (index into the boss's clips: idle, casting,
    /// walking, striking, staggering, dying) and whether it loops.
    pub fn animation(&self) -> (clip: (usize, bool))
        ensures
            clip == (match self.state {
                DemonBossState::Idling => (0usize, true),
                DemonBossState::Casting => (1, true),
                DemonBossState::Moving => (2, true),
                DemonBossState::Striking => (3, false),
                DemonBossState::Staggering => (4, false),
                DemonBossState::Dying => (5, false),
            }),
    {
        match self.state {
            DemonBossState::Idling => (0, true),
            DemonBossState::Casting => (1, true),
            DemonBossState::Moving => (2, true),
            DemonBossState::Striking => (3, false),
            DemonBossState::Staggering => (4, false),
            DemonBossState::Dying => (5, false),
        }
    }

    /// Whether the boss turns to face the player: not mid-strike and not
    /// while staggering.
    pub fn faces_player(&self) -> (res: bool)
        ensures
            res == (self.state != DemonBossState::Striking && self.state != DemonBossState::Staggering),
    {
        self.state != DemonBossState::Striking && self.state != DemonBossState::Staggering
    }

    /// Whether a footstep sounds: the boss walks and its step timer just
    /// finished.
    pub fn plays_step_sound(&self, step_timer_finished: bool) -> (res: bool)
        ensures
            res == (self.state == DemonBossState::Moving && step_timer_finished),
    {
        self.state == DemonBossState::Moving && step_timer_finished
    }

    /// Whether the rage aura is to be shown: the boss rages and is not
    /// dying.
    pub fn shows_rage_aura(&self) -> (res: bool)
        ensures
            res == (self.rage@.active && self.state != DemonBossState::Dying),
    {
        self.rage.is_active() && self.state != DemonBossState::Dying
    }

    /// Whether a strike cooldown starts this frame: the boss strikes and no
    /// cooldown runs.
    pub fn starts_strike_cooldown(&self, cooldown_running: bool) -> (res: bool)
        ensures
            res == (!cooldown_running && self.state == DemonBossState::Striking),
    {
        !cooldown_running && self.state == DemonBossState::Striking
    }

    /// Whether a spell starts this frame: the boss casts, no spell is being
    /// cast and no spell cooldown runs.
    pub fn starts_spell(&self, spell_in_progress: bool, cooldown_running: bool) -> (res: bool)
        ensures
            res == (self.state == DemonBossState::Casting && !spell_in_progress && !cooldown_running),
    {
        self.state == DemonBossState::Casting && !spell_in_progress && !cooldown_running
    }
}

/// Whether a strike is due this frame: the player is present and within
/// striking range, no strike cooldown runs, and the boss is not dying, not
/// in the middle of a strike and not in the middle of a spell (a strike or
/// a spell whose end comes this frame no longer holds it back).
pub open spec fn strike_is_due(s: DemonBossState, f: BossFrame) -> bool {
    &&& f.player_present
    &&& f.in_strike_range
    &&& !f.strike_cooldown
    &&& s != DemonBossState::Dying
    &&& s == DemonBossState::Casting ==> f.spell_released
    &&& s == DemonBossState::Striking ==> f.animation_finished
}

/// Striking comes before casting: when a strike is due the boss strikes,
/// whatever the spell timer and the spell cooldown say; and a boss that
/// ends the frame striking either was mid-strike already or had a strike
/// due.
pub proof fn lemma_strike_before_cast(s: DemonBossState, f: BossFrame)
    ensures
        strike_is_due(s, f) ==> boss_frame(s, f).0 == DemonBossState::Striking,
        boss_frame(s, f).0 == DemonBossState::Striking ==> strike_is_due(s, f) || (s
            == DemonBossState::Striking && !f.animation_finished),
        boss_frame(s, f).0 == DemonBossState::Casting ==> !strike_is_due(s, f),
{
}

/// One frame never takes the boss out of dying, and never makes it stagger
/// (only an air current does).
pub proof fn lemma_frame_keeps_dying(s: DemonBossState, f: BossFrame)
    ensures
        s == DemonBossState::Dying ==> boss_frame(s, f).0 == DemonBossState::Dying,
        boss_frame(s, f).0 == DemonBossState::Staggering ==> s == DemonBossState::Staggering,
        s == DemonBossState::Dying ==> boss_frame(s, f).1 is None,
{
}

/// A walking boss keeps walking when nothing is in reach: no player, or
/// cooldowns on both strike and spell.
pub proof fn lemma_frame_idle_walks(s: DemonBossState, f: BossFrame)
    requires
        s == DemonBossState::Idling,
        !f.movement_cooldown,
        !f.player_present,
    ensures
        boss_frame(s, f) == (DemonBossState::Moving, None::<u32>),
{
}

/// The strike hitbox of the boss.
#[derive(Clone, Copy, Debug, PartialEq, Eq, Structural)]
pub struct DemonBossStrike {
    /// The hitbox is live this frame.
    pub striked: bool,
    /// The explosions of this strike were spawned.
    pub spawned_explosions: bool,
}

impl DemonBossStrike {
    /// No strike going on.
    pub fn new() -> (s: DemonBossStrike)
        ensures
            s == (DemonBossStrike { striked: false, spawned_explosions: false }),
    {
        DemonBossStrike { striked: false, spawned_explosions: false }
    }

    /// Updates the hitbox: outside a strike everything is reset; during a
    /// strike the hitbox is live while the animation is in its hitting
    /// window. Returns whether the hitbox collides (only during a strike
    /// does the engine change its collision groups).
    pub fn toggle_hitbox(&mut self, state: DemonBossState, in_window: bool) -> (live: Option<bool>)
        ensures
            state != DemonBossState::Striking ==> live is None && *final(self) == (DemonBossStrike {
                striked: false,
                spawned_explosions: false,
            }),
            state == DemonBossState::Striking ==> live == Some(in_window) && *final(self) == (
            DemonBossStrike { striked: in_window, ..*old(self) }),
    {
        if state != DemonBossState::Striking {
            self.striked = false;
            self.spawned_explosions = false;
            return None;
        }
        self.striked = in_window;
        Some(in_window)
    }

    /// Whether the explosions of the strike are spawned now: during a
    /// strike, once the hitbox went live, and only once per strike.
    pub fn spawn_strike_explosions(&mut self, state: DemonBossState) -> (spawn: bool)
        ensures
            spawn == (state == DemonBossState::Striking && old(self).striked && !old(self).spawned_explosions),
            *final(self) == (DemonBossStrike {
                spawned_explosions: old(self).spawned_explosions || spawn,
                ..*old(self)
            }),
    {
        if state != DemonBossState::Striking {
            return false;
        }
        if !self.striked || self.spawned_explosions {
            return false;
        }
        self.spawned_explosions = true;
        true
    }
}

/// Explosions of a strike are spawned at most once: right after spawning
/// them, asking again spawns nothing.
pub proof fn lemma_strike_explodes_once(s: DemonBossStrike, state: DemonBossState)
    requires
        s.spawned_explosions,
    ensures
        !(state == DemonBossState::Striking && s.striked && !s.spawned_explosions),
{
}

/// Calls `rand::Rng::gen_range` on `0..n` with the thread-local generator.
/// Trusted, as `rand`'s documentation states: the result lies in `0..n`
/// (`n` must not be zero: an empty range panics). Which value comes is left
/// to chance and not stated.
#[verifier::external_body]
fn random_below(n: u32) -> (r: u32)
    requires
        n > 0,
    ensures
        r < n,
{
    rand::thread_rng().gen_range(0..n)
}

/// The spell that a roll of `0..2` picks: 0 is an explosion, anything else
/// an earth prison.
pub fn demon_spell_from_roll(roll: u32) -> (spell: DemonSpell)
    ensures
        spell == (if roll == 0 {
            DemonSpell::Explosion
        } else {
            DemonSpell::EarthPrison
        }),
{
    if roll == 0 {
        DemonSpell::Explosion
    } else {
        DemonSpell::EarthPrison
    }
}

/// Picks the boss's next spell at random, each of the two with a roll of
/// `0..2`.
pub fn pick_random_spell() -> (spell: DemonSpell) {
    demon_spell_from_roll(random_below(2))
}

/// The older attack system: unless striking, the boss strikes a player in
/// range, walks towards one at least twice the range away (squared
/// distances), and idles in between.
pub fn strike_attack(state: DemonBossState, in_strike_range: bool, beyond_double_range: bool) -> (next: DemonBossState)
    ensures
        next == (if state == DemonBossState::Striking {
            state
        } else if in_strike_range {
            DemonBossState::Striking
        } else if beyond_double_range {
            DemonBossState::Moving
        } else {
            DemonBossState::Idling
        }),
{
    if state == DemonBossState::Striking {
        return state;
    }
    if in_strike_range {
        DemonBossState::Striking
    } else if beyond_double_range {
        DemonBossState::Moving
    } else {
        DemonBossState::Idling
    }
}

/// How many explosions the explosion spell scatters around the player.
pub const EXPLOSION_COUNT: usize = 10;
/// How many pairs of explosions run along the ground after a strike.
pub const STRIKE_EXPLOSION_PAIRS: usize = 5;
/// The delay between consecutive explosions, in milliseconds.
pub const EXPLOSION_STEP_MS: u32 = 100;

/// The delays (in milliseconds) of `n` explosions going off one after the
/// other, the first at once.
pub fn explosion_delays(n: usize) -> (delays: Vec<u32>)
    requires
        n <= EXPLOSION_COUNT,
    ensures
        delays@.len() == n,
        forall|i: int| 0 <= i < n ==> #[trigger] delays@[i] == EXPLOSION_STEP_MS * i,
{
    let mut delays: Vec<u32> = Vec::new();
    let mut i: usize = 0;
    while i < n
        invariant
            i <= n,
            n <= EXPLOSION_COUNT,
            delays@.len() == i,
            forall|j: int| 0 <= j < i ==> #[trigger] delays@[j] == EXPLOSION_STEP_MS * j,
        decreases n - i,
    {
        delays.push(EXPLOSION_STEP_MS * (i as u32));
        i = i + 1;
    }
    delays
}

} // verus!
