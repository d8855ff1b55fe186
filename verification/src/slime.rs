use vstd::prelude::*;

use crate::health::{after_damage, Health};
use crate::spell::Fireball;

verus! {

/// Damage a slime deals on contact.
pub const SLIME_DAMAGE: u32 = 1;

/// Hit points of a slime.
pub const SLIME_HEALTH: i64 = 10;

/// What a slime is doing.
#[derive(Clone, Copy, Debug, PartialEq, Eq, Structural)]
pub enum SlimeState {
    Idling,
    Jumping,
    Staggering,
    Dying,
}

/// The timer that runs in each state of a slime.
#[derive(Clone, Copy, Debug, PartialEq, Eq, Structural)]
pub enum SlimeTimer {
    /// Idle: the wait before the next jump (3.5 s, repeating).
    JumpCooldown,
    /// Jumping: the length of a jump (0.5 s, repeating).
    Jump,
    /// Staggering: the length of a stagger (0.2 s, repeating).
    Stagger,
    /// Dying: the death animation (0.42 s, once).
    Death,
}

/// A sound a slime makes.
#[derive(Clone, Copy, Debug, PartialEq, Eq, Structural)]
pub enum SlimeSound {
    Jump,
    Land,
    Hit,
    Death,
}

/// How a slime reacts to touching the player.
#[derive(Clone, Copy, Debug, PartialEq, Eq, Structural)]
pub enum PlayerContact {
    /// A dying slime: nothing happens.
    Ignore,
    /// A jumping slime keeps flying but stops steering.
    StopJump,
    /// Any other slime is knocked back, staggers and restarts its jump
    /// cooldown.
    KnockBack,
}

/// What the engine does with a slime's velocity this frame.
#[derive(Clone, Copy, Debug, PartialEq, Eq, Structural)]
pub enum SlimeMotion {
    /// Leave it (a knockback is running).
    Keep,
    /// Stand still.
    Stop,
    /// Fly along the jump direction at the jump speed.
    Jump,
}

/// A slime enemy: its state, and whether its death animation is over.
#[derive(Clone, Copy, Debug, PartialEq, Eq, Structural)]
pub struct SlimeEnemy {
    pub state: SlimeState,
    pub disabled: bool,
}

/// The state of a slime after the timer of its state finished.
pub open spec fn after_timer(state: SlimeState) -> SlimeState {
    match state {
        SlimeState::Idling => SlimeState::Jumping,
        SlimeState::Jumping => SlimeState::Idling,
        SlimeState::Staggering => SlimeState::Idling,
        SlimeState::Dying => SlimeState::Dying,
    }
}

/// The sound a slime makes when the timer of its state finished.
pub open spec fn timer_sound(state: SlimeState) -> Option<SlimeSound> {
    match state {
        SlimeState::Idling => Some(SlimeSound::Jump),
        SlimeState::Jumping => Some(SlimeSound::Land),
        SlimeState::Staggering => Some(SlimeSound::Hit),
        SlimeState::Dying => None,
    }
}

/// The state of a slime after a hit by a fireball, lightning or icicle.
pub open spec fn after_hit(state: SlimeState) -> SlimeState {
    if state == SlimeState::Dying {
        SlimeState::Dying
    } else {
        SlimeState::Staggering
    }
}

impl SlimeEnemy {
    /// A freshly spawned slime, idle.
    pub fn new() -> (s: SlimeEnemy)
        ensures
            s == (SlimeEnemy { state: SlimeState::Idling, disabled: false }),
    {
        SlimeEnemy { state: SlimeState::Idling, disabled: false }
    }

    /// The timer that runs in the slime's state.
    pub fn running_timer(&self) -> (t: SlimeTimer)
        ensures
            t == (match self.state {
                SlimeState::Idling => SlimeTimer::JumpCooldown,
                SlimeState::Jumping => SlimeTimer::Jump,
                SlimeState::Staggering => SlimeTimer::Stagger,
                SlimeState::Dying => SlimeTimer::Death,
            }),
    {
        match self.state {
            SlimeState::Idling => SlimeTimer::JumpCooldown,
            SlimeState::Jumping => SlimeTimer::Jump,
            SlimeState::Staggering => SlimeTimer::Stagger,
            SlimeState::Dying => SlimeTimer::Death,
        }
    }

    /// The timer of the slime's state just finished: an idle slime jumps,
    /// a jumping one lands, a staggering one recovers, and a dying one is
    /// done dying (it gets despawned). Returns the sound to play.
    pub fn on_timer_finished(&mut self) -> (sound: Option<SlimeSound>)
        ensures
            final(self).state == after_timer(old(self).state),
            final(self).disabled == (old(self).disabled || old(self).state == SlimeState::Dying),
            sound == timer_sound(old(self).state),
    {
        match self.state {
            SlimeState::Idling => {
                self.state = SlimeState::Jumping;
                Some(SlimeSound::Jump)
            },
            SlimeState::Jumping => {
                self.state = SlimeState::Idling;
                Some(SlimeSound::Land)
            },
            SlimeState::Staggering => {
                self.state = SlimeState::Idling;
                Some(SlimeSound::Hit)
            },
            SlimeState::Dying => {
                self.disabled = true;
                None
            },
        }
    }

    /// The slime touched the player.
    pub fn player_collision(&mut self) -> (contact: PlayerContact)
        ensures
            contact == (match old(self).state {
                SlimeState::Dying => PlayerContact::Ignore,
                SlimeState::Jumping => PlayerContact::StopJump,
                _ => PlayerContact::KnockBack,
            }),
            *final(self) == (SlimeEnemy {
                state: if contact == PlayerContact::KnockBack {
                    SlimeState::Staggering
                } else {
                    old(self).state
                },
                ..*old(self)
            }),
    {
        match self.state {
            SlimeState::Dying => PlayerContact::Ignore,
            SlimeState::Jumping => PlayerContact::StopJump,
            _ => {
                self.state = SlimeState::Staggering;
                PlayerContact::KnockBack
            },
        }
    }

    /// A fireball touched the slime. A dying slime and a burnt-out fireball
    /// change nothing; otherwise the fireball burns out (unless it
    /// pierces), its damage comes off the slime's hit points and the slime
    /// staggers. Returns whether the slime was hit (and is knocked back).
    pub fn fireball_hit(&mut self, fireball: &mut Fireball, health: &mut Health) -> (hit: bool)
        ensures
            hit == (old(self).state != SlimeState::Dying && !old(fireball).disabled),
            hit ==> {
                &&& final(self).state == SlimeState::Staggering
                &&& final(self).disabled == old(self).disabled
                &&& *final(fireball) == (Fireball {
                    disabled: !old(fireball).piercing,
                    ..*old(fireball)
                })
                &&& final(health).health == after_damage(old(health).health, old(fireball).damage)
            },
            !hit ==> *final(self) == *old(self) && *final(fireball) == *old(fireball) && *final(health)
                == *old(health),
    {
        if self.state == SlimeState::Dying {
            return false;
        }
        if fireball.disabled() {
            return false;
        }
        fireball.disable();
        health.damage(fireball.damage);
        self.state = SlimeState::Staggering;
        true
    }

    /// A lightning (or a strike of the lightning bird) dealing `damage`
    /// touched the slime: unless it is dying, it loses the hit points,
    /// stops and staggers. Returns whether it was hit.
    pub fn lightning_hit(&mut self, health: &mut Health, damage: u32) -> (hit: bool)
        ensures
            hit == (old(self).state != SlimeState::Dying),
            final(self).state == after_hit(old(self).state),
            final(self).disabled == old(self).disabled,
            final(health).health == (if hit {
                after_damage(old(health).health, damage)
            } else {
                old(health).health
            }),
    {
        if self.state == SlimeState::Dying {
            return false;
        }
        health.damage(damage);
        self.state = SlimeState::Staggering;
        true
    }

    /// An icicle dealing `damage` touched the slime: unless it is dying, it
    /// loses the hit points, staggers and is knocked away from the player.
    /// Returns whether it was hit.
    pub fn icicle_hit(&mut self, health: &mut Health, damage: u32) -> (hit: bool)
        ensures
            hit == (old(self).state != SlimeState::Dying),
            final(self).state == after_hit(old(self).state),
            final(self).disabled == old(self).disabled,
            final(health).health == (if hit {
                after_damage(old(health).health, damage)
            } else {
                old(health).health
            }),
    {
        self.lightning_hit(health, damage)
    }

    /// An air current dealing `damage` touched the slime: it loses the hit
    /// points and staggers, pulled along the current. Unlike the other
    /// hits this one also reaches a dying slime.
    pub fn aer_tracto_hit(&mut self, health: &mut Health, damage: u32)
        ensures
            final(self).state == SlimeState::Staggering,
            final(self).disabled == old(self).disabled,
            final(health).health == after_damage(old(health).health, damage),
    {
        health.damage(damage);
        self.state = SlimeState::Staggering;
    }

    /// Checks the slime's hit points: a slime out of hit points starts dying
    /// (once; the death sound plays then). Returns whether it started dying
    /// now, and whether it is to be despawned (its death animation is over).
    pub fn check_death(&mut self, health: &Health) -> (res: (bool, bool))
        ensures
            res.0 == (health.health <= 0 && old(self).state != SlimeState::Dying),
            final(self).state == (if res.0 {
                SlimeState::Dying
            } else {
                old(self).state
            }),
            final(self).disabled == old(self).disabled,
            res.1 == old(self).disabled,
    {
        let mut died = false;
        if health.is_dead() && self.state != SlimeState::Dying {
            self.state = SlimeState::Dying;
            died = true;
        }
        (died, self.disabled)
    }

    /// What happens to the slime's velocity this frame.
    pub fn motion(&self) -> (m: SlimeMotion)
        ensures
            m == (match self.state {
                SlimeState::Staggering => SlimeMotion::Keep,
                SlimeState::Jumping => SlimeMotion::Jump,
                _ => SlimeMotion::Stop,
            }),
    {
        match self.state {
            SlimeState::Staggering => SlimeMotion::Keep,
            SlimeState::Jumping => SlimeMotion::Jump,
            _ => SlimeMotion::Stop,
        }
    }

    /// Whether the slime aims its next jump at the player this frame: it
    /// does in every state but mid-jump.
    pub fn aims(&self) -> (res: bool)
        ensures
            res == (self.state != SlimeState::Jumping),
    {
        self.state != SlimeState::Jumping
    }
}

/// The first and last frame of a slime's animation in each state, in a
/// sprite sheet of six columns and four rows.
pub fn slime_sprite_indices(state: &SlimeState) -> (indices: (usize, usize))
    ensures
        indices == (match *state {
            SlimeState::Idling => (0usize, 5usize),
            SlimeState::Jumping => (6, 11),
            SlimeState::Staggering => (18, 18),
            SlimeState::Dying => (12, 17),
        }),
        indices.0 <= indices.1 < 24,
{
    match state {
        SlimeState::Idling => (0, 5),
        SlimeState::Jumping => (6, 11),
        SlimeState::Staggering => (18, 18),
        SlimeState::Dying => (12, 17),
    }
}

/// A dying slime stays dying through its timers, contact with the player
/// and fireball, lightning and icicle hits; only an air current can still
/// move it to staggering.
pub proof fn lemma_dying_is_final(s: SlimeEnemy)
    requires
        s.state == SlimeState::Dying,
    ensures
        after_timer(s.state) == SlimeState::Dying,
        after_hit(s.state) == SlimeState::Dying,
{
}

} // verus!
