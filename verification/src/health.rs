use vstd::prelude::*;

verus! {

/// Hit points of the player or of an enemy. Every damage value of the game
/// is a whole number, so hit points are whole numbers too.
#[derive(Clone, Copy, Debug, PartialEq, Eq, Structural)]
pub struct Health {
    pub health: i64,
}

/// What `damage` leaves of `health`: the difference, or the lowest value
/// an `i64` holds if the difference goes below it.
pub open spec fn after_damage(health: i64, damage: u32) -> i64 {
    if health - damage >= i64::MIN {
        (health - damage) as i64
    } else {
        i64::MIN
    }
}

impl Health {
    /// Full hit points.
    pub fn new(health: i64) -> (h: Health)
        ensures
            h.health == health,
    {
        Health { health }
    }

    /// Takes `damage` off the hit points.
    pub fn damage(&mut self, damage: u32)
        ensures
            final(self).health == after_damage(old(self).health, damage),
    {
        let d = damage as i64;
        if self.health >= i64::MIN + d {
            self.health = self.health - d;
        } else {
            self.health = i64::MIN;
        }
    }

    /// Sets the hit points to zero.
    pub fn kill(&mut self)
        ensures
            final(self).health == 0,
    {
        self.health = 0;
    }

    /// Whether no hit point is left.
    pub fn is_dead(&self) -> (dead: bool)
        ensures
            dead == (self.health <= 0),
    {
        self.health <= 0
    }
}

/// Damage never raises hit points, and a positive damage lowers them while
/// there is room below.
pub proof fn lemma_damage_lowers(health: i64, damage: u32)
    ensures
        after_damage(health, damage) <= health,
        damage > 0 && health > i64::MIN + u32::MAX ==> after_damage(health, damage) < health,
{
}

} // verus!
