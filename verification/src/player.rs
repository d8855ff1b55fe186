use vstd::prelude::*;

use crate::health::Health;

verus! {

/// Hit points the player starts with.
pub const PLAYER_HEALTH: i64 = 10;

/// What the player is doing.
#[derive(Clone, Copy, Debug, PartialEq, Eq, Structural)]
pub enum PlayerState {
    Idling,
    Moving,
    Casting,
    SpellBook,
    Staggering,
}

impl PlayerState {
    /// The player starts idle.
    pub fn new() -> (s: PlayerState)
        ensures
            s == PlayerState::Idling,
    {
        PlayerState::Idling
    }
}

/// The keys of one frame that switch the player's mode.
#[derive(Clone, Copy, Debug, PartialEq, Eq, Structural)]
pub struct ModeInput {
    /// `I`: open the spell console.
    pub casting: bool,
    /// `H`: open or close the spell book.
    pub toggle_spell_book: bool,
    /// `Escape`: close what is open.
    pub escape: bool,
}

/// The player's next mode, given the keys of this frame and whether the
/// staggering timer just finished.
pub open spec fn next_mode(state: PlayerState, input: ModeInput, staggering_over: bool) -> PlayerState {
    match state {
        PlayerState::Idling | PlayerState::Moving => if input.casting {
            PlayerState::Casting
        } else if input.toggle_spell_book {
            PlayerState::SpellBook
        } else {
            state
        },
        PlayerState::Casting => if input.escape {
            PlayerState::Idling
        } else {
            state
        },
        PlayerState::SpellBook => if input.escape || input.toggle_spell_book {
            PlayerState::Idling
        } else {
            state
        },
        PlayerState::Staggering => if staggering_over {
            PlayerState::Idling
        } else {
            state
        },
    }
}

/// Switches the player's mode. Returns the new mode and whether the
/// staggering timer is to be reset (when staggering ends).
pub fn switch_player_mode(state: PlayerState, input: ModeInput, staggering_over: bool) -> (res: (PlayerState, bool))
    ensures
        res.0 == next_mode(state, input, staggering_over),
        res.1 == (state == PlayerState::Staggering && staggering_over),
        (state == PlayerState::Idling || state == PlayerState::Moving) && !input.casting
            && input.toggle_spell_book ==> res.0 == PlayerState::SpellBook,
        (state == PlayerState::Idling || state == PlayerState::Moving) && input.casting ==> res.0
            == PlayerState::Casting,
{
    match state {
        PlayerState::Idling | PlayerState::Moving => {
            if input.casting {
                (PlayerState::Casting, false)
            } else if input.toggle_spell_book {
                (PlayerState::SpellBook, false)
            } else {
                (state, false)
            }
        },
        PlayerState::Casting => {
            if input.escape {
                (PlayerState::Idling, false)
            } else {
                (state, false)
            }
        },
        PlayerState::SpellBook => {
            if input.escape || input.toggle_spell_book {
                (PlayerState::Idling, false)
            } else {
                (state, false)
            }
        },
        PlayerState::Staggering => {
            if staggering_over {
                (PlayerState::Idling, true)
            } else {
                (state, false)
            }
        },
    }
}

/// A staggered player only recovers when the staggering timer finishes,
/// whatever keys are pressed; an open spell console only closes on
/// `Escape`.
pub proof fn lemma_mode_switch_guards(state: PlayerState, input: ModeInput, staggering_over: bool)
    ensures
        state == PlayerState::Staggering && !staggering_over ==> next_mode(state, input, staggering_over) == state,
        state == PlayerState::Casting && !input.escape ==> next_mode(state, input, staggering_over) == state,
        next_mode(state, input, staggering_over) == PlayerState::Staggering ==> state == PlayerState::Staggering,
{
}

/// From idling or walking, the console key opens the spell console and,
/// without it, the spell book key opens the spell book; with neither the
/// player keeps idling or walking. An open spell book closes on its key or
/// on `Escape`.
pub proof fn lemma_mode_keys_open_and_close(state: PlayerState, input: ModeInput, staggering_over: bool)
    ensures
        (state == PlayerState::Idling || state == PlayerState::Moving) ==> next_mode(
            state,
            input,
            staggering_over,
        ) == (if input.casting {
            PlayerState::Casting
        } else if input.toggle_spell_book {
            PlayerState::SpellBook
        } else {
            state
        }),
        state == PlayerState::SpellBook ==> (next_mode(state, input, staggering_over)
            == PlayerState::Idling <==> (input.escape || input.toggle_spell_book)),
        state == PlayerState::Casting ==> (next_mode(state, input, staggering_over)
            == PlayerState::Idling <==> input.escape),
{
}

/// A change of the player's mode, as reported to the rest of the game.
#[derive(Clone, Copy, Debug, PartialEq, Eq, Structural)]
pub struct PlayerChangedState {
    pub old_state: PlayerState,
    pub new_state: PlayerState,
}

/// Compares the mode seen last frame with the current one: a change is
/// reported, and the current mode is remembered.
pub fn player_changed_state(last_seen: &mut PlayerState, current: PlayerState) -> (change: Option<PlayerChangedState>)
    ensures
        *final(last_seen) == current,
        change == (if *old(last_seen) != current {
            Some(PlayerChangedState { old_state: *old(last_seen), new_state: current })
        } else {
            None
        }),
{
    if *last_seen != current {
        let change = PlayerChangedState { old_state: *last_seen, new_state: current };
        *last_seen = current;
        return Some(change);
    }
    None
}

/// What the movement system does with the player's velocity.
#[derive(Clone, Copy, Debug, PartialEq, Eq, Structural)]
pub enum Velocity {
    /// Leave it as it is.
    Keep,
    /// Set it to zero.
    Stop,
    /// Move along the input direction at the player's speed.
    Walk,
}

/// The movement of one frame: a player at the console or in the spell book
/// stands still, a staggered one is left to the knockback, and an idle or
/// moving one walks where the input points (or stops if it points nowhere).
/// Returns the new mode and what happens to the velocity.
pub fn player_movement(state: PlayerState, has_direction: bool) -> (res: (PlayerState, Velocity))
    ensures
        res == (match state {
            PlayerState::Casting | PlayerState::SpellBook => (state, Velocity::Stop),
            PlayerState::Staggering => (state, Velocity::Keep),
            PlayerState::Idling | PlayerState::Moving => if has_direction {
                (PlayerState::Moving, Velocity::Walk)
            } else {
                (PlayerState::Idling, Velocity::Stop)
            },
        }),
{
    match state {
        PlayerState::Casting | PlayerState::SpellBook => (state, Velocity::Stop),
        PlayerState::Staggering => (state, Velocity::Keep),
        PlayerState::Idling | PlayerState::Moving => {
            if has_direction {
                (PlayerState::Moving, Velocity::Walk)
            } else {
                (PlayerState::Idling, Velocity::Stop)
            }
        },
    }
}

/// The first and last frame of the player's animation in each mode, in a
/// sprite sheet of six columns and four rows.
pub fn player_sprite_indicies(state: &PlayerState) -> (indices: (usize, usize))
    ensures
        indices == (match *state {
            PlayerState::Idling => (0usize, 5usize),
            PlayerState::Moving => (6, 11),
            PlayerState::Casting => (12, 17),
            PlayerState::SpellBook => (0, 5),
            PlayerState::Staggering => (18, 18),
        }),
        indices.0 <= indices.1 < 24,
{
    match state {
        PlayerState::Idling => (0, 5),
        PlayerState::Moving => (6, 11),
        PlayerState::Casting => (12, 17),
        PlayerState::SpellBook => (0, 5),
        PlayerState::Staggering => (18, 18),
    }
}

/// An enemy touched the player: the enemy's damage comes off the player's
/// hit points and the player staggers (the engine knocks it back).
pub fn apply_contact_damage(state: &mut PlayerState, health: &mut Health, enemy_damage: u32)
    ensures
        *final(state) == PlayerState::Staggering,
        final(health).health == crate::health::after_damage(old(health).health, enemy_damage),
{
    health.damage(enemy_damage);
    *state = PlayerState::Staggering;
}

/// Whether a footstep sounds: the player walks and the step timer just
/// finished.
pub fn plays_step_sound(state: PlayerState, step_timer_finished: bool) -> (res: bool)
    ensures
        res == (state == PlayerState::Moving && step_timer_finished),
{
    state == PlayerState::Moving && step_timer_finished
}

/// Whether the player died, which ends the game.
pub fn player_died(health: &Health) -> (dead: bool)
    ensures
        dead == (health.health <= 0),
{
    health.is_dead()
}

/// The movement keys held this frame.
#[derive(Clone, Copy, Debug, PartialEq, Eq, Structural)]
pub struct MovementKeys {
    /// `J` or `S`.
    pub down: bool,
    /// `K` or `W`.
    pub up: bool,
    /// `F` or `D`.
    pub right: bool,
    /// `A`.
    pub left: bool,
}

/// The direction the held keys point to, one unit step per axis before
/// normalization: opposite keys cancel out.
pub fn movement_direction(keys: MovementKeys) -> (dir: (i8, i8))
    ensures
        dir.0 == (if keys.right { 1i8 } else { 0i8 }) - (if keys.left { 1i8 } else { 0i8 }),
        dir.1 == (if keys.up { 1i8 } else { 0i8 }) - (if keys.down { 1i8 } else { 0i8 }),
{
    let mut x: i8 = 0;
    let mut y: i8 = 0;
    if keys.down {
        y = y - 1;
    }
    if keys.up {
        y = y + 1;
    }
    if keys.right {
        x = x + 1;
    }
    if keys.left {
        x = x - 1;
    }
    (x, y)
}

/// The zoom step of the `+` and `-` keys: `+` zooms in (-1), `-` zooms out
/// (+1), both cancel out; `None` when the zoom does not change.
pub fn zoom_step(plus: bool, minus: bool) -> (zoom: Option<i8>)
    ensures
        zoom == (if plus == minus {
            None
        } else if plus {
            Some(-1i8)
        } else {
            Some(1i8)
        }),
{
    let mut zoom: i8 = 0;
    if plus {
        zoom = zoom - 1;
    }
    if minus {
        zoom = zoom + 1;
    }
    if zoom != 0 {
        Some(zoom)
    } else {
        None
    }
}

/// The zoom step of a mouse wheel event: scrolling up zooms in (-1), any
/// other scroll zooms out (+1).
pub fn scroll_zoom(scrolled_up: bool) -> (zoom: i8)
    ensures
        zoom == (if scrolled_up { -1i8 } else { 1i8 }),
{
    if scrolled_up {
        -1
    } else {
        1
    }
}

/// Movement numbers of the player.
#[derive(Clone, Copy, Debug, PartialEq, Eq, Structural)]
pub struct Stats {
    /// World units per second.
    pub move_speed: u32,
}

/// The player's normal speed.
pub const DEFAULT_MOVE_SPEED: u32 = 150;

impl Stats {
    /// Normal speed.
    pub fn new() -> (s: Stats)
        ensures
            s.move_speed == DEFAULT_MOVE_SPEED,
    {
        Stats { move_speed: DEFAULT_MOVE_SPEED }
    }

    /// The speed spell (`cito`) was cast: five times the normal speed.
    pub fn activate_speed_boost(&mut self)
        ensures
            final(self).move_speed == 5 * DEFAULT_MOVE_SPEED,
    {
        self.move_speed = 5 * DEFAULT_MOVE_SPEED;
    }

    /// A speed boost ran out while `running_boosts` boosts (this one
    /// included) were running: normal speed comes back only if it was the
    /// last one.
    pub fn end_speed_boost(&mut self, running_boosts: usize)
        ensures
            final(self).move_speed == (if running_boosts == 1 {
                DEFAULT_MOVE_SPEED
            } else {
                old(self).move_speed
            }),
    {
        if running_boosts == 1 {
            self.move_speed = DEFAULT_MOVE_SPEED;
        }
    }
}

} // verus!
