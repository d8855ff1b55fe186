use mage_arena::health::Health;
use mage_arena::player::{
    apply_contact_damage, movement_direction, player_changed_state, player_died, player_movement,
    player_sprite_indicies, scroll_zoom, switch_player_mode, zoom_step, ModeInput, MovementKeys,
    PlayerChangedState, PlayerState, Velocity, PLAYER_HEALTH,
};
use mage_arena::slime::SLIME_DAMAGE;

const NONE: ModeInput = ModeInput { casting: false, toggle_spell_book: false, escape: false };

#[test]
fn console_and_book() {
    let s = PlayerState::new();
    let cast = ModeInput { casting: true, ..NONE };
    let book = ModeInput { toggle_spell_book: true, ..NONE };
    let esc = ModeInput { escape: true, ..NONE };
    assert_eq!(switch_player_mode(s, cast, false), (PlayerState::Casting, false));
    assert_eq!(switch_player_mode(PlayerState::Moving, ModeInput { casting: true, toggle_spell_book: true, escape: false }, false), (PlayerState::Casting, false));
    assert_eq!(switch_player_mode(s, book, false), (PlayerState::SpellBook, false));
    assert_eq!(switch_player_mode(PlayerState::Casting, book, false), (PlayerState::Casting, false));
    assert_eq!(switch_player_mode(PlayerState::Casting, esc, false), (PlayerState::Idling, false));
    assert_eq!(switch_player_mode(PlayerState::SpellBook, book, false), (PlayerState::Idling, false));
    assert_eq!(switch_player_mode(PlayerState::SpellBook, esc, false), (PlayerState::Idling, false));
}

#[test]
fn staggering_waits_for_timer() {
    let all = ModeInput { casting: true, toggle_spell_book: true, escape: true };
    assert_eq!(switch_player_mode(PlayerState::Staggering, all, false), (PlayerState::Staggering, false));
    assert_eq!(switch_player_mode(PlayerState::Staggering, NONE, true), (PlayerState::Idling, true));
}

#[test]
fn changes_are_reported_once() {
    let mut last = PlayerState::Idling;
    assert_eq!(player_changed_state(&mut last, PlayerState::Idling), None);
    assert_eq!(
        player_changed_state(&mut last, PlayerState::Moving),
        Some(PlayerChangedState { old_state: PlayerState::Idling, new_state: PlayerState::Moving })
    );
    assert_eq!(last, PlayerState::Moving);
    assert_eq!(player_changed_state(&mut last, PlayerState::Moving), None);
}

#[test]
fn walking() {
    assert_eq!(player_movement(PlayerState::Idling, true), (PlayerState::Moving, Velocity::Walk));
    assert_eq!(player_movement(PlayerState::Moving, false), (PlayerState::Idling, Velocity::Stop));
    assert_eq!(player_movement(PlayerState::Casting, true), (PlayerState::Casting, Velocity::Stop));
    assert_eq!(player_movement(PlayerState::SpellBook, true), (PlayerState::SpellBook, Velocity::Stop));
    assert_eq!(player_movement(PlayerState::Staggering, true), (PlayerState::Staggering, Velocity::Keep));
}

#[test]
fn player_sprites() {
    assert_eq!(player_sprite_indicies(&PlayerState::Casting), (12, 17));
    assert_eq!(player_sprite_indicies(&PlayerState::SpellBook), (0, 5));
    assert_eq!(player_sprite_indicies(&PlayerState::Staggering), (18, 18));
}

#[test]
fn contact_damage_until_death() {
    let mut s = PlayerState::Moving;
    let mut h = Health::new(PLAYER_HEALTH);
    for _ in 0..9 {
        apply_contact_damage(&mut s, &mut h, SLIME_DAMAGE);
    }
    assert_eq!(s, PlayerState::Staggering);
    assert_eq!(h.health, 1);
    assert!(!player_died(&h));
    apply_contact_damage(&mut s, &mut h, 2);
    assert!(player_died(&h));
}

#[test]
fn keys_to_direction() {
    let k = MovementKeys { down: false, up: true, right: true, left: false };
    assert_eq!(movement_direction(k), (1, 1));
    let k = MovementKeys { down: true, up: true, right: false, left: true };
    assert_eq!(movement_direction(k), (-1, 0));
    let k = MovementKeys { down: false, up: false, right: false, left: false };
    assert_eq!(movement_direction(k), (0, 0));
}

#[test]
fn zooming() {
    assert_eq!(zoom_step(true, false), Some(-1));
    assert_eq!(zoom_step(false, true), Some(1));
    assert_eq!(zoom_step(true, true), None);
    assert_eq!(zoom_step(false, false), None);
    assert_eq!(scroll_zoom(true), -1);
    assert_eq!(scroll_zoom(false), 1);
}

#[test]
fn footsteps_only_while_walking() {
    assert!(mage_arena::player::plays_step_sound(PlayerState::Moving, true));
    assert!(!mage_arena::player::plays_step_sound(PlayerState::Moving, false));
    assert!(!mage_arena::player::plays_step_sound(PlayerState::Idling, true));
    assert!(!mage_arena::player::plays_step_sound(PlayerState::Staggering, true));
}
