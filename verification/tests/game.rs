use mage_arena::game::{after_player_check, after_portal_check, collision_between, final_act_triggers, GameState};
use mage_arena::health::Health;

#[test]
fn game_starts_loading() {
    assert_eq!(GameState::new(), GameState::AssetLoading);
}

#[test]
fn collisions_in_either_order() {
    assert!(collision_between(1, 2, 1, 2));
    assert!(collision_between(1, 2, 2, 1));
    assert!(!collision_between(1, 2, 1, 3));
    assert!(!collision_between(1, 2, 2, 2));
}

#[test]
fn dead_player_loses() {
    assert_eq!(after_player_check(GameState::Gaming, &Health::new(1)), GameState::Gaming);
    assert_eq!(after_player_check(GameState::Gaming, &Health::new(0)), GameState::GameOver);
    assert_eq!(after_player_check(GameState::Gaming, &Health::new(-3)), GameState::GameOver);
}

#[test]
fn touching_the_portal_wins() {
    assert_eq!(after_portal_check(GameState::Gaming, 7, 9, &vec![(1, 2), (9, 7)]), GameState::Win);
    assert_eq!(after_portal_check(GameState::Gaming, 7, 9, &vec![(1, 2), (7, 8)]), GameState::Gaming);
    assert_eq!(after_portal_check(GameState::Gaming, 7, 9, &Vec::new()), GameState::Gaming);
}

#[test]
fn final_act_per_touch() {
    assert_eq!(final_act_triggers(7, 9, &vec![(7, 9), (1, 1), (9, 7)]), 2);
    assert_eq!(final_act_triggers(7, 9, &vec![(7, 7)]), 0);
}
