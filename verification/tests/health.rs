use mage_arena::health::Health;

#[test]
fn damage_and_death() {
    let mut h = Health::new(10);
    h.damage(3);
    assert_eq!(h.health, 7);
    assert!(!h.is_dead());
    h.damage(7);
    assert!(h.is_dead());
    h.kill();
    assert_eq!(h.health, 0);
}

#[test]
fn damage_floors_at_lowest_value() {
    let mut h = Health::new(i64::MIN + 2);
    h.damage(5);
    assert_eq!(h.health, i64::MIN);
}
