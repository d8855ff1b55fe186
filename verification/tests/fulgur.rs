use mage_arena::fulgur::{distribute_strikes, fulgur_strikes, FULGUR_COUNT};

#[test]
fn no_enemy_no_strike() {
    assert!(fulgur_strikes(0).is_empty());
}

#[test]
fn single_enemy_takes_all() {
    assert_eq!(fulgur_strikes(1), vec![100]);
}

#[test]
fn strikes_always_add_up() {
    for k in 1..=150usize {
        let counts = fulgur_strikes(k);
        assert_eq!(counts.len(), k);
        assert_eq!(counts.iter().sum::<usize>(), FULGUR_COUNT);
        let m = FULGUR_COUNT / k;
        assert!(counts.iter().all(|&c| c == m || c == m + 1));
        assert_eq!(counts.iter().filter(|&&c| c == m + 1).count(), FULGUR_COUNT % k);
    }
}

#[test]
fn three_enemies_get_33_or_34() {
    let counts = fulgur_strikes(3);
    let mut sorted = counts.clone();
    sorted.sort();
    assert_eq!(sorted, vec![33, 33, 34]);
}

#[test]
fn remainder_goes_to_chosen() {
    assert_eq!(distribute_strikes(7, &vec![5, 1]), vec![14, 15, 14, 14, 14, 15, 14]);
    assert_eq!(distribute_strikes(4, &vec![]), vec![25, 25, 25, 25]);
}

#[test]
fn more_enemies_than_strikes() {
    let counts = fulgur_strikes(120);
    assert_eq!(counts.iter().filter(|&&c| c == 1).count(), 100);
    assert_eq!(counts.iter().filter(|&&c| c == 0).count(), 20);
}
