use mage_arena::item::{statue_sub_spawner, Item};
use mage_arena::spawner::{EnemySpawner, EnemySubSpawner, SpawnFormation, PADDED_TIME_MS};
use mage_arena::statue::Statue;

#[test]
fn empty_wave_defaults() {
    let w = EnemySubSpawner::new(Item::Fulgur);
    assert_eq!(w.count, 0);
    assert_eq!(w.offset, 200);
    assert_eq!(w.spawn_formation, SpawnFormation::Circle);
    assert_eq!(w.interval_ms, 0);
}

#[test]
fn instant_wave_spawns_all_at_once() {
    let mut w = statue_sub_spawner(&Statue::new(Item::IgnisPila))[0].1;
    assert_eq!(w.frame(false), vec![0, 1, 2]);
    assert!(w.disabled);
    assert!(w.frame(true).is_empty());
    assert_eq!(w.current_index, 3);
}

#[test]
fn timed_wave_spawns_one_per_interval() {
    let mut w = statue_sub_spawner(&Statue::new(Item::InfernoPila))[0].1;
    assert_eq!(w.count, 6);
    let mut all = Vec::new();
    for frame in 0..40 {
        all.extend(w.frame(frame % 3 == 0));
    }
    assert_eq!(all, vec![0, 1, 2, 3, 4, 5]);
    assert!(w.disabled);
}

#[test]
fn spawn_without_disable_keeps_counting() {
    let mut w = statue_sub_spawner(&Statue::new(Item::AerTracto))[1].1;
    assert_eq!(w.spawn_enemies(false), Vec::<usize>::new());
    assert_eq!(w.spawn_enemies(true), vec![0]);
    w.disable_when_done();
    assert!(!w.disabled);
}

#[test]
fn spawner_releases_waves_in_order() {
    let waves = statue_sub_spawner(&Statue::new(Item::FulgurAvis));
    let mut s = EnemySpawner::new(waves.clone(), Item::FulgurAvis);
    assert_eq!(s.spawn_sub_spawner(false), None);
    let (w0, t0) = s.spawn_sub_spawner(true).unwrap();
    assert_eq!(w0, waves[0].1);
    assert_eq!(t0, 10000 + PADDED_TIME_MS);
    let (w1, t1) = s.spawn_sub_spawner(true).unwrap();
    assert_eq!(w1, waves[1].1);
    assert_eq!(t1, 10500);
    s.disable_when_done(false, true);
    assert!(!s.is_disabled());
    let (w2, t2) = s.spawn_sub_spawner(true).unwrap();
    assert_eq!(w2, waves[2].1);
    assert_eq!(t2, 500);
    assert_eq!(s.spawn_sub_spawner(true), None);
    s.disable_when_done(true, true);
    assert!(!s.is_disabled());
    s.disable_when_done(false, false);
    assert!(!s.is_disabled());
    s.disable_when_done(false, true);
    assert!(s.is_disabled());
}

#[test]
fn spawner_without_waves_is_done_after_its_timer() {
    let mut s = EnemySpawner::new(Vec::new(), Item::Tutorial);
    assert_eq!(s.spawn_sub_spawner(true), None);
    s.disable_when_done(false, true);
    assert!(s.is_disabled());
}

#[test]
fn wave_well_formedness() {
    let waves = statue_sub_spawner(&Statue::new(Item::FulgurAvis));
    for (_, w) in waves.iter() {
        assert!(w.is_well_formed());
    }
    let empty = EnemySubSpawner::new(Item::Fulgur);
    // a fresh empty wave: spawns nothing, then is disabled
    assert!(empty.is_well_formed());
    let mut e = empty;
    assert!(e.frame(true).is_empty());
    assert!(e.disabled);
    assert_eq!(e.current_index, 0);
    let empty_one_by_one = EnemySubSpawner { interval_ms: 100, ..empty };
    assert!(!empty_one_by_one.is_well_formed());
    let overdone = EnemySubSpawner { current_index: 4, count: 3, disabled: true, ..empty };
    assert!(!overdone.is_well_formed());
    let midway = EnemySubSpawner { count: 3, current_index: 1, interval_ms: 100, ..empty };
    assert!(midway.is_well_formed());
    let burst_started = EnemySubSpawner { count: 3, current_index: 1, interval_ms: 0, ..empty };
    assert!(!burst_started.is_well_formed());
}
