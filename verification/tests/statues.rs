use mage_arena::item::Item;
use mage_arena::statue::{
    final_act_available, mark_all_enemies_spawned, unlock_statues, ActiveItems, EarthWall,
    SpawnedMark, Statue,
};

#[test]
fn new_statue_is_locked() {
    let s = Statue::new(Item::Fulgur);
    assert_eq!(s.item(), Item::Fulgur);
    assert!(!s.is_unlocked());
    assert!(!s.is_triggered());
    assert!(!s.all_enemies_spawned);
}

#[test]
fn set_unlocked_sets() {
    let mut s = Statue::new(Item::Fulgur);
    s.set_unlocked(true);
    assert!(s.is_unlocked());
    s.set_unlocked(false);
    assert!(!s.is_unlocked());
}

#[test]
fn statue_triggers_once() {
    let mut s = Statue::new(Item::IgnisPila);
    assert!(!s.trigger(false));
    assert!(s.trigger(true));
    assert!(s.is_triggered());
    assert!(!s.trigger(true));
}

#[test]
fn unlock_waits_for_spawned_and_dead_enemies() {
    let mut statues = vec![Statue::new(Item::Fulgur), Statue::new(Item::IgnisPila), Statue::new(Item::AerTracto)];
    statues[0].all_enemies_spawned = true;
    statues[2].all_enemies_spawned = true;
    let mut active = ActiveItems(vec![Item::Tutorial]);

    assert!(unlock_statues(&mut statues, &mut active, true).is_empty());
    assert_eq!(active.0, vec![Item::Tutorial]);

    let unlocked = unlock_statues(&mut statues, &mut active, false);
    assert_eq!(unlocked, vec![Item::Fulgur, Item::AerTracto]);
    assert_eq!(active.0, vec![Item::Tutorial, Item::Fulgur, Item::AerTracto]);
    assert!(statues[0].is_unlocked());
    assert!(!statues[1].is_unlocked());
    assert!(statues[2].is_unlocked());

    assert!(unlock_statues(&mut statues, &mut active, false).is_empty());
    assert_eq!(active.0.len(), 3);
}

#[test]
fn spawner_done_marks_first_matching_statue() {
    let mut statues = vec![Statue::new(Item::Fulgur), Statue::new(Item::AerPello), Statue::new(Item::AerPello)];
    assert_eq!(
        mark_all_enemies_spawned(&mut statues, Item::AerPello),
        SpawnedMark::Marked { index: 1, already: false }
    );
    assert!(statues[1].all_enemies_spawned);
    assert!(!statues[2].all_enemies_spawned);
    assert_eq!(
        mark_all_enemies_spawned(&mut statues, Item::AerPello),
        SpawnedMark::Marked { index: 1, already: true }
    );
    assert_eq!(mark_all_enemies_spawned(&mut statues, Item::Tutorial), SpawnedMark::NoStatue);
}

#[test]
fn final_act_needs_all_items() {
    let seven = ActiveItems(vec![Item::Fulgur; 7]);
    let eight = ActiveItems(vec![Item::Fulgur; 8]);
    assert!(!final_act_available(&seven));
    assert!(final_act_available(&eight));
}

#[test]
fn earth_wall_crumbles_once() {
    let mut w = EarthWall::new();
    assert!(!w.vanishes(true));
    assert!(w.start_despawn());
    assert!(!w.start_despawn());
    assert!(!w.vanishes(false));
    assert!(w.vanishes(true));
}
