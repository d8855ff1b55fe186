use mage_arena::item::{item_icon, ItemIcon};
use mage_arena::item::{
    item_description, item_spell, item_title, item_wall_offset, statue_sub_spawner, wall_count, Item,
};
use mage_arena::spawner::SpawnFormation;
use mage_arena::spell::Spell;
use mage_arena::statue::Statue;

const ALL: [Item; 9] = [
    Item::NotImplemented,
    Item::Tutorial,
    Item::IgnisPila,
    Item::InfernoPila,
    Item::Fulgur,
    Item::ScutumGlaciei,
    Item::AerTracto,
    Item::AerPello,
    Item::FulgurAvis,
];

#[test]
fn level_names_map_to_items() {
    assert_eq!(Item::from_str("Tutorial"), Item::Tutorial);
    assert_eq!(Item::from_str("IgnisPila"), Item::IgnisPila);
    assert_eq!(Item::from_str("InfernoPila"), Item::InfernoPila);
    assert_eq!(Item::from_str("Fulgur"), Item::Fulgur);
    assert_eq!(Item::from_str("ScutumGlaciei"), Item::ScutumGlaciei);
    assert_eq!(Item::from_str("AerTracto"), Item::AerTracto);
    assert_eq!(Item::from_str("AerPello"), Item::AerPello);
    assert_eq!(Item::from_str("FulgurAvis"), Item::FulgurAvis);
    assert_eq!(Item::from_str("fulgur"), Item::NotImplemented);
    assert_eq!(Item::from_str(""), Item::NotImplemented);
}

#[test]
fn titles_and_descriptions() {
    assert_eq!(item_title(&Item::Tutorial), "Spell Console");
    assert_eq!(item_title(&Item::FulgurAvis), "Fulgur Avis");
    assert_eq!(item_description(&Item::IgnisPila), "Cast 5 fireballs.");
    assert_eq!(
        item_description(&Item::Tutorial),
        "Press 'i' to open your spell console.\nThen type your spell, try 'fireball'."
    );
    assert_eq!(item_description(&Item::NotImplemented), "CONTENT DESCRIPTION");
}

#[test]
fn wall_rings() {
    assert_eq!(item_wall_offset(&Item::Tutorial), 0);
    assert_eq!(wall_count(item_wall_offset(&Item::Tutorial)), 0);
    assert_eq!(item_wall_offset(&Item::ScutumGlaciei), 225);
    assert_eq!(wall_count(225), 56);
    assert_eq!(wall_count(item_wall_offset(&Item::FulgurAvis)), 75);
}

#[test]
fn items_unlock_their_spells() {
    assert_eq!(item_spell(&Item::NotImplemented), Spell::Flub);
    assert_eq!(item_spell(&Item::Tutorial), Spell::Fireball);
    assert_eq!(item_spell(&Item::ScutumGlaciei), Spell::ScutumGlaciei);
    assert_eq!(item_spell(&Item::FulgurAvis), Spell::FulgurAvis);
}

#[test]
fn statue_waves_table() {
    let waves = statue_sub_spawner(&Statue::new(Item::AerPello));
    assert_eq!(waves.len(), 3);
    assert_eq!(waves[0].0, 8000);
    assert_eq!(waves[0].1.count, 8);
    assert_eq!(waves[0].1.offset, 210);
    assert_eq!(waves[2].1.angle_degrees, 180);
    assert_eq!(waves[2].1.spawn_formation, SpawnFormation::Group);
    assert_eq!(waves[2].1.interval_ms, 50);
    assert!(statue_sub_spawner(&Statue::new(Item::Tutorial)).is_empty());
    let total: usize = statue_sub_spawner(&Statue::new(Item::FulgurAvis))
        .iter()
        .map(|w| w.1.count)
        .sum();
    assert_eq!(total, 75);
}

#[test]
fn every_wave_starts_fresh() {
    for item in ALL {
        for (_, w) in statue_sub_spawner(&Statue::new(item)) {
            assert!(w.count > 0);
            assert_eq!(w.current_index, 0);
            assert!(!w.disabled);
            assert_eq!(w.item, item);
        }
    }
}

#[test]
fn item_icons() {
    assert_eq!(item_icon(&Item::NotImplemented), ItemIcon::Placeholder);
    assert_eq!(item_icon(&Item::Tutorial), ItemIcon::SpellConsole);
    assert_eq!(item_icon(&Item::IgnisPila), ItemIcon::IgnisPila);
    assert_eq!(item_icon(&Item::FulgurAvis), ItemIcon::FulgurAvis);
    assert_eq!(item_icon(&Item::AerPello), ItemIcon::AerPello);
}
