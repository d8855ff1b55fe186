use vstd::prelude::*;

use crate::spawner::{wave, EnemySubSpawner, SpawnFormation};
use crate::spell::{
    all_ascii, ascii_lower, is_white_space, normalized_spell_text, spell_named, trimmed, trimmed_end,
    trimmed_start, InvalidSpell, Spell,
};
use crate::statue::Statue;
use crate::text::str_equals;

verus! {

/// The spell items that statues hold; the level file names them.
#[derive(Clone, Copy, Debug, PartialEq, Eq, Structural)]
pub enum Item {
    NotImplemented,
    Tutorial,
    IgnisPila,
    InfernoPila,
    Fulgur,
    ScutumGlaciei,
    AerTracto,
    AerPello,
    FulgurAvis,
}

/// The item that a name of the level file stands for.
pub open spec fn item_named(s: Seq<char>) -> Item {
    if s == "Tutorial"@ {
        Item::Tutorial
    } else if s == "IgnisPila"@ {
        Item::IgnisPila
    } else if s == "InfernoPila"@ {
        Item::InfernoPila
    } else if s == "Fulgur"@ {
        Item::Fulgur
    } else if s == "ScutumGlaciei"@ {
        Item::ScutumGlaciei
    } else if s == "AerTracto"@ {
        Item::AerTracto
    } else if s == "AerPello"@ {
        Item::AerPello
    } else if s == "FulgurAvis"@ {
        Item::FulgurAvis
    } else {
        Item::NotImplemented
    }
}

impl Item {
    /// Reads an item name of the level file; an unknown name is `NotImplemented`.
    pub fn from_str(s: &str) -> (item: Item)
        ensures
            item == item_named(s@),
    {
        if str_equals(s, "Tutorial") {
            Item::Tutorial
        } else if str_equals(s, "IgnisPila") {
            Item::IgnisPila
        } else if str_equals(s, "InfernoPila") {
            Item::InfernoPila
        } else if str_equals(s, "Fulgur") {
            Item::Fulgur
        } else if str_equals(s, "ScutumGlaciei") {
            Item::ScutumGlaciei
        } else if str_equals(s, "AerTracto") {
            Item::AerTracto
        } else if str_equals(s, "AerPello") {
            Item::AerPello
        } else if str_equals(s, "FulgurAvis") {
            Item::FulgurAvis
        } else {
            Item::NotImplemented
        }
    }
}

/// The title an item is shown with.
pub open spec fn title_of(item: Item) -> Seq<char> {
    match item {
        Item::NotImplemented => "NOT IMPLEMENTED, you should not see this, please report"@,
        Item::Tutorial => "Spell Console"@,
        Item::IgnisPila => "Ignis Pila"@,
        Item::InfernoPila => "Inferno Pila"@,
        Item::Fulgur => "Fulgur"@,
        Item::ScutumGlaciei => "Scutum Glaciei"@,
        Item::AerTracto => "Aer Tracto"@,
        Item::AerPello => "Aer Pello"@,
        Item::FulgurAvis => "Fulgur Avis"@,
    }
}

/// The title an item is shown with.
pub fn item_title(item: &Item) -> (title: String)
    ensures
        title@ == title_of(*item),
{
    match item {
        Item::NotImplemented => "NOT IMPLEMENTED, you should not see this, please report".to_owned(),
        Item::Tutorial => "Spell Console".to_owned(),
        Item::IgnisPila => "Ignis Pila".to_owned(),
        Item::InfernoPila => "Inferno Pila".to_owned(),
        Item::Fulgur => "Fulgur".to_owned(),
        Item::ScutumGlaciei => "Scutum Glaciei".to_owned(),
        Item::AerTracto => "Aer Tracto".to_owned(),
        Item::AerPello => "Aer Pello".to_owned(),
        Item::FulgurAvis => "Fulgur Avis".to_owned(),
    }
}

/// The help text an item is shown with.
pub open spec fn description_of(item: Item) -> Seq<char> {
    match item {
        Item::NotImplemented => "CONTENT DESCRIPTION"@,
        Item::Tutorial => "Press 'i' to open your spell console.\nThen type your spell, try 'fireball'."@,
        Item::IgnisPila => "Cast 5 fireballs."@,
        Item::InfernoPila => "Cast MANY fireballs omni directionally"@,
        Item::Fulgur => "Call down lightning strikes on random enemies.\nOnly works when there are enemies."@,
        Item::ScutumGlaciei => "Materialize 10 ice crystals that cycle around you for 10 seconds."@,
        Item::AerTracto => "Pull enemies towards you."@,
        Item::AerPello => "Push enemies away from you."@,
        Item::FulgurAvis => "Summon a powerful lightning bird."@,
    }
}

/// The help text an item is shown with.
pub fn item_description(item: &Item) -> (description: String)
    ensures
        description@ == description_of(*item),
{
    match item {
        Item::NotImplemented => "CONTENT DESCRIPTION".to_owned(),
        Item::Tutorial => "Press 'i' to open your spell console.\nThen type your spell, try 'fireball'.".to_owned(),
        Item::IgnisPila => "Cast 5 fireballs.".to_owned(),
        Item::InfernoPila => "Cast MANY fireballs omni directionally".to_owned(),
        Item::Fulgur => "Call down lightning strikes on random enemies.\nOnly works when there are enemies.".to_owned(),
        Item::ScutumGlaciei => "Materialize 10 ice crystals that cycle around you for 10 seconds.".to_owned(),
        Item::AerTracto => "Pull enemies towards you.".to_owned(),
        Item::AerPello => "Push enemies away from you.".to_owned(),
        Item::FulgurAvis => "Summon a powerful lightning bird.".to_owned(),
    }
}

/// The icons items are shown with, one image each.
#[derive(Clone, Copy, Debug, PartialEq, Eq, Structural)]
pub enum ItemIcon {
    Placeholder,
    SpellConsole,
    IgnisPila,
    InfernoPila,
    Fulgur,
    ScutumGlaciei,
    AerTracto,
    AerPello,
    FulgurAvis,
}

/// The icon an item is shown with; an item without one of its own shows
/// the placeholder.
pub open spec fn icon_of(item: Item) -> ItemIcon {
    match item {
        Item::NotImplemented => ItemIcon::Placeholder,
        Item::Tutorial => ItemIcon::SpellConsole,
        Item::IgnisPila => ItemIcon::IgnisPila,
        Item::InfernoPila => ItemIcon::InfernoPila,
        Item::Fulgur => ItemIcon::Fulgur,
        Item::ScutumGlaciei => ItemIcon::ScutumGlaciei,
        Item::AerTracto => ItemIcon::AerTracto,
        Item::AerPello => ItemIcon::AerPello,
        Item::FulgurAvis => ItemIcon::FulgurAvis,
    }
}

/// The icon an item is shown with (the engine loads one image per icon).
pub fn item_icon(item: &Item) -> (icon: ItemIcon)
    ensures
        icon == icon_of(*item),
{
    match item {
        Item::NotImplemented => ItemIcon::Placeholder,
        Item::Tutorial => ItemIcon::SpellConsole,
        Item::IgnisPila => ItemIcon::IgnisPila,
        Item::InfernoPila => ItemIcon::InfernoPila,
        Item::Fulgur => ItemIcon::Fulgur,
        Item::ScutumGlaciei => ItemIcon::ScutumGlaciei,
        Item::AerTracto => ItemIcon::AerTracto,
        Item::AerPello => ItemIcon::AerPello,
        Item::FulgurAvis => ItemIcon::FulgurAvis,
    }
}

/// The radius of the ring of earth walls that closes around a triggered
/// statue, in world units (zero: no walls).
pub open spec fn wall_offset_of(item: Item) -> u32 {
    match item {
        Item::NotImplemented => 0,
        Item::Tutorial => 0,
        Item::Fulgur => 150,
        Item::IgnisPila => 150,
        Item::AerTracto => 200,
        Item::InfernoPila => 200,
        Item::ScutumGlaciei => 225,
        Item::AerPello => 300,
        Item::FulgurAvis => 300,
    }
}

/// The radius of the ring of earth walls around the item's statue.
pub fn item_wall_offset(item: &Item) -> (offset: u32)
    ensures
        offset == wall_offset_of(*item),
{
    match item {
        Item::NotImplemented => 0,
        Item::Tutorial => 0,
        Item::Fulgur => 150,
        Item::IgnisPila => 150,
        Item::AerTracto => 200,
        Item::InfernoPila => 200,
        Item::ScutumGlaciei => 225,
        Item::AerPello => 300,
        Item::FulgurAvis => 300,
    }
}

/// How many wall pieces make a ring of the given radius: one per four
/// units.
pub fn wall_count(offset: u32) -> (count: usize)
    ensures
        count == offset / 4,
{
    (offset / 4) as usize
}

/// The spell an item unlocks.
pub open spec fn spell_of(item: Item) -> Spell {
    match item {
        Item::NotImplemented => Spell::Flub,
        Item::Tutorial => Spell::Fireball,
        Item::IgnisPila => Spell::IgnisPila,
        Item::InfernoPila => Spell::InfernoPila,
        Item::Fulgur => Spell::Fulgur,
        Item::ScutumGlaciei => Spell::ScutumGlaciei,
        Item::AerTracto => Spell::AerTracto,
        Item::AerPello => Spell::AerPello,
        Item::FulgurAvis => Spell::FulgurAvis,
    }
}

/// The spell an item unlocks.
pub fn item_spell(item: &Item) -> (spell: Spell)
    ensures
        spell == spell_of(*item),
{
    match item {
        Item::NotImplemented => Spell::Flub,
        Item::Tutorial => Spell::Fireball,
        Item::IgnisPila => Spell::IgnisPila,
        Item::InfernoPila => Spell::InfernoPila,
        Item::Fulgur => Spell::Fulgur,
        Item::ScutumGlaciei => Spell::ScutumGlaciei,
        Item::AerTracto => Spell::AerTracto,
        Item::AerPello => Spell::AerPello,
        Item::FulgurAvis => Spell::FulgurAvis,
    }
}

/// The enemy waves a statue releases once triggered, each paired with the
/// delay (in milliseconds) before the next wave.
pub open spec fn statue_waves(item: Item) -> Seq<(u32, EnemySubSpawner)> {
    match item {
        Item::NotImplemented => seq![],
        Item::Tutorial => seq![],
        Item::Fulgur => seq![(0u32, wave(item, 1, 100, 90, SpawnFormation::Group, 0))],
        Item::IgnisPila => seq![(0u32, wave(item, 3, 100, 0, SpawnFormation::Group, 0))],
        Item::AerTracto => seq![
            (3000u32, wave(item, 3, 200, 270, SpawnFormation::Group, 300)),
            (0u32, wave(item, 3, 200, 0, SpawnFormation::Circle, 200)),
        ],
        Item::InfernoPila => seq![(0u32, wave(item, 6, 160, 0, SpawnFormation::Circle, 250))],
        Item::ScutumGlaciei => seq![
            (5000u32, wave(item, 6, 175, 0, SpawnFormation::Circle, 100)),
            (0u32, wave(item, 8, 210, 0, SpawnFormation::Random, 300)),
        ],
        Item::AerPello => seq![
            (8000u32, wave(item, 8, 210, 0, SpawnFormation::Circle, 250)),
            (0u32, wave(item, 15, 240, 0, SpawnFormation::Group, 50)),
            (0u32, wave(item, 15, 240, 180, SpawnFormation::Group, 50)),
        ],
        Item::FulgurAvis => seq![
            (10000u32, wave(item, 10, 150, 0, SpawnFormation::Circle, 0)),
            (10000u32, wave(item, 15, 220, 0, SpawnFormation::Random, 200)),
            (0u32, wave(item, 50, 240, 0, SpawnFormation::Circle, 100)),
        ],
    }
}

/// A wave of the table.
fn make_wave(
    item: Item,
    count: usize,
    offset: u32,
    angle_degrees: u32,
    spawn_formation: SpawnFormation,
    interval_ms: u32,
) -> (w: EnemySubSpawner)
    ensures
        w == wave(item, count, offset, angle_degrees, spawn_formation, interval_ms),
{
    EnemySubSpawner {
        item,
        count,
        current_index: 0,
        offset,
        angle_degrees,
        spawn_formation,
        interval_ms,
        disabled: false,
    }
}

/// The enemy waves the statue releases once triggered, each paired with
/// the delay (in milliseconds) before the next wave.
pub fn statue_sub_spawner(statue: &Statue) -> (waves: Vec<(u32, EnemySubSpawner)>)
    ensures
        waves@ == statue_waves(statue@.item),
        (statue@.item == Item::NotImplemented || statue@.item == Item::Tutorial) <==> waves@.len() == 0,
        forall|i: int|
            0 <= i < waves@.len() ==> (#[trigger] waves@[i]).1.count > 0 && waves@[i].1.item
                == statue@.item && waves@[i].1.current_index == 0 && !waves@[i].1.disabled,
{
    let item = statue.item();
    let mut v: Vec<(u32, EnemySubSpawner)> = Vec::new();
    match item {
        Item::NotImplemented => {},
        Item::Tutorial => {},
        Item::Fulgur => {
            v.push((0, make_wave(item, 1, 100, 90, SpawnFormation::Group, 0)));
        },
        Item::IgnisPila => {
            v.push((0, make_wave(item, 3, 100, 0, SpawnFormation::Group, 0)));
        },
        Item::AerTracto => {
            v.push((3000, make_wave(item, 3, 200, 270, SpawnFormation::Group, 300)));
            v.push((0, make_wave(item, 3, 200, 0, SpawnFormation::Circle, 200)));
        },
        Item::InfernoPila => {
            v.push((0, make_wave(item, 6, 160, 0, SpawnFormation::Circle, 250)));
        },
        Item::ScutumGlaciei => {
            v.push((5000, make_wave(item, 6, 175, 0, SpawnFormation::Circle, 100)));
            v.push((0, make_wave(item, 8, 210, 0, SpawnFormation::Random, 300)));
        },
        Item::AerPello => {
            v.push((8000, make_wave(item, 8, 210, 0, SpawnFormation::Circle, 250)));
            v.push((0, make_wave(item, 15, 240, 0, SpawnFormation::Group, 50)));
            v.push((0, make_wave(item, 15, 240, 180, SpawnFormation::Group, 50)));
        },
        Item::FulgurAvis => {
            v.push((10000, make_wave(item, 10, 150, 0, SpawnFormation::Circle, 0)));
            v.push((10000, make_wave(item, 15, 220, 0, SpawnFormation::Random, 200)));
            v.push((0, make_wave(item, 50, 240, 0, SpawnFormation::Circle, 100)));
        },
    }
    proof {
        assert(v@ =~= statue_waves(item));
        lemma_statue_waves_nonempty(item);
        assert forall|i: int| 0 <= i < v@.len() implies (#[trigger] v@[i]).1.count > 0 && v@[i].1.item
            == item && v@[i].1.current_index == 0 && !v@[i].1.disabled by {
            lemma_statue_waves_fresh(item, i);
        }
    }
    v
}

/// Every statue with a spell to give releases enemies before it unlocks:
/// at least one wave, the first with at least one enemy. The placeholder
/// and the tutorial release none.
pub proof fn lemma_statue_waves_nonempty(item: Item)
    ensures
        (item == Item::NotImplemented || item == Item::Tutorial) <==> statue_waves(item).len() == 0,
        item != Item::NotImplemented && item != Item::Tutorial ==> statue_waves(item)[0].1.count > 0,
{
}

/// Every wave a statue releases starts fresh with at least one enemy and
/// belongs to that statue's item, so each is well formed and never spawns
/// more than its count.
pub proof fn lemma_statue_waves_fresh(item: Item, i: int)
    requires
        0 <= i < statue_waves(item).len(),
    ensures
        statue_waves(item)[i].1.count > 0,
        statue_waves(item)[i].1.current_index == 0,
        !statue_waves(item)[i].1.disabled,
        statue_waves(item)[i].1.item == item,
        statue_waves(item)[i].1.well_formed(),
{
}

/// Console text without surrounding whitespace, made of ASCII, is compared
/// in its ASCII lowercase.
proof fn lemma_plain_text_normalizes(t: Seq<char>, lower: Seq<char>)
    requires
        t.len() > 0,
        !is_white_space(t[0]),
        !is_white_space(t.last()),
        all_ascii(t),
        t.map_values(|c: char| ascii_lower(c)) == lower,
    ensures
        normalized_spell_text(t) == lower,
{
    assert(trimmed_start(t) == t);
    assert(trimmed_end(t) == t);
    assert(trimmed(t) == t);
}

/// An item's title is the incantation of the spell the item unlocks: typed
/// into the console it casts that spell (the placeholder's title fizzles,
/// which is what its item gives). The tutorial's title names the console
/// itself, not a spell.
pub proof fn lemma_title_casts_item_spell(item: Item)
    requires
        item != Item::Tutorial,
    ensures
        spell_named(normalized_spell_text(title_of(item))) == Ok::<Spell, InvalidSpell>(spell_of(item)),
{
    reveal_strlit("fireball");
    reveal_strlit("ignis pila");
    reveal_strlit("inferno pila");
    reveal_strlit("fulgur");
    reveal_strlit("fulgur avis");
    reveal_strlit("scutum glaciei");
    reveal_strlit("aer tracto");
    reveal_strlit("aer pello");
    reveal_strlit("cito");
    reveal_strlit("phantasma");
    reveal_strlit("now you");
    reveal_strlit("jetzt du");
    reveal_strlit("kill player");
    match item {
        Item::NotImplemented => {
            reveal_strlit("NOT IMPLEMENTED, you should not see this, please report");
            let t = title_of(item);
            let lower = t.map_values(|c: char| ascii_lower(c));
            lemma_plain_text_normalizes(t, lower);
        },
        Item::Tutorial => {},
        Item::IgnisPila => {
            reveal_strlit("Ignis Pila");
            assert(title_of(item).map_values(|c: char| ascii_lower(c)) =~= "ignis pila"@);
            lemma_plain_text_normalizes(title_of(item), "ignis pila"@);
        },
        Item::InfernoPila => {
            reveal_strlit("Inferno Pila");
            assert(title_of(item).map_values(|c: char| ascii_lower(c)) =~= "inferno pila"@);
            lemma_plain_text_normalizes(title_of(item), "inferno pila"@);
        },
        Item::Fulgur => {
            reveal_strlit("Fulgur");
            assert(title_of(item).map_values(|c: char| ascii_lower(c)) =~= "fulgur"@);
            lemma_plain_text_normalizes(title_of(item), "fulgur"@);
        },
        Item::ScutumGlaciei => {
            reveal_strlit("Scutum Glaciei");
            assert(title_of(item).map_values(|c: char| ascii_lower(c)) =~= "scutum glaciei"@);
            lemma_plain_text_normalizes(title_of(item), "scutum glaciei"@);
        },
        Item::AerTracto => {
            reveal_strlit("Aer Tracto");
            assert(title_of(item).map_values(|c: char| ascii_lower(c)) =~= "aer tracto"@);
            lemma_plain_text_normalizes(title_of(item), "aer tracto"@);
            // Same length as "ignis pila": the first letters tell them apart.
            assert("aer tracto"@[0] != "ignis pila"@[0]);
        },
        Item::AerPello => {
            reveal_strlit("Aer Pello");
            assert(title_of(item).map_values(|c: char| ascii_lower(c)) =~= "aer pello"@);
            lemma_plain_text_normalizes(title_of(item), "aer pello"@);
        },
        Item::FulgurAvis => {
            reveal_strlit("Fulgur Avis");
            assert(title_of(item).map_values(|c: char| ascii_lower(c)) =~= "fulgur avis"@);
            lemma_plain_text_normalizes(title_of(item), "fulgur avis"@);
        },
    }
}

} // verus!
