use mage_arena::health::Health;
use mage_arena::item::{item_spell, item_title, Item};
use mage_arena::player::{Stats, DEFAULT_MOVE_SPEED};
use mage_arena::spell::{
    double_j_escape, is_spell_active, kill_all_enemies, spell_from_normalized, spell_to_cast,
    submitted_spell, DebugSpell, DoubleJ, Fireball, InvalidSpell, LightningBird, Spell,
    DEATH_DAMAGE, FLAP_MS, IGNIS_PILA_DAMAGE,
};
use mage_arena::statue::ActiveItems;

#[test]
fn parse_ignores_case_and_surrounding_whitespace() {
    assert_eq!(Spell::parse("  FireBall \n"), Ok(Spell::Fireball));
    assert_eq!(Spell::parse("\tIGNIS PILA"), Ok(Spell::IgnisPila));
    assert_eq!(Spell::parse("Jetzt Du  "), Ok(Spell::Death));
}

#[test]
fn parse_blank_text_is_invalid() {
    assert_eq!(Spell::parse(""), Err(InvalidSpell));
    assert_eq!(Spell::parse("   \t\n"), Err(InvalidSpell));
}

#[test]
fn parse_unknown_text_fizzles() {
    assert_eq!(Spell::parse("abracadabra"), Ok(Spell::Flub));
    assert_eq!(Spell::parse("fire ball"), Ok(Spell::Flub));
    assert_eq!(Spell::parse("debug"), Ok(Spell::Flub));
}

#[test]
fn parse_every_incantation() {
    let cases = [
        ("fireball", Spell::Fireball),
        ("ignis pila", Spell::IgnisPila),
        ("inferno pila", Spell::InfernoPila),
        ("fulgur", Spell::Fulgur),
        ("fulgur avis", Spell::FulgurAvis),
        ("scutum glaciei", Spell::ScutumGlaciei),
        ("aer tracto", Spell::AerTracto),
        ("aer pello", Spell::AerPello),
        ("cito", Spell::SpeedBoost),
        ("phantasma", Spell::Phantasma),
        ("now you", Spell::Death),
        ("jetzt du", Spell::Death),
        ("kill player", Spell::KillPlayer),
    ];
    for (text, spell) in cases {
        assert_eq!(spell_from_normalized(text), Ok(spell));
        assert_eq!(text.parse::<Spell>(), Ok(spell));
    }
}

#[test]
fn normalized_matching_is_exact() {
    assert_eq!(spell_from_normalized(" fireball"), Ok(Spell::Flub));
    assert_eq!(spell_from_normalized("Fireball"), Ok(Spell::Flub));
    assert_eq!(spell_from_normalized(""), Err(InvalidSpell));
}

#[test]
fn invalid_spell_message() {
    assert_eq!(InvalidSpell.message(), "Not a valid spell");
}

#[test]
fn debug_and_flub_are_always_active() {
    let items = ActiveItems(Vec::new());
    assert!(is_spell_active(&items, &Spell::Debug));
    assert!(is_spell_active(&items, &Spell::Flub));
    assert!(!is_spell_active(&items, &Spell::Fireball));
}

#[test]
fn unlocked_item_activates_its_spell() {
    let items = ActiveItems(vec![Item::Tutorial, Item::AerPello]);
    assert!(is_spell_active(&items, &Spell::Fireball));
    assert!(is_spell_active(&items, &Spell::AerPello));
    assert!(!is_spell_active(&items, &Spell::AerTracto));
    assert!(!is_spell_active(&items, &Spell::Death));
}

#[test]
fn cast_needs_unlock_or_debug() {
    let items = ActiveItems(vec![Item::Fulgur]);
    let off = DebugSpell::new();
    let on = DebugSpell { active: true };
    assert_eq!(spell_to_cast(" Fulgur ", &off, &items), Some(Spell::Fulgur));
    assert_eq!(spell_to_cast("fireball", &off, &items), None);
    assert_eq!(spell_to_cast("fireball", &on, &items), Some(Spell::Fireball));
    assert_eq!(spell_to_cast("whatever", &off, &items), Some(Spell::Flub));
    assert_eq!(spell_to_cast("  ", &on, &items), None);
}

#[test]
fn plain_submission_casts_any_valid_spell() {
    assert_eq!(submitted_spell("NOW YOU"), Some(Spell::Death));
    assert_eq!(submitted_spell(""), None);
}

#[test]
fn debug_toggles_twice_back() {
    let mut d = DebugSpell::new();
    d.on_spell_cast(Spell::Debug);
    assert!(d.active);
    d.on_spell_cast(Spell::Fireball);
    assert!(d.active);
    d.on_spell_cast(Spell::Debug);
    assert!(!d.active);
}

#[test]
fn double_j_closes_console_only_within_window() {
    assert_eq!(double_j_escape(false, true, false), DoubleJ::Expire);
    assert_eq!(double_j_escape(true, false, false), DoubleJ::Wait);
    assert_eq!(double_j_escape(true, true, true), DoubleJ::OpenWindow);
    assert_eq!(double_j_escape(true, true, false), DoubleJ::CloseConsole);
}

#[test]
fn fireball_burns_out_unless_piercing() {
    let mut f = Fireball::new();
    assert!(!f.disabled());
    f.disable();
    assert!(f.disabled());

    let mut p = Fireball::with(IGNIS_PILA_DAMAGE, true);
    p.disable();
    p.disable();
    assert!(!p.disabled());
    p.expire();
    assert!(p.disabled());
}

#[test]
fn speed_boost_ends_with_last_boost() {
    let mut s = Stats::new();
    assert_eq!(s.move_speed, 150);
    s.activate_speed_boost();
    s.activate_speed_boost();
    assert_eq!(s.move_speed, 750);
    s.end_speed_boost(2);
    assert_eq!(s.move_speed, 750);
    s.end_speed_boost(1);
    assert_eq!(s.move_speed, DEFAULT_MOVE_SPEED);
}

#[test]
fn death_strikes_every_enemy() {
    let mut hs = vec![Health::new(10), Health::new(2000), Health::new(-5)];
    kill_all_enemies(&mut hs, 2);
    assert_eq!(hs[0].health, 10 - 2 * DEATH_DAMAGE as i64);
    assert_eq!(hs[1].health, 2000 - 1998);
    assert_eq!(hs[2].health, -5 - 1998);
    kill_all_enemies(&mut hs, 0);
    assert_eq!(hs[1].health, 2);
}

#[test]
fn lightning_bird_switches_to_regular_flapping_once() {
    let mut b = LightningBird::new();
    assert_eq!(b.on_tick(false, false), None);
    assert_eq!(b.on_tick(false, true), Some(FLAP_MS));
    assert_eq!(b.on_tick(false, true), None);
    assert!(!b.disabled);
    b.on_tick(true, false);
    assert!(b.disabled);
}

#[test]
fn item_titles_cast_their_spells() {
    let items = [
        Item::NotImplemented,
        Item::IgnisPila,
        Item::InfernoPila,
        Item::Fulgur,
        Item::ScutumGlaciei,
        Item::AerTracto,
        Item::AerPello,
        Item::FulgurAvis,
    ];
    for item in items.iter() {
        assert_eq!(Spell::parse(&item_title(item)), Ok(item_spell(item)));
    }
    assert_eq!(Spell::parse(&item_title(&Item::Tutorial)), Ok(Spell::Flub));
}

#[test]
fn parse_ignores_unicode_padding_and_ascii_case() {
    let padded = format!("\u{3000}\u{a0} {}\u{2028}\t", "aer pello");
    assert_eq!(Spell::parse(&padded), Ok(Spell::AerPello));
    assert_eq!(Spell::parse(&"scutum glaciei".to_ascii_uppercase()), Ok(Spell::ScutumGlaciei));
    assert!(Spell::parse("\u{85}\u{200a}").is_err());
    assert!(Spell::parse(" x ").is_ok());
}
