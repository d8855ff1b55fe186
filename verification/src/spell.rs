use vstd::prelude::*;

use crate::health::{after_damage, Health};
use crate::item::{item_spell, spell_of, Item};
use crate::statue::ActiveItems;
use crate::text::str_equals;

verus! {

/// The spells a player can type into the spell console.
#[derive(Clone, Copy, Debug, PartialEq, Eq, Structural)]
pub enum Spell {
    Fireball,
    IgnisPila,
    InfernoPila,
    Fulgur,
    FulgurAvis,
    ScutumGlaciei,
    AerTracto,
    AerPello,
    SpeedBoost,
    Phantasma,
    Death,
    Flub,
    KillPlayer,
    Debug,
}

/// The console text was empty once whitespace was removed.
#[derive(Clone, Copy, Debug, PartialEq, Eq, Structural)]
pub struct InvalidSpell;

impl InvalidSpell {
    /// The message shown for an invalid spell.
    pub fn message(&self) -> (res: String)
        ensures
            res@ == "Not a valid spell"@,
    {
        "Not a valid spell".to_owned()
    }
}

/// Whether `c` has the Unicode White_Space property, the whitespace that
/// `str::trim_start` and `str::trim_end` remove: tab to carriage return,
/// space, next line, no-break space, ogham space mark, en quad to hair
/// space, line and paragraph separators, narrow no-break space, medium
/// mathematical space and ideographic space.
pub open spec fn is_white_space(c: char) -> bool {
    let u = c as u32;
    ||| 0x09 <= u <= 0x0d
    ||| u == 0x20
    ||| u == 0x85
    ||| u == 0xa0
    ||| u == 0x1680
    ||| 0x2000 <= u <= 0x200a
    ||| u == 0x2028
    ||| u == 0x2029
    ||| u == 0x202f
    ||| u == 0x205f
    ||| u == 0x3000
}

/// A string without its leading whitespace.
pub open spec fn trimmed_start(s: Seq<char>) -> Seq<char>
    decreases s.len(),
{
    if s.len() > 0 && is_white_space(s[0]) {
        trimmed_start(s.skip(1))
    } else {
        s
    }
}

/// A string without its trailing whitespace.
pub open spec fn trimmed_end(s: Seq<char>) -> Seq<char>
    decreases s.len(),
{
    if s.len() > 0 && is_white_space(s.last()) {
        trimmed_end(s.drop_last())
    } else {
        s
    }
}

/// A string without its leading and trailing whitespace.
pub open spec fn trimmed(s: Seq<char>) -> Seq<char> {
    trimmed_end(trimmed_start(s))
}

/// Whether every character of `s` is ASCII.
pub open spec fn all_ascii(s: Seq<char>) -> bool {
    forall|i: int| 0 <= i < s.len() ==> (#[trigger] s[i] as u32) < 0x80
}

/// The lowercase of an ASCII character: `A` to `Z` become `a` to `z`, any
/// other character stays.
pub open spec fn ascii_lower(c: char) -> char {
    if 0x41 <= (c as u32) <= 0x5a {
        ((c as u32) + 0x20) as char
    } else {
        c
    }
}

/// The uppercase of an ASCII character: `a` to `z` become `A` to `Z`, any
/// other character stays.
pub open spec fn ascii_upper(c: char) -> char {
    if 0x61 <= (c as u32) <= 0x7a {
        ((c as u32) - 0x20) as char
    } else {
        c
    }
}

/// What `str::to_lowercase` returns for a string that is not all ASCII: its
/// Unicode lowercase mapping.
pub uninterp spec fn std_to_lowercase(s: Seq<char>) -> Seq<char>;

/// The lowercase of a string: character by character for ASCII text, the
/// Unicode lowercase mapping otherwise.
pub open spec fn lowercase_of(s: Seq<char>) -> Seq<char> {
    if all_ascii(s) {
        s.map_values(|c: char| ascii_lower(c))
    } else {
        std_to_lowercase(s)
    }
}

/// Calls `str::trim_start`. Trusted: the result is the string without its
/// leading characters of the Unicode White_Space property.
#[verifier::external_body]
fn trim_start(s: &str) -> (res: &str)
    ensures
        res@ == trimmed_start(s@),
{
    s.trim_start()
}

/// Calls `str::trim_end`. Trusted: the result is the string without its
/// trailing characters of the Unicode White_Space property.
#[verifier::external_body]
fn trim_end(s: &str) -> (res: &str)
    ensures
        res@ == trimmed_end(s@),
{
    s.trim_end()
}

/// Calls `str::to_lowercase`. Trusted: ASCII text is lowered character by
/// character; other text gives the value that the name `std_to_lowercase`
/// gives it (the Unicode case mapping itself is not stated), which is empty
/// exactly when the text is, every character mapping to one or more.
#[verifier::external_body]
fn to_lowercase(s: &str) -> (res: String)
    ensures
        all_ascii(s@) ==> res@ == s@.map_values(|c: char| ascii_lower(c)),
        !all_ascii(s@) ==> res@ == std_to_lowercase(s@),
        (res@.len() == 0) == (s@.len() == 0),
{
    s.to_lowercase()
}

/// The text the console input is compared with: trimmed at both ends, then
/// lowercased.
pub open spec fn normalized_spell_text(s: Seq<char>) -> Seq<char> {
    lowercase_of(trimmed(s))
}

/// The spell that normalized console text names: empty text is invalid,
/// known incantations give their spell and anything else fizzles into `Flub`.
pub open spec fn spell_named(t: Seq<char>) -> Result<Spell, InvalidSpell> {
    if t.len() == 0 {
        Err(InvalidSpell)
    } else if t == "fireball"@ {
        Ok(Spell::Fireball)
    } else if t == "ignis pila"@ {
        Ok(Spell::IgnisPila)
    } else if t == "inferno pila"@ {
        Ok(Spell::InfernoPila)
    } else if t == "fulgur"@ {
        Ok(Spell::Fulgur)
    } else if t == "fulgur avis"@ {
        Ok(Spell::FulgurAvis)
    } else if t == "scutum glaciei"@ {
        Ok(Spell::ScutumGlaciei)
    } else if t == "aer tracto"@ {
        Ok(Spell::AerTracto)
    } else if t == "aer pello"@ {
        Ok(Spell::AerPello)
    } else if t == "cito"@ {
        Ok(Spell::SpeedBoost)
    } else if t == "phantasma"@ {
        Ok(Spell::Phantasma)
    } else if t == "now you"@ || t == "jetzt du"@ {
        Ok(Spell::Death)
    } else if t == "kill player"@ {
        Ok(Spell::KillPlayer)
    } else {
        Ok(Spell::Flub)
    }
}

/// Matches already normalized console text against the incantations.
pub fn spell_from_normalized(t: &str) -> (res: Result<Spell, InvalidSpell>)
    ensures
        res == spell_named(t@),
{
    if t.unicode_len() == 0 {
        return Err(InvalidSpell);
    }
    if str_equals(t, "fireball") {
        Ok(Spell::Fireball)
    } else if str_equals(t, "ignis pila") {
        Ok(Spell::IgnisPila)
    } else if str_equals(t, "inferno pila") {
        Ok(Spell::InfernoPila)
    } else if str_equals(t, "fulgur") {
        Ok(Spell::Fulgur)
    } else if str_equals(t, "fulgur avis") {
        Ok(Spell::FulgurAvis)
    } else if str_equals(t, "scutum glaciei") {
        Ok(Spell::ScutumGlaciei)
    } else if str_equals(t, "aer tracto") {
        Ok(Spell::AerTracto)
    } else if str_equals(t, "aer pello") {
        Ok(Spell::AerPello)
    } else if str_equals(t, "cito") {
        Ok(Spell::SpeedBoost)
    } else if str_equals(t, "phantasma") {
        Ok(Spell::Phantasma)
    } else if str_equals(t, "now you") || str_equals(t, "jetzt du") {
        Ok(Spell::Death)
    } else if str_equals(t, "kill player") {
        Ok(Spell::KillPlayer)
    } else {
        Ok(Spell::Flub)
    }
}

impl Spell {
    /// Parses what the player typed into the spell console: surrounding
    /// whitespace and letter case do not matter.
    pub fn parse(s: &str) -> (res: Result<Spell, InvalidSpell>)
        ensures
            res == spell_named(normalized_spell_text(s@)),
            res is Err <==> trimmed(s@).len() == 0,
    {
        let trimmed = trim_end(trim_start(s));
        let lowered = to_lowercase(trimmed);
        spell_from_normalized(lowered.as_str())
    }
}

impl std::str::FromStr for Spell {
    type Err = InvalidSpell;

    fn from_str(s: &str) -> (res: Result<Spell, InvalidSpell>)
        ensures
            res == spell_named(normalized_spell_text(s@)),
            res is Err <==> trimmed(s@).len() == 0,
    {
        Spell::parse(s)
    }
}

/// The ASCII uppercase of a string, character by character.
pub open spec fn ascii_uppercase(s: Seq<char>) -> Seq<char> {
    s.map_values(|c: char| ascii_upper(c))
}

/// Whether every character of `s` is whitespace.
pub open spec fn all_white_space(s: Seq<char>) -> bool {
    forall|i: int| 0 <= i < s.len() ==> is_white_space(#[trigger] s[i])
}

/// Leading whitespace is trimmed away.
proof fn lemma_trimmed_start_pad(pre: Seq<char>, s: Seq<char>)
    requires
        all_white_space(pre),
    ensures
        trimmed_start(pre + s) == trimmed_start(s),
    decreases pre.len(),
{
    if pre.len() == 0 {
        assert(pre + s =~= s);
    } else {
        assert((pre + s)[0] == pre[0]);
        assert((pre + s).skip(1) =~= pre.skip(1) + s);
        assert(all_white_space(pre.skip(1))) by {
            assert forall|i: int| 0 <= i < pre.skip(1).len() implies is_white_space(#[trigger] pre.skip(1)[i]) by {
                assert(pre.skip(1)[i] == pre[i + 1]);
            }
        }
        lemma_trimmed_start_pad(pre.skip(1), s);
    }
}

/// Trailing whitespace is trimmed away.
proof fn lemma_trimmed_end_pad(s: Seq<char>, post: Seq<char>)
    requires
        all_white_space(post),
    ensures
        trimmed_end(s + post) == trimmed_end(s),
    decreases post.len(),
{
    if post.len() == 0 {
        assert(s + post =~= s);
    } else {
        assert((s + post).last() == post.last());
        assert((s + post).drop_last() =~= s + post.drop_last());
        assert(all_white_space(post.drop_last())) by {
            assert forall|i: int| 0 <= i < post.drop_last().len() implies is_white_space(
                #[trigger] post.drop_last()[i],
            ) by {
                assert(post.drop_last()[i] == post[i]);
            }
        }
        lemma_trimmed_end_pad(s, post.drop_last());
    }
}

/// Trimming the start of a concatenation: once the first part holds a
/// character that is not whitespace, the second part is kept whole.
proof fn lemma_trimmed_start_append(s: Seq<char>, t: Seq<char>)
    ensures
        trimmed_start(s + t) == (if trimmed_start(s).len() > 0 {
            trimmed_start(s) + t
        } else {
            trimmed_start(t)
        }),
    decreases s.len(),
{
    if s.len() == 0 {
        assert(s + t =~= t);
    } else if is_white_space(s[0]) {
        assert((s + t)[0] == s[0]);
        assert((s + t).skip(1) =~= s.skip(1) + t);
        lemma_trimmed_start_append(s.skip(1), t);
    } else {
        assert((s + t)[0] == s[0]);
    }
}

/// Whitespace around a string does not change it once trimmed.
proof fn lemma_trimmed_pad(pre: Seq<char>, s: Seq<char>, post: Seq<char>)
    requires
        all_white_space(pre),
        all_white_space(post),
    ensures
        trimmed(pre + s + post) == trimmed(s),
{
    assert(pre + s + post =~= pre + (s + post));
    lemma_trimmed_start_pad(pre, s + post);
    lemma_trimmed_start_append(s, post);
    if trimmed_start(s).len() > 0 {
        lemma_trimmed_end_pad(trimmed_start(s), post);
    } else {
        lemma_trimmed_start_pad(post, Seq::empty());
        assert(post + Seq::<char>::empty() =~= post);
    }
}

/// ASCII uppercasing keeps whitespace whitespace and anything else not.
proof fn lemma_upper_keeps_white_space(c: char)
    ensures
        is_white_space(ascii_upper(c)) == is_white_space(c),
        (ascii_upper(c) as u32) < 0x80 <==> (c as u32) < 0x80,
        ascii_lower(ascii_upper(c)) == ascii_lower(c),
{
}

/// Trimming the start commutes with ASCII uppercasing.
proof fn lemma_trimmed_start_upper(s: Seq<char>)
    ensures
        trimmed_start(ascii_uppercase(s)) == ascii_uppercase(trimmed_start(s)),
    decreases s.len(),
{
    if s.len() > 0 {
        lemma_upper_keeps_white_space(s[0]);
        assert(ascii_uppercase(s)[0] == ascii_upper(s[0]));
        assert(ascii_uppercase(s).skip(1) =~= ascii_uppercase(s.skip(1)));
        lemma_trimmed_start_upper(s.skip(1));
    }
}

/// Trimming the end commutes with ASCII uppercasing.
proof fn lemma_trimmed_end_upper(s: Seq<char>)
    ensures
        trimmed_end(ascii_uppercase(s)) == ascii_uppercase(trimmed_end(s)),
    decreases s.len(),
{
    if s.len() > 0 {
        lemma_upper_keeps_white_space(s.last());
        assert(ascii_uppercase(s).last() == ascii_upper(s.last()));
        assert(ascii_uppercase(s).drop_last() =~= ascii_uppercase(s.drop_last()));
        lemma_trimmed_end_upper(s.drop_last());
    }
}

/// Trimming the start of ASCII text leaves ASCII text.
proof fn lemma_trimmed_start_ascii(s: Seq<char>)
    requires
        all_ascii(s),
    ensures
        all_ascii(trimmed_start(s)),
    decreases s.len(),
{
    if s.len() > 0 && is_white_space(s[0]) {
        assert forall|i: int| 0 <= i < s.skip(1).len() implies (#[trigger] s.skip(1)[i] as u32) < 0x80 by {
            assert(s.skip(1)[i] == s[i + 1]);
        }
        lemma_trimmed_start_ascii(s.skip(1));
    }
}

/// Trimming the end of ASCII text leaves ASCII text.
proof fn lemma_trimmed_end_ascii(s: Seq<char>)
    requires
        all_ascii(s),
    ensures
        all_ascii(trimmed_end(s)),
    decreases s.len(),
{
    if s.len() > 0 && is_white_space(s.last()) {
        assert forall|i: int| 0 <= i < s.drop_last().len() implies (#[trigger] s.drop_last()[i] as u32)
            < 0x80 by {
            assert(s.drop_last()[i] == s[i]);
        }
        lemma_trimmed_end_ascii(s.drop_last());
    }
}

/// Letter case and surrounding whitespace never change what console text
/// casts: ASCII text reads the same in uppercase, and any text reads the
/// same with whitespace around it.
pub proof fn lemma_parse_ignores_case_and_padding(s: Seq<char>, pre: Seq<char>, post: Seq<char>)
    requires
        all_white_space(pre),
        all_white_space(post),
    ensures
        all_ascii(s) ==> spell_named(normalized_spell_text(ascii_uppercase(s))) == spell_named(
            normalized_spell_text(s),
        ),
        spell_named(normalized_spell_text(pre + s + post)) == spell_named(normalized_spell_text(s)),
{
    lemma_trimmed_pad(pre, s, post);
    if all_ascii(s) {
        let t = trimmed(s);
        lemma_trimmed_start_upper(s);
        lemma_trimmed_end_upper(trimmed_start(s));
        lemma_trimmed_start_ascii(s);
        lemma_trimmed_end_ascii(trimmed_start(s));
        let u = ascii_uppercase(t);
        assert(trimmed(ascii_uppercase(s)) == u);
        assert forall|i: int| 0 <= i < u.len() implies (#[trigger] u[i] as u32) < 0x80 by {
            lemma_upper_keeps_white_space(t[i]);
        }
        let lu = u.map_values(|c: char| ascii_lower(c));
        let lt = t.map_values(|c: char| ascii_lower(c));
        assert forall|i: int| 0 <= i < t.len() implies #[trigger] lu[i] == lt[i] by {
            lemma_upper_keeps_white_space(t[i]);
        }
        assert(lu =~= lt);
    }
}

/// Whether a spell may be cast: `Debug` and `Flub` always, any other spell
/// once an active item unlocks it.
pub open spec fn spell_active(items: Seq<Item>, spell: Spell) -> bool {
    spell == Spell::Debug || spell == Spell::Flub || exists|i: int|
        0 <= i < items.len() && spell_of(#[trigger] items[i]) == spell
}

/// Whether the player unlocked `spell`.
pub fn is_spell_active(active_items: &ActiveItems, spell: &Spell) -> (res: bool)
    ensures
        res == spell_active(active_items.0@, *spell),
{
    if *spell == Spell::Debug || *spell == Spell::Flub {
        return true;
    }
    let mut i: usize = 0;
    while i < active_items.0.len()
        invariant
            i <= active_items.0@.len(),
            forall|j: int| 0 <= j < i ==> spell_of(#[trigger] active_items.0@[j]) != *spell,
        decreases active_items.0.len() - i,
    {
        if item_spell(&active_items.0[i]) == *spell {
            return true;
        }
        i = i + 1;
    }
    false
}

/// Debug mode after a spell was cast.
pub open spec fn debug_after(active: bool, spell: Spell) -> bool {
    if spell == Spell::Debug {
        !active
    } else {
        active
    }
}

/// Whether debug mode (every spell castable) is on.
#[derive(Clone, Copy, Debug, PartialEq, Eq, Structural)]
pub struct DebugSpell {
    pub active: bool,
}

impl DebugSpell {
    /// Debug mode starts off.
    pub fn new() -> (d: DebugSpell)
        ensures
            !d.active,
    {
        DebugSpell { active: false }
    }

    /// A cast spell: `Debug` flips debug mode, other spells leave it alone.
    pub fn on_spell_cast(&mut self, spell: Spell)
        ensures
            final(self).active == debug_after(old(self).active, spell),
    {
        if spell == Spell::Debug {
            self.active = !self.active;
        }
    }
}

/// The spell that console text casts when every spell is castable: the
/// parsed spell, or none for invalid text.
pub open spec fn typed_spell(text: Seq<char>) -> Option<Spell> {
    match spell_named(normalized_spell_text(text)) {
        Ok(spell) => Some(spell),
        Err(_) => None,
    }
}

/// The spell that submitted console text casts, whatever the player
/// unlocked (the plain spell plugin).
pub fn submitted_spell(text: &str) -> (cast: Option<Spell>)
    ensures
        cast == typed_spell(text@),
{
    match Spell::parse(text) {
        Ok(spell) => Some(spell),
        Err(_) => None,
    }
}

/// The spell that submitted console text casts in the cast plugin: a valid
/// spell is cast if debug mode is on or the player unlocked it.
pub fn spell_to_cast(text: &str, debug_spell: &DebugSpell, active_items: &ActiveItems) -> (cast: Option<Spell>)
    ensures
        cast == (match typed_spell(text@) {
            Some(spell) => if debug_spell.active || spell_active(active_items.0@, spell) {
                Some(spell)
            } else {
                None
            },
            None => None,
        }),
{
    match Spell::parse(text) {
        Ok(spell) => {
            if debug_spell.active || is_spell_active(active_items, &spell) {
                Some(spell)
            } else {
                None
            }
        },
        Err(_) => None,
    }
}

/// What a press of `J` does while the spell console is open.
#[derive(Clone, Copy, Debug, PartialEq, Eq, Structural)]
pub enum DoubleJ {
    /// The console is closed: the double-press window is let run out.
    Expire,
    /// Nothing happens this frame.
    Wait,
    /// A first press: the double-press window opens.
    OpenWindow,
    /// A second press within the window: the console closes.
    CloseConsole,
}

/// Pressing `J` twice quickly leaves the spell console. `casting` tells
/// whether the console is open, `j_pressed` whether `J` was just pressed and
/// `window_over` whether the window of the previous press ran out.
pub fn double_j_escape(casting: bool, j_pressed: bool, window_over: bool) -> (action: DoubleJ)
    ensures
        action == (if !casting {
            DoubleJ::Expire
        } else if !j_pressed {
            DoubleJ::Wait
        } else if window_over {
            DoubleJ::OpenWindow
        } else {
            DoubleJ::CloseConsole
        }),
{
    if !casting {
        return DoubleJ::Expire;
    }
    if j_pressed {
        if window_over {
            return DoubleJ::OpenWindow;
        }
        return DoubleJ::CloseConsole;
    }
    DoubleJ::Wait
}

/// Damage of a single fireball.
pub const FIREBALL_DAMAGE: u32 = 5;
/// Damage of each fireball of Ignis Pila.
pub const IGNIS_PILA_DAMAGE: u32 = 3;
/// Damage of each fireball of Inferno Pila.
pub const INFERNO_PILA_DAMAGE: u32 = 2;
/// How many fireballs Inferno Pila throws around the player.
pub const INFERNO_COUNT: usize = 25;
/// Damage of a Fulgur lightning.
pub const LIGHTNING_DAMAGE: u32 = 100;
/// Damage of a strike of the lightning bird.
pub const LIGHTNING_STRIKE_DAMAGE: u32 = 5;
/// Damage of an icicle of Scutum Glaciei.
pub const ICICLE_DAMAGE: u32 = 1;
/// Damage of an air current of Aer Tracto or Aer Pello.
pub const AER_TRACTO_DAMAGE: u32 = 1;
/// Damage the death spell deals to every enemy.
pub const DEATH_DAMAGE: u32 = 999;

/// A flying fireball.
#[derive(Clone, Copy, Debug, PartialEq, Eq, Structural)]
pub struct Fireball {
    pub disabled: bool,
    pub piercing: bool,
    pub damage: u32,
}

impl Fireball {
    /// A single, non-piercing fireball.
    pub fn new() -> (f: Fireball)
        ensures
            f == (Fireball { disabled: false, piercing: false, damage: FIREBALL_DAMAGE }),
    {
        Fireball { disabled: false, piercing: false, damage: FIREBALL_DAMAGE }
    }

    /// A fireball with the given damage that pierces through enemies or not.
    pub fn with(damage: u32, piercing: bool) -> (f: Fireball)
        ensures
            f == (Fireball { disabled: false, piercing, damage }),
    {
        Fireball { disabled: false, piercing, damage }
    }

    /// The fireball hit something: it burns out unless it pierces.
    pub fn disable(&mut self)
        ensures
            *final(self) == (Fireball { disabled: old(self).disabled || !old(self).piercing, ..*old(self) }),
    {
        if !self.piercing {
            self.disabled = true;
        }
    }

    /// Whether the fireball burned out.
    pub fn disabled(&self) -> (res: bool)
        ensures
            res == self.disabled,
    {
        self.disabled
    }

    /// The fireball's lifetime ran out: it burns out, piercing or not.
    pub fn expire(&mut self)
        ensures
            *final(self) == (Fireball { disabled: true, ..*old(self) }),
    {
        self.disabled = true;
    }
}

/// A piercing fireball never burns out on hits, however many it makes.
pub proof fn lemma_piercing_survives_hits(f: Fireball)
    requires
        f.piercing,
    ensures
        (Fireball { disabled: f.disabled || !f.piercing, ..f }) == f,
{
}

/// What `n` hits of `damage` leave of `health`.
pub open spec fn after_hits(health: i64, damage: u32, n: nat) -> i64
    decreases n,
{
    if n == 0 {
        health
    } else {
        after_damage(after_hits(health, damage, (n - 1) as nat), damage)
    }
}

/// The death spell struck `strikes` times this frame: each strike deals
/// `DEATH_DAMAGE` to every enemy.
pub fn kill_all_enemies(healths: &mut Vec<Health>, strikes: usize)
    ensures
        final(healths)@.len() == old(healths)@.len(),
        forall|i: int|
            0 <= i < old(healths)@.len() ==> (#[trigger] final(healths)@[i]).health == after_hits(
                old(healths)@[i].health,
                DEATH_DAMAGE,
                strikes as nat,
            ),
{
    let mut k: usize = 0;
    while k < strikes
        invariant
            k <= strikes,
            healths@.len() == old(healths)@.len(),
            forall|i: int|
                0 <= i < healths@.len() ==> (#[trigger] healths@[i]).health == after_hits(
                    old(healths)@[i].health,
                    DEATH_DAMAGE,
                    k as nat,
                ),
        decreases strikes - k,
    {
        let ghost before = healths@;
        let mut i: usize = 0;
        while i < healths.len()
            invariant
                i <= healths@.len(),
                healths@.len() == before.len(),
                forall|j: int|
                    0 <= j < i ==> (#[trigger] healths@[j]).health == after_damage(before[j].health, DEATH_DAMAGE),
                forall|j: int| i <= j < healths@.len() ==> #[trigger] healths@[j] == before[j],
            decreases healths.len() - i,
        {
            let mut h = healths[i];
            h.damage(DEATH_DAMAGE);
            healths.set(i, h);
            i = i + 1;
        }
        k = k + 1;
    }
}

/// A lightning bird summoned by Fulgur Avis.
#[derive(Clone, Copy, Debug, PartialEq, Eq, Structural)]
pub struct LightningBird {
    /// The wing flap timer switched from its first, short wait to the
    /// regular flapping rhythm.
    pub flapping: bool,
    /// The bird's lifetime ran out.
    pub disabled: bool,
}

/// The first wing flap comes after this many milliseconds.
pub const FIRST_FLAP_MS: u32 = 400;
/// Later wing flaps come every this many milliseconds.
pub const FLAP_MS: u32 = 800;
/// When the strikes of one attack come, in milliseconds after the attack.
pub const STRIKE_INTERVALS_MS: [u32; 10] = [0, 100, 200, 300, 400, 850, 900, 1000, 1100, 1200];

impl LightningBird {
    /// A new bird, before its first flap.
    pub fn new() -> (b: LightningBird)
        ensures
            b == (LightningBird { flapping: false, disabled: false }),
    {
        LightningBird { flapping: false, disabled: false }
    }

    /// The bird's timers were ticked: its lifetime may have run out, and its
    /// flap timer may have finished. After the first flap the flap timer
    /// switches to the regular rhythm; returns the new flap timer duration
    /// (milliseconds) when it switches. A flap sound plays whenever the flap
    /// timer finished.
    pub fn on_tick(&mut self, lifetime_over: bool, flap_finished: bool) -> (switch_to: Option<u32>)
        ensures
            final(self).disabled == (old(self).disabled || lifetime_over),
            final(self).flapping == (old(self).flapping || flap_finished),
            switch_to == (if !old(self).flapping && flap_finished {
                Some(FLAP_MS)
            } else {
                None
            }),
    {
        if lifetime_over {
            self.disabled = true;
        }
        if !self.flapping && flap_finished {
            self.flapping = true;
            return Some(FLAP_MS);
        }
        None
    }
}

/// Unlocking an item makes its spell castable, and unlocking more items
/// never makes a castable spell uncastable.
pub proof fn lemma_unlock_grants_spell(items: Seq<Item>, more: Seq<Item>, item: Item, spell: Spell)
    ensures
        spell_active(items.push(item), spell_of(item)),
        spell_active(items, spell) ==> spell_active(items + more, spell),
{
    let pushed = items.push(item);
    assert(pushed[items.len() as int] == item);
    if spell_active(items, spell) && spell != Spell::Debug && spell != Spell::Flub {
        let i = choose|i: int| 0 <= i < items.len() && spell_of(#[trigger] items[i]) == spell;
        assert((items + more)[i] == items[i]);
    }
}

/// Every item that joins the active items makes its spell castable.
pub proof fn lemma_unlocked_spells_castable(items: Seq<Item>, unlocked: Seq<Item>)
    ensures
        forall|k: int|
            0 <= k < unlocked.len() ==> spell_active(items + unlocked, spell_of(#[trigger] unlocked[k])),
{
    assert forall|k: int| 0 <= k < unlocked.len() implies spell_active(
        items + unlocked,
        spell_of(#[trigger] unlocked[k]),
    ) by {
        assert((items + unlocked)[items.len() + k] == unlocked[k]);
    }
}

/// Debug mode flips with every `Debug` cast: two of them restore it,
/// and other spells leave it alone.
pub proof fn lemma_debug_toggle_twice(active: bool, other: Spell)
    requires
        other != Spell::Debug,
    ensures
        debug_after(debug_after(active, Spell::Debug), Spell::Debug) == active,
        debug_after(active, other) == active,
{
}

} // verus!
