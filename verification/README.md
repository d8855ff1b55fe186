# mage_arena

The rules of a top-down arena game, verified with Verus. A mage walks up to
statues, fights off the waves of slimes each statue releases, unlocks the
statue's spell and types it into a spell console; once every statue is
unlocked, the final act brings a demon boss.

## Layout

- `src/` is the verified library: plain decision logic over integers,
  booleans, enums, strings and vectors. Each public function states in its
  `ensures` what it returns and how it changes its `&mut` arguments, and the
  game's laws stand as public proof functions beside them.
  - `spell`: parsing console text into spells (trimming, lowercasing,
    incantations), which spells are unlocked, debug mode, fireballs, the
    death spell and the lightning bird.
  - `fulgur`: sharing the strikes of the Fulgur spell among the enemies.
  - `item`, `statue`, `spawner`: the items, their statues, and the enemy
    waves a triggered statue releases.
  - `player`, `slime`, `demon_boss`, `health`, `game`: the state machines of
    the player, the slimes and the boss, hit points and the game's phases.
  - `audio`: which of a frame's sound requests are played.
- `tests/` runs the library on concrete values.
- `app/` is the game itself on the Bevy engine: it reads input, timers and
  collisions, calls the library for every decision and renders the result.
  It is ordinary Rust and not verified.

The library calls two outside crates through a few trusted wrappers, each
with a doc comment saying what it assumes: `rand` for random choices and
Bevy's `HashSet`. Standard library string trimming and lowercasing are
trusted the same way.
