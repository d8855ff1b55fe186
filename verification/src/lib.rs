//! Game rules of a top-down arena where a mage unlocks spells at statues,
//! fights slimes and finally a demon boss.
//!
//! Everything here is plain decision logic over integers, booleans and
//! enums: timers, physics, rendering and audio playback are driven by the
//! engine, which hands this crate the events it observed (a timer that just
//! finished, a collision, a key press) and applies the decisions it gets back.
mod text;

pub mod audio;
pub mod demon_boss;
pub mod fulgur;
pub mod game;
pub mod health;
pub mod player;
pub mod item;
pub mod slime;
pub mod spawner;
pub mod spell;
pub mod statue;
