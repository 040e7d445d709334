//! game_core — the rules of a horde-survival roguelike: weapons and their
//! upgrade paths, effective-damage attribution, the materials economy, the
//! shop, waves, contact damage, and the run state machine.
//!
//! Everything here works on plain integers. Hit points and damage are kept in
//! tenths of a point, stat multipliers in percent; positions, velocities and
//! timers belong to the presentation layer, which hands the rules the
//! decisions it measured (which enemies touch the player, whether a timer
//! elapsed).

pub mod ai;
pub mod background;
pub mod combat;
pub mod damage;
pub mod enemy;
pub mod flow;
pub mod economy;
pub mod intent;
pub mod orbs;
pub mod player;
pub mod rng;
pub mod settings;
pub mod shop;
pub mod ui;
pub mod upgrade;
pub mod waves;
pub mod weapon;

use vstd::prelude::*;

verus! {

} // verus!
