//! The Player's hit points and the stats that shop items boost.
//!
//! Hit points are counted in tenths of a point.

use vstd::prelude::*;

verus! {

/// Maximum hit points of a fresh Player, in tenths.
pub const BASE_MAX_HP: i64 = 1000;

/// Bound on any hit-point quantity, in tenths (far beyond anything a Run
/// reaches; it keeps the arithmetic inside `i64`).
pub const HP_LIMIT: i64 = 1_000_000_000_000_000;

/// Marker of the Player.
#[derive(Debug, Clone, Copy, PartialEq, Eq, Structural)]
pub struct Player;

/// The Player's hit points, in tenths.
#[derive(Debug, Clone, Copy, PartialEq, Eq, Structural)]
pub struct Health {
    pub max: i64,
    pub current: i64,
}

impl Health {
    /// Hit points within the representable range.
    pub open spec fn wf(&self) -> bool {
        &&& 0 <= self.max <= HP_LIMIT
        &&& -HP_LIMIT <= self.current <= HP_LIMIT
    }

    /// Full health of a fresh Player.
    pub fn full() -> (h: Health)
        ensures
            h.max == BASE_MAX_HP,
            h.current == BASE_MAX_HP,
            h.wf(),
    {
        Health { max: BASE_MAX_HP, current: BASE_MAX_HP }
    }
}

/// Player stats that shop items boost. Multipliers are in percent.
#[derive(Debug, Clone, Copy, PartialEq, Eq, Structural)]
pub struct PlayerStats {
    /// Damage multiplier applied to all weapons.
    pub damage_pct: u64,
    /// Movement speed multiplier.
    pub speed_pct: u64,
    /// Bonus max HP, in tenths.
    pub max_hp_bonus: i64,
    /// Materials within this distance (world units) fly to the Player and
    /// are collected on contact.
    pub attraction_radius: u64,
}

/// Attraction radius of a fresh Player, in world units.
pub const BASE_ATTRACTION_RADIUS: u64 = 26;

impl PlayerStats {
    /// The stats of a fresh Player: x1 damage, x1 speed, no bonus HP, the
    /// base attraction radius.
    pub fn new() -> (s: PlayerStats)
        ensures
            s.damage_pct == 100,
            s.speed_pct == 100,
            s.max_hp_bonus == 0,
            s.attraction_radius == BASE_ATTRACTION_RADIUS,
    {
        PlayerStats { damage_pct: 100, speed_pct: 100, max_hp_bonus: 0, attraction_radius: BASE_ATTRACTION_RADIUS }
    }
}

} // verus!
