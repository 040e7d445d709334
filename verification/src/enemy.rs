//! Enemies: the archetypes, their per-wave stats, and how Splitters split.

use vstd::prelude::*;

verus! {

/// The enemy archetypes.
#[derive(Debug, Clone, Copy, PartialEq, Eq, Structural)]
pub enum EnemyKind {
    /// Straight-line pursuer that deals contact damage.
    MeleeRusher,
    /// Accelerates toward the player the closer it gets.
    SpeedBurster,
    /// Splits into smaller enemies on death.
    Splitter,
}

/// Fired whenever an enemy is spawned (edge spawns and splits).
#[derive(Debug, Clone, Copy, PartialEq, Eq, Structural)]
pub struct EnemySpawned {
    pub kind: EnemyKind,
}

/// An enemy's stats. Health is in tenths of a point; speed in world units
/// per second.
#[derive(Debug, Clone, Copy, PartialEq, Eq, Structural)]
pub struct Enemy {
    pub kind: EnemyKind,
    pub speed: u64,
    pub health: i64,
    /// How many more times a Splitter may split (0: it can no longer split).
    pub split_depth: u8,
}

/// Speed of a Splitter's child.
pub const SPLIT_CHILD_SPEED: u64 = 150;

/// Health of a Splitter's child, in tenths.
pub const SPLIT_CHILD_HEALTH: i64 = 150;

/// Number of children a Splitter breaks into.
pub const SPLIT_CHILDREN: usize = 2;

/// Split depth of a Splitter spawned at the field edge.
pub const SPLITTER_DEPTH: u8 = 2;

/// Contact damage per kind, in tenths.
pub open spec fn spec_contact_damage(kind: EnemyKind) -> i64 {
    match kind {
        EnemyKind::MeleeRusher => 100,
        EnemyKind::SpeedBurster => 60,
        EnemyKind::Splitter => 80,
    }
}

/// The enemy an edge spawn produces for roll `roll` on wave `wave`.
pub open spec fn spec_enemy_for_wave(roll: u32, wave: u32) -> Enemy {
    if roll == 0 {
        Enemy { kind: EnemyKind::MeleeRusher, speed: (120 + 8 * wave) as u64, health: (300 + 20 * wave) as i64, split_depth: 0 }
    } else if roll == 1 {
        Enemy { kind: EnemyKind::SpeedBurster, speed: (200 + 6 * wave) as u64, health: (180 + 10 * wave) as i64, split_depth: 0 }
    } else {
        Enemy { kind: EnemyKind::Splitter, speed: (140 + 6 * wave) as u64, health: (400 + 20 * wave) as i64, split_depth: SPLITTER_DEPTH }
    }
}

/// Enemies grow with the wave: each later wave adds a fixed amount to every
/// kind's health (Melee Rusher 2 points, Speed Burster 1, Splitter 2) and
/// speed (8, 6 and 6 units), starting on wave 0 from 30, 18 and 40 points
/// of health; so a later wave's enemy is always tougher and faster.
pub proof fn law_enemies_grow_with_the_wave(roll: u32, wave: u32)
    requires
        wave < u32::MAX,
    ensures
        spec_enemy_for_wave(roll, (wave + 1) as u32).health > spec_enemy_for_wave(roll, wave).health,
        spec_enemy_for_wave(roll, (wave + 1) as u32).speed > spec_enemy_for_wave(roll, wave).speed,
        spec_enemy_for_wave(roll, (wave + 1) as u32).kind == spec_enemy_for_wave(roll, wave).kind,
        spec_enemy_for_wave(roll, wave).health == match spec_enemy_for_wave(roll, wave).kind {
            EnemyKind::MeleeRusher => 300 + 20 * wave,
            EnemyKind::SpeedBurster => 180 + 10 * wave,
            EnemyKind::Splitter => 400 + 20 * wave,
        },
        spec_enemy_for_wave(roll, (wave + 1) as u32).health - spec_enemy_for_wave(roll, wave).health == match spec_enemy_for_wave(roll, wave).kind {
            EnemyKind::MeleeRusher => 20int,
            EnemyKind::SpeedBurster => 10int,
            EnemyKind::Splitter => 20int,
        },
        spec_enemy_for_wave(roll, (wave + 1) as u32).speed - spec_enemy_for_wave(roll, wave).speed == match spec_enemy_for_wave(roll, wave).kind {
            EnemyKind::MeleeRusher => 8int,
            EnemyKind::SpeedBurster => 6int,
            EnemyKind::Splitter => 6int,
        },
        roll == 0 ==> spec_enemy_for_wave(roll, wave).kind == EnemyKind::MeleeRusher,
        roll == 1 ==> spec_enemy_for_wave(roll, wave).kind == EnemyKind::SpeedBurster,
        roll >= 2 ==> spec_enemy_for_wave(roll, wave).kind == EnemyKind::Splitter,
{
}

/// The enemy an edge spawn produces for `roll` (0: Melee Rusher, 1: Speed
/// Burster, anything else: Splitter), with stats that grow with the wave.
pub fn enemy_for_wave(roll: u32, wave: u32) -> (e: Enemy)
    ensures
        e == spec_enemy_for_wave(roll, wave),
{
    let w = wave as u64;
    if roll == 0 {
        Enemy { kind: EnemyKind::MeleeRusher, speed: 120 + 8 * w, health: (300 + 20 * w) as i64, split_depth: 0 }
    } else if roll == 1 {
        Enemy { kind: EnemyKind::SpeedBurster, speed: 200 + 6 * w, health: (180 + 10 * w) as i64, split_depth: 0 }
    } else {
        Enemy { kind: EnemyKind::Splitter, speed: 140 + 6 * w, health: (400 + 20 * w) as i64, split_depth: SPLITTER_DEPTH }
    }
}

impl EnemyKind {
    /// Visual size of an edge-spawned enemy of this kind, in world units.
    pub fn spawn_size(self) -> (size: u32)
        ensures
            size == match self {
                EnemyKind::MeleeRusher => 62u32,
                EnemyKind::SpeedBurster => 48u32,
                EnemyKind::Splitter => 70u32,
            },
    {
        match self {
            EnemyKind::MeleeRusher => 62,
            EnemyKind::SpeedBurster => 48,
            EnemyKind::Splitter => 70,
        }
    }
}

impl Enemy {
    /// Body radius, in world units.
    pub fn radius(&self) -> (r: u32)
        ensures
            r == match self.kind {
                EnemyKind::MeleeRusher => 31u32,
                EnemyKind::SpeedBurster => 24u32,
                EnemyKind::Splitter => 35u32,
            },
    {
        match self.kind {
            EnemyKind::MeleeRusher => 31,
            EnemyKind::SpeedBurster => 24,
            EnemyKind::Splitter => 35,
        }
    }

    /// Contact damage dealt to the player, in tenths.
    pub fn contact_damage(&self) -> (d: i64)
        ensures
            d == spec_contact_damage(self.kind),
    {
        match self.kind {
            EnemyKind::MeleeRusher => 100,
            EnemyKind::SpeedBurster => 60,
            EnemyKind::Splitter => 80,
        }
    }
}

/// The children a dying enemy of split depth `depth` leaves: none at depth 0,
/// otherwise two small Splitters one depth lower.
pub fn splitter_children(depth: u8) -> (children: Vec<Enemy>)
    ensures
        depth == 0 ==> children@.len() == 0,
        depth > 0 ==> children@.len() == SPLIT_CHILDREN,
        forall|i: int|
            0 <= i < children@.len() ==> #[trigger] children@[i] == (Enemy {
                kind: EnemyKind::Splitter,
                speed: SPLIT_CHILD_SPEED,
                health: SPLIT_CHILD_HEALTH,
                split_depth: (depth - 1) as u8,
            }),
{
    let mut children: Vec<Enemy> = Vec::new();
    if depth == 0 {
        return children;
    }
    let child = Enemy {
        kind: EnemyKind::Splitter,
        speed: SPLIT_CHILD_SPEED,
        health: SPLIT_CHILD_HEALTH,
        split_depth: depth - 1,
    };
    children.push(child);
    children.push(child);
    children
}

/// Enemies a Splitter of split depth `depth` produces over its whole chain
/// of splits (children, grandchildren, ...).
pub open spec fn split_descendants(depth: nat) -> nat
    decreases depth,
{
    if depth == 0 {
        0
    } else {
        SPLIT_CHILDREN as nat + SPLIT_CHILDREN as nat * split_descendants((depth - 1) as nat)
    }
}

/// A Splitter spawned at the field edge splits twice and then stops: its
/// chain produces exactly six descendants (two children, four grandchildren).
pub proof fn law_edge_splitter_chain_produces_six()
    ensures
        split_descendants(SPLITTER_DEPTH as nat) == 6,
{
    reveal_with_fuel(split_descendants, 3);
}

} // verus!
