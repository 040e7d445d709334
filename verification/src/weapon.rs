//! Weapon kinds and their base profiles.

use vstd::prelude::*;

use crate::damage::WeaponSlot;

verus! {

/// One equipped weapon as the rules see it: its slot, its kind, and whether
/// it has reached its Evolution.
#[derive(Debug, Clone, Copy, PartialEq, Eq, Structural)]
pub struct EquippedWeapon {
    pub slot: WeaponSlot,
    pub kind: WeaponKind,
    pub evolved: bool,
}

/// Maximum number of equipped weapons.
pub const MAX_WEAPON_SLOTS: usize = 6;

/// The weapon archetypes.
#[derive(Debug, Clone, Copy, PartialEq, Eq, Structural, PartialOrd, Ord, Hash)]
pub enum WeaponKind {
    PiercingProjectile,
    MeleeSwing,
    OrbitingOrb,
}

/// Stable position of a kind in [`WeaponKind::all`].
pub open spec fn kind_index(kind: WeaponKind) -> int {
    match kind {
        WeaponKind::PiercingProjectile => 0,
        WeaponKind::MeleeSwing => 1,
        WeaponKind::OrbitingOrb => 2,
    }
}

/// The kind at a position of [`WeaponKind::all`].
pub open spec fn kind_at(index: int) -> WeaponKind {
    if index == 0 {
        WeaponKind::PiercingProjectile
    } else if index == 1 {
        WeaponKind::MeleeSwing
    } else {
        WeaponKind::OrbitingOrb
    }
}

/// Knockback impulse of a kind, in world units per second.
pub open spec fn spec_knockback(kind: WeaponKind) -> u32 {
    match kind {
        WeaponKind::PiercingProjectile => 80,
        WeaponKind::MeleeSwing => 150,
        WeaponKind::OrbitingOrb => 180,
    }
}

/// The Weapon chosen for the current Run (kept on the end screens so a new
/// Run can focus the previous choice).
#[derive(Debug, Clone, Copy, PartialEq, Eq, Structural)]
pub struct StartingWeapon {
    pub selected: Option<WeaponKind>,
}

/// Confirms the Weapon used for a new Run.
#[derive(Debug, Clone, Copy, PartialEq, Eq, Structural)]
pub struct StartingWeaponSelected {
    pub kind: WeaponKind,
}

impl WeaponKind {
    /// Every kind, in the stable order used by the selection screen.
    pub fn all() -> (kinds: [WeaponKind; 3])
        ensures
            forall|i: int| 0 <= i < 3 ==> kinds@[i] == kind_at(i),
    {
        [WeaponKind::PiercingProjectile, WeaponKind::MeleeSwing, WeaponKind::OrbitingOrb]
    }

    /// Position of this kind in [`WeaponKind::all`].
    pub fn index(self) -> (i: usize)
        ensures
            i == kind_index(self),
            kind_at(i as int) == self,
    {
        match self {
            WeaponKind::PiercingProjectile => 0,
            WeaponKind::MeleeSwing => 1,
            WeaponKind::OrbitingOrb => 2,
        }
    }

    /// Display name shown in the interface.
    pub fn display_name(self) -> (name: &'static str)
        ensures
            name@ == match self {
                WeaponKind::PiercingProjectile => "穿透弹"@,
                WeaponKind::MeleeSwing => "近战弧光"@,
                WeaponKind::OrbitingOrb => "环绕球"@,
            },
    {
        match self {
            WeaponKind::PiercingProjectile => "穿透弹",
            WeaponKind::MeleeSwing => "近战弧光",
            WeaponKind::OrbitingOrb => "环绕球",
        }
    }

    /// Short description of the weapon's intended playstyle.
    pub fn playstyle(self) -> (text: &'static str)
        ensures
            text@ == match self {
                WeaponKind::PiercingProjectile => "远程安全、直线群伤"@,
                WeaponKind::MeleeSwing => "高风险高爆发、强击退"@,
                WeaponKind::OrbitingOrb => "贴身持续清群、依赖走位"@,
            },
    {
        match self {
            WeaponKind::PiercingProjectile => "远程安全、直线群伤",
            WeaponKind::MeleeSwing => "高风险高爆发、强击退",
            WeaponKind::OrbitingOrb => "贴身持续清群、依赖走位",
        }
    }

    /// Knockback impulse applied to an enemy on each damaging hit.
    pub fn knockback(self) -> (k: u32)
        ensures
            k == spec_knockback(self),
    {
        match self {
            WeaponKind::PiercingProjectile => 80,
            WeaponKind::MeleeSwing => 150,
            WeaponKind::OrbitingOrb => 180,
        }
    }
}

/// A freshly equipped weapon's profile (Level 1, before any upgrade).
/// Damage is in tenths of a point, the cooldown in milliseconds, distances
/// in world units, orbit speed in radians per second.
#[derive(Debug, Clone, Copy, PartialEq, Eq, Structural)]
pub struct Weapon {
    pub kind: WeaponKind,
    /// Time between attacks (0: the orb attacks by contact).
    pub cooldown_ms: u32,
    pub damage: i64,
    pub projectile_speed: u32,
    /// Reach of the melee swing; flight distance of a projectile.
    pub range: u32,
    /// Orbit speed of an orb.
    pub orbit_speed: u32,
    /// Largest orbit radius of an orb.
    pub orbit_radius: u32,
    /// Number of independent orbs.
    pub orb_count: u8,
    /// Orb size multiplier, in percent.
    pub orb_size_pct: u32,
}

/// The Level-1 profile of each kind.
pub open spec fn spec_weapon_new(kind: WeaponKind) -> Weapon {
    match kind {
        WeaponKind::PiercingProjectile => Weapon {
            kind,
            cooldown_ms: 600,
            damage: 240,
            projectile_speed: 420,
            range: 900,
            orbit_speed: 0,
            orbit_radius: 0,
            orb_count: 1,
            orb_size_pct: 100,
        },
        WeaponKind::MeleeSwing => Weapon {
            kind,
            cooldown_ms: 700,
            damage: 400,
            projectile_speed: 0,
            range: 105,
            orbit_speed: 0,
            orbit_radius: 0,
            orb_count: 1,
            orb_size_pct: 100,
        },
        WeaponKind::OrbitingOrb => Weapon {
            kind,
            cooldown_ms: 0,
            damage: 700,
            projectile_speed: 0,
            range: 0,
            orbit_speed: 10,
            orbit_radius: 100,
            orb_count: 1,
            orb_size_pct: 100,
        },
    }
}

impl Weapon {
    /// The Level-1 profile of `kind`.
    pub fn new(kind: WeaponKind) -> (w: Weapon)
        ensures
            w == spec_weapon_new(kind),
    {
        let (cooldown_ms, damage, projectile_speed, range): (u32, i64, u32, u32) = match kind {
            WeaponKind::PiercingProjectile => (600, 240, 420, 900),
            WeaponKind::MeleeSwing => (700, 400, 0, 105),
            WeaponKind::OrbitingOrb => (0, 700, 0, 0),
        };
        let (orbit_speed, orbit_radius): (u32, u32) = match kind {
            WeaponKind::OrbitingOrb => (10, 100),
            _ => (0, 0),
        };
        Weapon {
            kind,
            cooldown_ms,
            damage,
            projectile_speed,
            range,
            orbit_speed,
            orbit_radius,
            orb_count: 1,
            orb_size_pct: 100,
        }
    }
}

/// How a weapon attacks on its cooldown.
#[derive(Debug, Clone, Copy, PartialEq, Eq, Structural)]
pub enum AttackMode {
    /// Fire a piercing projectile at the nearest enemy; `splits` when it is
    /// a Splitshot projectile that fans out on its first hit.
    Projectile { splits: bool },
    /// Swing a melee hitbox when an enemy is in reach.
    Swing,
    /// No cooldown attack: orbs and the Whirlwind blade hit by contact.
    Contact,
}

/// The attack a weapon of `kind` makes, with or without its Evolution: the
/// Whirlwind replaces the melee swing, and only an evolved projectile splits.
pub open spec fn spec_attack_mode(kind: WeaponKind, evolved: bool) -> AttackMode {
    match kind {
        WeaponKind::PiercingProjectile => AttackMode::Projectile { splits: evolved },
        WeaponKind::MeleeSwing => if evolved {
            AttackMode::Contact
        } else {
            AttackMode::Swing
        },
        WeaponKind::OrbitingOrb => AttackMode::Contact,
    }
}

/// The attack a weapon of `kind` makes on its cooldown.
pub fn attack_mode(kind: WeaponKind, evolved: bool) -> (m: AttackMode)
    ensures
        m == spec_attack_mode(kind, evolved),
{
    match kind {
        WeaponKind::PiercingProjectile => AttackMode::Projectile { splits: evolved },
        WeaponKind::MeleeSwing => if evolved {
            AttackMode::Contact
        } else {
            AttackMode::Swing
        },
        WeaponKind::OrbitingOrb => AttackMode::Contact,
    }
}

/// Spin of the orb at `ordinal`: +1 (counter-clockwise) when even, -1
/// (clockwise) when odd.
pub open spec fn spin_of(ordinal: int) -> i8 {
    if ordinal % 2 == 0 {
        1i8
    } else {
        -1i8
    }
}

/// Neighbouring orbs always turn in opposite directions.
pub proof fn law_neighbouring_orbs_counter_rotate(ordinal: int)
    requires
        0 <= ordinal,
    ensures
        spin_of(ordinal) == -(spin_of(ordinal + 1) as int),
{
}

/// Spin direction of the orb with global ordinal `ordinal`: even ordinals
/// turn counter-clockwise (+1), odd ones clockwise (-1), so neighbours
/// counter-rotate.
pub fn spin_sign(ordinal: u32) -> (s: i8)
    ensures
        s == spin_of(ordinal as int),
{
    if ordinal % 2 == 0 {
        1
    } else {
        -1
    }
}

/// Take the first selection of the frame as the Run's Weapon. Returns
/// whether one was taken (the Run then begins).
pub fn select_starting_weapon(
    selections: &Vec<StartingWeaponSelected>,
    starting: &mut StartingWeapon,
) -> (taken: bool)
    ensures
        taken == (selections@.len() > 0),
        taken ==> final(starting).selected == Some(selections@[0].kind),
        !taken ==> *final(starting) == *old(starting),
{
    if selections.len() == 0 {
        return false;
    }
    starting.selected = Some(selections[0].kind);
    true
}

} // verus!
