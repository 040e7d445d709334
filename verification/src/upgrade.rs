//! Weapon upgrade paths: per-kind levels with a fixed two-choice table,
//! ending in a Level-8 Evolution.

use vstd::prelude::*;

use crate::damage::WeaponSlot;
use crate::player::HP_LIMIT;
use crate::weapon::{EquippedWeapon, WeaponKind, MAX_WEAPON_SLOTS};

verus! {

/// Highest Weapon Level: the Evolution.
pub const MAX_WEAPON_LEVEL: u8 = 8;

/// A stat change applied to every weapon of the chosen kind. Mechanic effects
/// only, never direct damage. Multipliers are in percent (120 = x1.2);
/// attack speed is a positive percentage taken off the cooldown (15 = the
/// cooldown shortened by 15%).
#[derive(Debug, Clone, Copy, PartialEq, Eq, Structural)]
pub enum StatMod {
    AttackSpeed(u32),
    Range(u32),
    Knockback(u32),
    ProjectileSpeed(u32),
    OrbitSpeed(u32),
    OrbitRadius(u32),
    /// Orb collision and visual size (damage unchanged).
    OrbSize(u32),
    AdditionalWeapon,
    AdditionalOrb,
}

/// The effect of option `choice` (0 or 1) on row `row` (the level-up from
/// `row + 1` to `row + 2`) of the path of `kind`.
pub open spec fn spec_option_effect(kind: WeaponKind, row: int, choice: int) -> StatMod {
    let aspd = StatMod::AttackSpeed(15);
    match kind {
        WeaponKind::MeleeSwing => {
            let kb = StatMod::Knockback(135);
            let range = StatMod::Range(120);
            let more = StatMod::AdditionalWeapon;
            if row == 0 {
                if choice == 0 { aspd } else { more }
            } else if row == 1 {
                if choice == 0 { kb } else { range }
            } else if row == 2 {
                if choice == 0 { aspd } else { kb }
            } else if row == 3 {
                if choice == 0 { more } else { range }
            } else if row == 4 {
                if choice == 0 { aspd } else { kb }
            } else {
                if choice == 0 { range } else { aspd }
            }
        },
        WeaponKind::PiercingProjectile => {
            let range = StatMod::Range(115);
            let speed = StatMod::ProjectileSpeed(120);
            if row == 0 {
                if choice == 0 { range } else { aspd }
            } else if row == 1 {
                if choice == 0 { speed } else { aspd }
            } else if row == 2 {
                if choice == 0 { range } else { speed }
            } else if row == 3 {
                if choice == 0 { aspd } else { speed }
            } else if row == 4 {
                if choice == 0 { range } else { aspd }
            } else {
                if choice == 0 { speed } else { range }
            }
        },
        WeaponKind::OrbitingOrb => {
            let more = StatMod::AdditionalOrb;
            let spin = StatMod::OrbitSpeed(120);
            let size = StatMod::OrbSize(115);
            let radius = StatMod::OrbitRadius(125);
            if row == 0 {
                if choice == 0 { more } else { spin }
            } else if row == 1 {
                if choice == 0 { size } else { radius }
            } else if row == 2 {
                if choice == 0 { spin } else { size }
            } else if row == 3 {
                if choice == 0 { more } else { radius }
            } else if row == 4 {
                if choice == 0 { spin } else { size }
            } else {
                if choice == 0 { radius } else { spin }
            }
        },
    }
}

/// The label shown for an option with the given effect.
pub open spec fn spec_option_label(effect: StatMod) -> Seq<char> {
    match effect {
        StatMod::AdditionalWeapon => "额外近战 +1"@,
        StatMod::AdditionalOrb => "额外环绕球 +1"@,
        StatMod::AttackSpeed(_) => "攻速 +15%"@,
        StatMod::Knockback(_) => "击退 +35%"@,
        StatMod::Range(p) => if p == 120 { "范围 +20%"@ } else { "射程 +15%"@ },
        StatMod::ProjectileSpeed(_) => "弹速 +20%"@,
        StatMod::OrbitSpeed(_) => "转速 +20%"@,
        StatMod::OrbSize(_) => "球体 +15%"@,
        StatMod::OrbitRadius(_) => "半径 +25%"@,
    }
}

/// One pick on a weapon's path: a short display label and its effect.
#[derive(Debug, Clone, Copy)]
pub struct UpgradeOption {
    pub label: &'static str,
    pub effect: StatMod,
}

/// One kind's full route: options for the level-ups 1->2 .. 6->7 (six rows
/// of two), then the fixed Level-8 Evolution.
pub struct WeaponUpgradePath {
    pub kind: WeaponKind,
    pub levels: [[UpgradeOption; 2]; 6],
    pub evolution: Evolution,
}

fn option_with_effect(effect: StatMod) -> (o: UpgradeOption)
    requires
        match effect {
            StatMod::Range(p) => p == 120 || p == 115,
            _ => true,
        },
    ensures
        o.effect == effect,
        o.label@ == spec_option_label(effect),
{
    let label = match effect {
        StatMod::AdditionalWeapon => "额外近战 +1",
        StatMod::AdditionalOrb => "额外环绕球 +1",
        StatMod::AttackSpeed(_) => "攻速 +15%",
        StatMod::Knockback(_) => "击退 +35%",
        StatMod::Range(p) => if p == 120 {
            "范围 +20%"
        } else {
            "射程 +15%"
        },
        StatMod::ProjectileSpeed(_) => "弹速 +20%",
        StatMod::OrbitSpeed(_) => "转速 +20%",
        StatMod::OrbSize(_) => "球体 +15%",
        StatMod::OrbitRadius(_) => "半径 +25%",
    };
    UpgradeOption { label, effect }
}

/// The effect of option `choice` on row `row` of the path of `kind`.
pub fn option_effect(kind: WeaponKind, row: usize, choice: usize) -> (e: StatMod)
    requires
        row < 6,
        choice < 2,
    ensures
        e == spec_option_effect(kind, row as int, choice as int),
{
    let aspd = StatMod::AttackSpeed(15);
    match kind {
        WeaponKind::MeleeSwing => {
            let kb = StatMod::Knockback(135);
            let range = StatMod::Range(120);
            let more = StatMod::AdditionalWeapon;
            if row == 0 {
                if choice == 0 { aspd } else { more }
            } else if row == 1 {
                if choice == 0 { kb } else { range }
            } else if row == 2 {
                if choice == 0 { aspd } else { kb }
            } else if row == 3 {
                if choice == 0 { more } else { range }
            } else if row == 4 {
                if choice == 0 { aspd } else { kb }
            } else {
                if choice == 0 { range } else { aspd }
            }
        },
        WeaponKind::PiercingProjectile => {
            let range = StatMod::Range(115);
            let speed = StatMod::ProjectileSpeed(120);
            if row == 0 {
                if choice == 0 { range } else { aspd }
            } else if row == 1 {
                if choice == 0 { speed } else { aspd }
            } else if row == 2 {
                if choice == 0 { range } else { speed }
            } else if row == 3 {
                if choice == 0 { aspd } else { speed }
            } else if row == 4 {
                if choice == 0 { range } else { aspd }
            } else {
                if choice == 0 { speed } else { range }
            }
        },
        WeaponKind::OrbitingOrb => {
            let more = StatMod::AdditionalOrb;
            let spin = StatMod::OrbitSpeed(120);
            let size = StatMod::OrbSize(115);
            let radius = StatMod::OrbitRadius(125);
            if row == 0 {
                if choice == 0 { more } else { spin }
            } else if row == 1 {
                if choice == 0 { size } else { radius }
            } else if row == 2 {
                if choice == 0 { spin } else { size }
            } else if row == 3 {
                if choice == 0 { more } else { radius }
            } else if row == 4 {
                if choice == 0 { spin } else { size }
            } else {
                if choice == 0 { radius } else { spin }
            }
        },
    }
}

/// The upgrade path of a weapon kind.
pub fn path_for(kind: WeaponKind) -> (path: WeaponUpgradePath)
    ensures
        path.kind == kind,
        path.evolution == spec_evolution_for(kind),
        forall|row: int, choice: int|
            0 <= row < 6 && 0 <= choice < 2 ==> {
                &&& (#[trigger] path.levels@[row]@[choice]).effect == spec_option_effect(kind, row, choice)
                &&& path.levels@[row]@[choice].label@ == spec_option_label(
                    spec_option_effect(kind, row, choice),
                )
            },
{
    let r0 = [option_with_effect(option_effect(kind, 0, 0)), option_with_effect(option_effect(kind, 0, 1))];
    let r1 = [option_with_effect(option_effect(kind, 1, 0)), option_with_effect(option_effect(kind, 1, 1))];
    let r2 = [option_with_effect(option_effect(kind, 2, 0)), option_with_effect(option_effect(kind, 2, 1))];
    let r3 = [option_with_effect(option_effect(kind, 3, 0)), option_with_effect(option_effect(kind, 3, 1))];
    let r4 = [option_with_effect(option_effect(kind, 4, 0)), option_with_effect(option_effect(kind, 4, 1))];
    let r5 = [option_with_effect(option_effect(kind, 5, 0)), option_with_effect(option_effect(kind, 5, 1))];
    let path = WeaponUpgradePath { kind, levels: [r0, r1, r2, r3, r4, r5], evolution: evolution_for(kind) };
    proof {
        assert forall|row: int, choice: int| 0 <= row < 6 && 0 <= choice < 2 implies {
            &&& (#[trigger] path.levels@[row]@[choice]).effect == spec_option_effect(kind, row, choice)
            &&& path.levels@[row]@[choice].label@ == spec_option_label(spec_option_effect(kind, row, choice))
        } by {
            if row == 0 { assert(path.levels@[row] == r0); }
            else if row == 1 { assert(path.levels@[row] == r1); }
            else if row == 2 { assert(path.levels@[row] == r2); }
            else if row == 3 { assert(path.levels@[row] == r3); }
            else if row == 4 { assert(path.levels@[row] == r4); }
            else { assert(path.levels@[row] == r5); }
        }
    }
    path
}

/// The Level-8 Evolution of a path: a change of behavior, not of stats.
#[derive(Debug, Clone, Copy, PartialEq, Eq, Structural)]
pub enum Evolution {
    Whirlwind,
    Splitshot,
    BomberOrb,
}

/// The Evolution that ends the path of a kind.
pub open spec fn spec_evolution_for(kind: WeaponKind) -> Evolution {
    match kind {
        WeaponKind::MeleeSwing => Evolution::Whirlwind,
        WeaponKind::PiercingProjectile => Evolution::Splitshot,
        WeaponKind::OrbitingOrb => Evolution::BomberOrb,
    }
}

/// Each path's option table, row by row (row `r` is the level-up from
/// Level `r + 1`; each row offers option 0 and option 1).
pub proof fn law_upgrade_option_tables()
    ensures
        spec_option_effect(WeaponKind::MeleeSwing, 0, 0) == StatMod::AttackSpeed(15),
        spec_option_effect(WeaponKind::MeleeSwing, 0, 1) == StatMod::AdditionalWeapon,
        spec_option_effect(WeaponKind::MeleeSwing, 1, 0) == StatMod::Knockback(135),
        spec_option_effect(WeaponKind::MeleeSwing, 1, 1) == StatMod::Range(120),
        spec_option_effect(WeaponKind::MeleeSwing, 2, 0) == StatMod::AttackSpeed(15),
        spec_option_effect(WeaponKind::MeleeSwing, 2, 1) == StatMod::Knockback(135),
        spec_option_effect(WeaponKind::MeleeSwing, 3, 0) == StatMod::AdditionalWeapon,
        spec_option_effect(WeaponKind::MeleeSwing, 3, 1) == StatMod::Range(120),
        spec_option_effect(WeaponKind::MeleeSwing, 4, 0) == StatMod::AttackSpeed(15),
        spec_option_effect(WeaponKind::MeleeSwing, 4, 1) == StatMod::Knockback(135),
        spec_option_effect(WeaponKind::MeleeSwing, 5, 0) == StatMod::Range(120),
        spec_option_effect(WeaponKind::MeleeSwing, 5, 1) == StatMod::AttackSpeed(15),
        spec_option_effect(WeaponKind::PiercingProjectile, 0, 0) == StatMod::Range(115),
        spec_option_effect(WeaponKind::PiercingProjectile, 0, 1) == StatMod::AttackSpeed(15),
        spec_option_effect(WeaponKind::PiercingProjectile, 1, 0) == StatMod::ProjectileSpeed(120),
        spec_option_effect(WeaponKind::PiercingProjectile, 1, 1) == StatMod::AttackSpeed(15),
        spec_option_effect(WeaponKind::PiercingProjectile, 2, 0) == StatMod::Range(115),
        spec_option_effect(WeaponKind::PiercingProjectile, 2, 1) == StatMod::ProjectileSpeed(120),
        spec_option_effect(WeaponKind::PiercingProjectile, 3, 0) == StatMod::AttackSpeed(15),
        spec_option_effect(WeaponKind::PiercingProjectile, 3, 1) == StatMod::ProjectileSpeed(120),
        spec_option_effect(WeaponKind::PiercingProjectile, 4, 0) == StatMod::Range(115),
        spec_option_effect(WeaponKind::PiercingProjectile, 4, 1) == StatMod::AttackSpeed(15),
        spec_option_effect(WeaponKind::PiercingProjectile, 5, 0) == StatMod::ProjectileSpeed(120),
        spec_option_effect(WeaponKind::PiercingProjectile, 5, 1) == StatMod::Range(115),
        spec_option_effect(WeaponKind::OrbitingOrb, 0, 0) == StatMod::AdditionalOrb,
        spec_option_effect(WeaponKind::OrbitingOrb, 0, 1) == StatMod::OrbitSpeed(120),
        spec_option_effect(WeaponKind::OrbitingOrb, 1, 0) == StatMod::OrbSize(115),
        spec_option_effect(WeaponKind::OrbitingOrb, 1, 1) == StatMod::OrbitRadius(125),
        spec_option_effect(WeaponKind::OrbitingOrb, 2, 0) == StatMod::OrbitSpeed(120),
        spec_option_effect(WeaponKind::OrbitingOrb, 2, 1) == StatMod::OrbSize(115),
        spec_option_effect(WeaponKind::OrbitingOrb, 3, 0) == StatMod::AdditionalOrb,
        spec_option_effect(WeaponKind::OrbitingOrb, 3, 1) == StatMod::OrbitRadius(125),
        spec_option_effect(WeaponKind::OrbitingOrb, 4, 0) == StatMod::OrbitSpeed(120),
        spec_option_effect(WeaponKind::OrbitingOrb, 4, 1) == StatMod::OrbSize(115),
        spec_option_effect(WeaponKind::OrbitingOrb, 5, 0) == StatMod::OrbitRadius(125),
        spec_option_effect(WeaponKind::OrbitingOrb, 5, 1) == StatMod::OrbitSpeed(120),
{
}

/// Extra weapons are rare picks of their own path: an extra melee weapon is
/// offered exactly by option 1 at Level 1 and option 0 at Level 4 of the
/// melee path, an extra orb exactly by option 0 at Levels 1 and 4 of the orb
/// path, and the projectile path offers neither.
pub proof fn law_extra_weapons_come_from_two_picks()
    ensures
        forall|row: int, choice: int|
            0 <= row < 6 && 0 <= choice < 2 ==> ((#[trigger] spec_option_effect(WeaponKind::MeleeSwing, row, choice)
                == StatMod::AdditionalWeapon) <==> ((row == 0 && choice == 1) || (row == 3 && choice == 0))),
        forall|row: int, choice: int|
            0 <= row < 6 && 0 <= choice < 2 ==> ((#[trigger] spec_option_effect(WeaponKind::OrbitingOrb, row, choice)
                == StatMod::AdditionalOrb) <==> ((row == 0 || row == 3) && choice == 0)),
        forall|kind: WeaponKind, row: int, choice: int|
            #[trigger] spec_option_effect(kind, row, choice) == StatMod::AdditionalWeapon ==> kind
                == WeaponKind::MeleeSwing,
        forall|kind: WeaponKind, row: int, choice: int|
            #[trigger] spec_option_effect(kind, row, choice) == StatMod::AdditionalOrb ==> kind
                == WeaponKind::OrbitingOrb,
{
}

/// Every level-up is a real choice: the two options of a row always differ.
pub proof fn law_each_row_offers_two_different_options(kind: WeaponKind, row: int)
    requires
        0 <= row < 6,
    ensures
        spec_option_effect(kind, row, 0) != spec_option_effect(kind, row, 1),
{
}

/// Each kind evolves into its own Evolution: Melee Swing into Whirlwind,
/// Piercing Projectile into Splitshot, Orbiting Orb into Bomber Orb; no two
/// kinds share one.
pub proof fn law_each_kind_has_its_own_evolution()
    ensures
        spec_evolution_for(WeaponKind::MeleeSwing) == Evolution::Whirlwind,
        spec_evolution_for(WeaponKind::PiercingProjectile) == Evolution::Splitshot,
        spec_evolution_for(WeaponKind::OrbitingOrb) == Evolution::BomberOrb,
        forall|a: WeaponKind, b: WeaponKind|
            #[trigger] spec_evolution_for(a) == #[trigger] spec_evolution_for(b) ==> a == b,
{
}

/// What each option is called: the label names its effect (an extra melee
/// weapon, an extra orb, +15% attack speed, +35% knockback, +20% melee range
/// or +15% projectile range, +20% projectile or orbit speed, +15% orb size,
/// +25% orbit radius).
pub proof fn law_option_labels()
    ensures
        spec_option_label(StatMod::AdditionalWeapon) == "额外近战 +1"@,
        spec_option_label(StatMod::AdditionalOrb) == "额外环绕球 +1"@,
        spec_option_label(StatMod::AttackSpeed(15)) == "攻速 +15%"@,
        spec_option_label(StatMod::Knockback(135)) == "击退 +35%"@,
        spec_option_label(StatMod::Range(120)) == "范围 +20%"@,
        spec_option_label(StatMod::Range(115)) == "射程 +15%"@,
        spec_option_label(StatMod::ProjectileSpeed(120)) == "弹速 +20%"@,
        spec_option_label(StatMod::OrbitSpeed(120)) == "转速 +20%"@,
        spec_option_label(StatMod::OrbSize(115)) == "球体 +15%"@,
        spec_option_label(StatMod::OrbitRadius(125)) == "半径 +25%"@,
{
}

/// The Evolution that ends the path of `kind`.
pub fn evolution_for(kind: WeaponKind) -> (e: Evolution)
    ensures
        e == spec_evolution_for(kind),
{
    match kind {
        WeaponKind::MeleeSwing => Evolution::Whirlwind,
        WeaponKind::PiercingProjectile => Evolution::Splitshot,
        WeaponKind::OrbitingOrb => Evolution::BomberOrb,
    }
}

impl Evolution {
    /// Display name shown in the upgrade interface.
    pub fn name(self) -> (name: &'static str)
        ensures
            name@ == match self {
                Evolution::Whirlwind => "旋风刃"@,
                Evolution::Splitshot => "散裂弹"@,
                Evolution::BomberOrb => "自爆卫星"@,
            },
    {
        match self {
            Evolution::Whirlwind => "旋风刃",
            Evolution::Splitshot => "散裂弹",
            Evolution::BomberOrb => "自爆卫星",
        }
    }

    /// Description of the behavior change.
    pub fn description(self) -> (text: &'static str)
        ensures
            text@ == match self {
                Evolution::Whirlwind => "刀刃持续环绕自身旋转，全方位连续命中，移动不打断攻击"@,
                Evolution::Splitshot => "首次命中后分裂为 3 枚短程扇形弹片（50% 伤害）"@,
                Evolution::BomberOrb => "球体接触敌人时爆炸（小范围伤害），0.6 秒后重生"@,
            },
    {
        match self {
            Evolution::Whirlwind => "刀刃持续环绕自身旋转，全方位连续命中，移动不打断攻击",
            Evolution::Splitshot => "首次命中后分裂为 3 枚短程扇形弹片（50% 伤害）",
            Evolution::BomberOrb => "球体接触敌人时爆炸（小范围伤害），0.6 秒后重生",
        }
    }
}

} // verus!

verus! {

/// Per-kind upgrade level (1 through 8), shared by every weapon of a kind.
pub struct WeaponLevels {
    levels: [u8; 3],
}

impl WeaponLevels {
    #[verifier::type_invariant]
    spec fn levels_in_range(self) -> bool {
        forall|i: int| 0 <= i < 3 ==> 1 <= #[trigger] self.levels@[i] <= MAX_WEAPON_LEVEL
    }

    /// The level of `kind`.
    pub closed spec fn spec_level(&self, kind: WeaponKind) -> u8 {
        self.levels@[crate::weapon::kind_index(kind)]
    }

    /// Every path at Level 1, as at the start of a Run.
    pub fn new() -> (levels: WeaponLevels)
        ensures
            forall|k: WeaponKind| #[trigger] levels.spec_level(k) == 1,
    {
        WeaponLevels { levels: [1, 1, 1] }
    }

    /// The level of `kind` (1 through 8).
    pub fn level(&self, kind: WeaponKind) -> (l: u8)
        ensures
            l == self.spec_level(kind),
            1 <= l <= MAX_WEAPON_LEVEL,
    {
        proof {
            use_type_invariant(self);
        }
        self.levels[kind.index()]
    }

    /// Write a level directly, clamped into 1 through 8.
    pub fn set_level(&mut self, kind: WeaponKind, level: u8)
        ensures
            final(self).spec_level(kind) == (if level < 1 {
                1
            } else if level > MAX_WEAPON_LEVEL {
                MAX_WEAPON_LEVEL
            } else {
                level
            }),
            forall|k: WeaponKind| k != kind ==> #[trigger] final(self).spec_level(k) == old(self).spec_level(k),
    {
        proof {
            use_type_invariant(&*self);
        }
        let clamped = if level < 1 {
            1
        } else if level > MAX_WEAPON_LEVEL {
            MAX_WEAPON_LEVEL
        } else {
            level
        };
        let i = kind.index();
        let mut levels = self.levels;
        levels[i] = clamped;
        *self = WeaponLevels { levels };
        proof {
            assert forall|k: WeaponKind| k != kind implies #[trigger] self.spec_level(k) == old(self).spec_level(k) by {
                assert(crate::weapon::kind_index(k) != crate::weapon::kind_index(kind));
            }
        }
    }

    /// Whether `kind` has reached Level 8.
    pub fn maxed(&self, kind: WeaponKind) -> (m: bool)
        ensures
            m == (self.spec_level(kind) >= MAX_WEAPON_LEVEL),
    {
        self.level(kind) >= MAX_WEAPON_LEVEL
    }
}

/// The player picked option `option` (0 or 1; ignored for the Evolution) for
/// the path of `kind`.
#[derive(Debug, Clone, Copy, PartialEq, Eq, Structural)]
pub struct UpgradeSelected {
    pub kind: WeaponKind,
    pub option: usize,
}

/// Marker of a weapon that reached Level 8 and changed behavior.
#[derive(Debug, Clone, Copy, PartialEq, Eq, Structural)]
pub struct Evolved;

} // verus!

verus! {

/// Whether some equipped weapon is of `kind`.
pub open spec fn has_kind(ws: Seq<EquippedWeapon>, kind: WeaponKind) -> bool {
    exists|i: int| 0 <= i < ws.len() && (#[trigger] ws[i]).kind == kind
}

/// Whether some equipped weapon sits on slot id `s`.
pub open spec fn slot_used(ws: Seq<EquippedWeapon>, s: int) -> bool {
    exists|i: int| 0 <= i < ws.len() && (#[trigger] ws[i]).slot.0 == s
}

/// The slots of the weapons of `kind` on slot id `v`, in equipment order.
pub open spec fn slots_at(ws: Seq<EquippedWeapon>, kind: WeaponKind, v: int) -> Seq<WeaponSlot>
    decreases ws.len(),
{
    if ws.len() == 0 {
        Seq::empty()
    } else {
        slots_at(ws.drop_last(), kind, v) + if ws.last().kind == kind && ws.last().slot.0 == v {
            seq![ws.last().slot]
        } else {
            Seq::empty()
        }
    }
}

/// The slots of the weapons of `kind` with a slot id below `bound`, in
/// ascending slot order.
pub open spec fn slots_below(ws: Seq<EquippedWeapon>, kind: WeaponKind, bound: int) -> Seq<WeaponSlot>
    decreases bound,
{
    if bound <= 0 {
        Seq::empty()
    } else {
        slots_below(ws, kind, bound - 1) + slots_at(ws, kind, bound - 1)
    }
}

/// The slots of every weapon of `kind`, in ascending slot order.
pub open spec fn sorted_slots_of(ws: Seq<EquippedWeapon>, kind: WeaponKind) -> Seq<WeaponSlot> {
    slots_below(ws, kind, 256)
}

/// The lowest slot id from `c` up to (not including) the slot limit that no
/// equipped weapon uses.
pub open spec fn first_free_from(ws: Seq<EquippedWeapon>, c: int) -> Option<WeaponSlot>
    decreases 6 - c,
{
    if c >= 6 || c < 0 {
        None
    } else if !slot_used(ws, c) {
        Some(WeaponSlot(c as u8))
    } else {
        first_free_from(ws, c + 1)
    }
}

/// Whether taking `option` at `level` adds a weapon slot (the extra melee
/// weapon).
pub open spec fn adds_slot(kind: WeaponKind, level: u8, option: usize) -> bool {
    &&& kind == WeaponKind::MeleeSwing
    &&& spec_option_effect(kind, level - 1, option as int) == StatMod::AdditionalWeapon
}

/// Whether a pick is taken, given the level of its kind before the pick: the
/// path is not maxed, the option exists (any option is the Evolution at
/// Level 7), a weapon of the kind is equipped, and an extra weapon has a
/// player to join and a free slot.
pub open spec fn pick_accepted(
    level: u8,
    ws: Seq<EquippedWeapon>,
    request: UpgradeSelected,
    player_present: bool,
) -> bool {
    &&& level < MAX_WEAPON_LEVEL
    &&& (level >= 7 || request.option <= 1)
    &&& has_kind(ws, request.kind)
    &&& (level >= 7 || !adds_slot(request.kind, level, request.option) || (player_present
        && first_free_from(ws, 0) is Some))
}

/// What a taken pick does to the weapons.
#[derive(Debug)]
pub enum UpgradeEffect {
    /// `effect` applies to every weapon of `kind`. When the pick adds a melee
    /// weapon, `new_slot` is its slot and `phased` lists the existing melee
    /// slots in ascending order: the i-th of n restarts its cooldown at i/(n+1)
    /// of a cycle and the newcomer at n/(n+1), so no two swing together.
    Stat { kind: WeaponKind, effect: StatMod, new_slot: Option<WeaponSlot>, phased: Vec<WeaponSlot> },
    /// Every weapon of `kind` evolves. Melee weapons merge into one: `keep`
    /// is the lowest melee slot and `merged_away` the others, ascending; the
    /// kept weapon pools their damage and the damage history moves onto it.
    Evolve { kind: WeaponKind, keep: Option<WeaponSlot>, merged_away: Vec<WeaponSlot> },
}

/// `e` is what the pick `request` does at `level` with weapons `ws`.
pub open spec fn effect_of_pick(
    e: UpgradeEffect,
    level: u8,
    ws: Seq<EquippedWeapon>,
    request: UpgradeSelected,
) -> bool {
    match e {
        UpgradeEffect::Stat { kind, effect, new_slot, phased } => {
            &&& level < 7
            &&& kind == request.kind
            &&& effect == spec_option_effect(kind, level - 1, request.option as int)
            &&& if adds_slot(kind, level, request.option) {
                &&& new_slot == first_free_from(ws, 0)
                &&& phased@ == sorted_slots_of(ws, WeaponKind::MeleeSwing)
            } else {
                &&& new_slot is None
                &&& phased@.len() == 0
            }
        },
        UpgradeEffect::Evolve { kind, keep, merged_away } => {
            &&& level == 7
            &&& kind == request.kind
            &&& if kind == WeaponKind::MeleeSwing {
                &&& keep == Some(sorted_slots_of(ws, kind)[0])
                &&& merged_away@ == sorted_slots_of(ws, kind).drop_first()
            } else {
                &&& keep is None
                &&& merged_away@.len() == 0
            }
        },
    }
}

proof fn lemma_slots_at_members(ws: Seq<EquippedWeapon>, kind: WeaponKind, v: int)
    ensures
        forall|j: int| #![trigger slots_at(ws, kind, v)[j]] 0 <= j < slots_at(ws, kind, v).len() ==> exists|i: int|
            0 <= i < ws.len() && (#[trigger] ws[i]).kind == kind && ws[i].slot == slots_at(ws, kind, v)[j]
                && ws[i].slot.0 == v,
    decreases ws.len(),
{
    if ws.len() > 0 {
        let pre = ws.drop_last();
        lemma_slots_at_members(pre, kind, v);
        let out = slots_at(ws, kind, v);
        assert forall|j: int| #![trigger out[j]] 0 <= j < out.len() implies exists|i: int|
            0 <= i < ws.len() && (#[trigger] ws[i]).kind == kind && ws[i].slot == out[j] && ws[i].slot.0 == v by {
            if j < slots_at(pre, kind, v).len() {
                let i = choose|i: int|
                    0 <= i < pre.len() && (#[trigger] pre[i]).kind == kind && pre[i].slot == slots_at(pre, kind, v)[j]
                        && pre[i].slot.0 == v;
                assert(ws[i] == pre[i]);
            } else {
                assert(ws[ws.len() - 1] == ws.last());
            }
        }
    }
}

proof fn lemma_slots_below_members(ws: Seq<EquippedWeapon>, kind: WeaponKind, bound: int)
    ensures
        forall|j: int| #![trigger slots_below(ws, kind, bound)[j]] 0 <= j < slots_below(ws, kind, bound).len() ==> exists|i: int|
            0 <= i < ws.len() && (#[trigger] ws[i]).kind == kind && ws[i].slot == slots_below(ws, kind, bound)[j],
    decreases bound,
{
    if bound > 0 {
        lemma_slots_below_members(ws, kind, bound - 1);
        lemma_slots_at_members(ws, kind, bound - 1);
        let a = slots_below(ws, kind, bound - 1);
        let b = slots_at(ws, kind, bound - 1);
        let out = slots_below(ws, kind, bound);
        assert forall|j: int| #![trigger out[j]] 0 <= j < out.len() implies exists|i: int|
            0 <= i < ws.len() && (#[trigger] ws[i]).kind == kind && ws[i].slot == out[j] by {
            if j < a.len() {
                assert(out[j] == a[j]);
            } else {
                assert(out[j] == b[j - a.len()]);
            }
        }
    }
}

/// Every slot the sorted list names belongs to an equipped weapon of the
/// kind; in particular the melee Evolution's kept slot is a melee weapon's.
pub proof fn law_sorted_slots_are_equipped(ws: Seq<EquippedWeapon>, kind: WeaponKind)
    ensures
        forall|j: int| #![trigger sorted_slots_of(ws, kind)[j]] 0 <= j < sorted_slots_of(ws, kind).len() ==> exists|i: int|
            0 <= i < ws.len() && (#[trigger] ws[i]).kind == kind && ws[i].slot == sorted_slots_of(ws, kind)[j],
        has_kind(ws, kind) ==> sorted_slots_of(ws, kind).len() >= 1,
{
    lemma_slots_below_members(ws, kind, 256);
    let sorted = sorted_slots_of(ws, kind);
    assert forall|j: int| #![trigger sorted[j]] 0 <= j < sorted.len() implies exists|i: int|
        0 <= i < ws.len() && (#[trigger] ws[i]).kind == kind && ws[i].slot == sorted[j] by {
        assert(sorted[j] == slots_below(ws, kind, 256)[j]);
    }
    if has_kind(ws, kind) {
        lemma_sorted_nonempty(ws, kind);
    }
}

proof fn lemma_slots_at_has(ws: Seq<EquippedWeapon>, kind: WeaponKind, i: int)
    requires
        0 <= i < ws.len(),
        ws[i].kind == kind,
    ensures
        slots_at(ws, kind, ws[i].slot.0 as int).len() >= 1,
    decreases ws.len(),
{
    if i < ws.len() - 1 {
        lemma_slots_at_has(ws.drop_last(), kind, i);
        assert(ws.drop_last()[i] == ws[i]);
    }
}

proof fn lemma_slots_below_grows(ws: Seq<EquippedWeapon>, kind: WeaponKind, a: int, b: int)
    requires
        0 <= a <= b,
    ensures
        slots_below(ws, kind, a).len() <= slots_below(ws, kind, b).len(),
    decreases b,
{
    if a < b {
        lemma_slots_below_grows(ws, kind, a, b - 1);
    }
}

proof fn lemma_sorted_nonempty(ws: Seq<EquippedWeapon>, kind: WeaponKind)
    requires
        has_kind(ws, kind),
    ensures
        sorted_slots_of(ws, kind).len() >= 1,
{
    let i = choose|i: int| 0 <= i < ws.len() && (#[trigger] ws[i]).kind == kind;
    let v = ws[i].slot.0 as int;
    lemma_slots_at_has(ws, kind, i);
    lemma_slots_below_grows(ws, kind, v + 1, 256);
    assert(slots_below(ws, kind, v + 1) == slots_below(ws, kind, v) + slots_at(ws, kind, v));
}

/// Whether some equipped weapon is of `kind`.
pub fn any_of_kind(ws: &Vec<EquippedWeapon>, kind: WeaponKind) -> (b: bool)
    ensures
        b == has_kind(ws@, kind),
{
    let mut i: usize = 0;
    while i < ws.len()
        invariant
            i <= ws@.len(),
            forall|j: int| 0 <= j < i ==> ws@[j].kind != kind,
        decreases ws@.len() - i,
    {
        if ws[i].kind == kind {
            return true;
        }
        i += 1;
    }
    false
}

/// The lowest unused slot id below the slot limit, if any.
pub fn first_free_slot(ws: &Vec<EquippedWeapon>) -> (s: Option<WeaponSlot>)
    ensures
        s == first_free_from(ws@, 0),
{
    let mut c: usize = MAX_WEAPON_SLOTS;
    let mut found: Option<WeaponSlot> = None;
    while c > 0
        invariant
            c <= 6,
            found == first_free_from(ws@, c as int),
        decreases c,
    {
        c -= 1;
        let mut used = false;
        let mut i: usize = 0;
        while i < ws.len()
            invariant
                i <= ws@.len(),
                c < 6,
                used == exists|j: int| 0 <= j < i && (#[trigger] ws@[j]).slot.0 == c,
            decreases ws@.len() - i,
        {
            if ws[i].slot.0 as usize == c {
                used = true;
            }
            i += 1;
        }
        if !used {
            found = Some(WeaponSlot(c as u8));
        }
    }
    found
}

/// The slots of every weapon of `kind`, in ascending slot order.
pub fn slots_of_kind(ws: &Vec<EquippedWeapon>, kind: WeaponKind) -> (out: Vec<WeaponSlot>)
    ensures
        out@ == sorted_slots_of(ws@, kind),
{
    let mut out: Vec<WeaponSlot> = Vec::new();
    let mut v: usize = 0;
    while v < 256
        invariant
            v <= 256,
            out@ == slots_below(ws@, kind, v as int),
        decreases 256 - v,
    {
        let mut j: usize = 0;
        while j < ws.len()
            invariant
                j <= ws@.len(),
                v < 256,
                out@ == slots_below(ws@, kind, v as int) + slots_at(ws@.take(j as int), kind, v as int),
            decreases ws@.len() - j,
        {
            proof {
                assert(ws@.take(j + 1).drop_last() =~= ws@.take(j as int));
            }
            let w = ws[j];
            if w.kind == kind && w.slot.0 as usize == v {
                out.push(w.slot);
                proof {
                    assert(out@ =~= slots_below(ws@, kind, v as int) + slots_at(ws@.take(j + 1), kind, v as int));
                }
            } else {
                proof {
                    assert(slots_at(ws@.take(j + 1), kind, v as int) =~= slots_at(ws@.take(j as int), kind, v as int));
                }
            }
            j += 1;
        }
        proof {
            assert(ws@.take(ws@.len() as int) =~= ws@);
        }
        v += 1;
    }
    out
}

/// What the pick `request` does, or `None` when it is ignored. `levels` are
/// the levels before the pick.
pub fn decide_upgrade(
    levels: &WeaponLevels,
    ws: &Vec<EquippedWeapon>,
    request: UpgradeSelected,
    player_present: bool,
) -> (r: Option<UpgradeEffect>)
    ensures
        r is Some <==> pick_accepted(levels.spec_level(request.kind), ws@, request, player_present),
        r matches Some(e) ==> effect_of_pick(e, levels.spec_level(request.kind), ws@, request),
{
    let kind = request.kind;
    let level = levels.level(kind);
    if level >= MAX_WEAPON_LEVEL {
        return None;
    }
    if level < 7 && request.option > 1 {
        return None;
    }
    if !any_of_kind(ws, kind) {
        return None;
    }
    if level == 7 {
        if kind == WeaponKind::MeleeSwing {
            let sorted = slots_of_kind(ws, kind);
            proof {
                lemma_sorted_nonempty(ws@, kind);
            }
            let keep = sorted[0];
            let mut merged_away: Vec<WeaponSlot> = Vec::new();
            let mut i: usize = 1;
            while i < sorted.len()
                invariant
                    1 <= i <= sorted@.len(),
                    merged_away@ == sorted@.subrange(1, i as int),
                decreases sorted@.len() - i,
            {
                merged_away.push(sorted[i]);
                proof {
                    assert(merged_away@ =~= sorted@.subrange(1, i + 1));
                }
                i += 1;
            }
            proof {
                assert(merged_away@ =~= sorted@.drop_first());
            }
            Some(UpgradeEffect::Evolve { kind, keep: Some(keep), merged_away })
        } else {
            Some(UpgradeEffect::Evolve { kind, keep: None, merged_away: Vec::new() })
        }
    } else {
        let effect = option_effect(kind, (level - 1) as usize, request.option);
        if kind == WeaponKind::MeleeSwing && effect == StatMod::AdditionalWeapon {
            if !player_present {
                return None;
            }
            let slot = first_free_slot(ws);
            if slot.is_none() {
                return None;
            }
            let phased = slots_of_kind(ws, WeaponKind::MeleeSwing);
            Some(UpgradeEffect::Stat { kind, effect, new_slot: slot, phased })
        } else {
            Some(UpgradeEffect::Stat { kind, effect, new_slot: None, phased: Vec::new() })
        }
    }
}

/// Take the first acceptable pick among `requests` (exactly one choice per
/// wave): its kind advances one level and its effect is returned. Later
/// requests are ignored; when none is acceptable nothing changes.
pub fn apply_upgrade_requests(
    levels: &mut WeaponLevels,
    ws: &Vec<EquippedWeapon>,
    requests: &Vec<UpgradeSelected>,
    player_present: bool,
) -> (r: Option<UpgradeEffect>)
    ensures
        r is None <==> forall|i: int|
            0 <= i < requests@.len() ==> !pick_accepted(
                old(levels).spec_level((#[trigger] requests@[i]).kind),
                ws@,
                requests@[i],
                player_present,
            ),
        r is None ==> forall|k: WeaponKind| #[trigger] final(levels).spec_level(k) == old(levels).spec_level(k),
        r matches Some(e) ==> exists|i: int|
            0 <= i < requests@.len() && pick_accepted(
                old(levels).spec_level((#[trigger] requests@[i]).kind),
                ws@,
                requests@[i],
                player_present,
            ) && (forall|j: int|
                0 <= j < i ==> !pick_accepted(
                    old(levels).spec_level((#[trigger] requests@[j]).kind),
                    ws@,
                    requests@[j],
                    player_present,
                )) && effect_of_pick(e, old(levels).spec_level(requests@[i].kind), ws@, requests@[i])
                && final(levels).spec_level(requests@[i].kind) == old(levels).spec_level(
                requests@[i].kind,
            ) + 1 && forall|k: WeaponKind|
                k != requests@[i].kind ==> #[trigger] final(levels).spec_level(k) == old(
                    levels,
                ).spec_level(k),
{
    let mut i: usize = 0;
    while i < requests.len()
        invariant
            i <= requests@.len(),
            forall|k: WeaponKind| #[trigger] levels.spec_level(k) == old(levels).spec_level(k),
            forall|j: int|
                0 <= j < i ==> !pick_accepted(
                    old(levels).spec_level((#[trigger] requests@[j]).kind),
                    ws@,
                    requests@[j],
                    player_present,
                ),
        decreases requests@.len() - i,
    {
        let request = requests[i];
        let decision = decide_upgrade(levels, ws, request, player_present);
        if decision.is_some() {
            let level = levels.level(request.kind);
            levels.set_level(request.kind, level + 1);
            return decision;
        }
        i += 1;
    }
    None
}

/// Whether every equipped kind is at Level 8, so the mandatory pick has
/// nothing left to offer (false when nothing is equipped).
pub fn all_equipped_maxed(levels: &WeaponLevels, ws: &Vec<EquippedWeapon>) -> (b: bool)
    ensures
        b == (ws@.len() > 0 && forall|i: int|
            0 <= i < ws@.len() ==> levels.spec_level((#[trigger] ws@[i]).kind) >= MAX_WEAPON_LEVEL),
{
    if ws.len() == 0 {
        return false;
    }
    let mut i: usize = 0;
    while i < ws.len()
        invariant
            i <= ws@.len(),
            forall|j: int| 0 <= j < i ==> levels.spec_level((#[trigger] ws@[j]).kind) >= MAX_WEAPON_LEVEL,
        decreases ws@.len() - i,
    {
        if !levels.maxed(ws[i].kind) {
            return false;
        }
        i += 1;
    }
    true
}


/// What the upgrade screen offers a path at a level.
#[derive(Debug, Clone, Copy, PartialEq, Eq, Structural)]
pub enum UpgradeOffer {
    /// The two options of row `row` of the path.
    Options { row: usize },
    /// The single Evolution pick.
    Evolution,
    /// Nothing: the path is complete.
    Maxed,
}

/// The offer at `level`: the two options of the next level-up below Level 7,
/// the Evolution at Level 7, nothing at Level 8.
pub open spec fn spec_upgrade_offer(level: u8) -> UpgradeOffer {
    if level >= MAX_WEAPON_LEVEL {
        UpgradeOffer::Maxed
    } else if level >= 7 {
        UpgradeOffer::Evolution
    } else if level <= 1 {
        UpgradeOffer::Options { row: 0 }
    } else {
        UpgradeOffer::Options { row: (level - 1) as usize }
    }
}

/// What the upgrade screen offers for a path at `level`.
pub fn upgrade_offer(level: u8) -> (o: UpgradeOffer)
    ensures
        o == spec_upgrade_offer(level),
{
    if level >= MAX_WEAPON_LEVEL {
        UpgradeOffer::Maxed
    } else if level >= 7 {
        UpgradeOffer::Evolution
    } else if level <= 1 {
        UpgradeOffer::Options { row: 0 }
    } else {
        UpgradeOffer::Options { row: (level - 1) as usize }
    }
}

/// The screen offers exactly what the rules take: for an equipped kind, each
/// offered button (an option of the offered row, or the Evolution pick) is
/// accepted, unless it adds a melee weapon while every slot is in use; a
/// completed path offers nothing and accepts nothing. An offered option's
/// effect is the option of the row for the current level.
pub proof fn law_offered_picks_are_accepted(level: u8, ws: Seq<EquippedWeapon>, kind: WeaponKind, option: usize)
    requires
        1 <= level <= MAX_WEAPON_LEVEL,
        has_kind(ws, kind),
        spec_upgrade_offer(level) is Options ==> option <= 1,
        spec_upgrade_offer(level) is Evolution ==> option == 0,
    ensures
        spec_upgrade_offer(level) is Maxed ==> !pick_accepted(level, ws, UpgradeSelected { kind, option }, true),
        spec_upgrade_offer(level) is Evolution ==> pick_accepted(level, ws, UpgradeSelected { kind, option }, true),
        spec_upgrade_offer(level) matches UpgradeOffer::Options { row } ==> {
            &&& row == level - 1
            &&& (pick_accepted(level, ws, UpgradeSelected { kind, option }, true) <==> (!adds_slot(
                kind,
                level,
                option,
            ) || first_free_from(ws, 0) is Some))
        },
{
}

/// Sum of some damages (tenths).
pub open spec fn sum_damage(ds: Seq<i64>) -> int
    decreases ds.len(),
{
    if ds.len() == 0 {
        0
    } else {
        sum_damage(ds.drop_last()) + ds.last()
    }
}

proof fn lemma_sum_damage_bounds(ds: Seq<i64>)
    requires
        forall|i: int| 0 <= i < ds.len() ==> 0 <= #[trigger] ds[i] <= HP_LIMIT,
    ensures
        0 <= sum_damage(ds) <= ds.len() * HP_LIMIT,
    decreases ds.len(),
{
    if ds.len() > 0 {
        lemma_sum_damage_bounds(ds.drop_last());
    }
}

/// The damage of the merged Whirlwind blade: every melee weapon's damage
/// (tenths) pooled into one.
pub fn pooled_damage(damages: &Vec<i64>) -> (total: i64)
    requires
        damages@.len() <= MAX_WEAPON_SLOTS,
        forall|i: int| 0 <= i < damages@.len() ==> 0 <= #[trigger] damages@[i] <= HP_LIMIT,
    ensures
        total == sum_damage(damages@),
{
    let mut total: i64 = 0;
    let mut i: usize = 0;
    while i < damages.len()
        invariant
            i <= damages@.len() <= MAX_WEAPON_SLOTS,
            forall|j: int| 0 <= j < damages@.len() ==> 0 <= #[trigger] damages@[j] <= HP_LIMIT,
            total == sum_damage(damages@.take(i as int)),
        decreases damages@.len() - i,
    {
        proof {
            assert(damages@.take(i + 1).drop_last() =~= damages@.take(i as int));
            lemma_sum_damage_bounds(damages@.take(i as int));
        }
        total = total + damages[i];
        i += 1;
    }
    proof {
        assert(damages@.take(damages@.len() as int) =~= damages@);
    }
    total
}

} // verus!
