//! The decisions of the scripted player used by headless scenarios: which
//! upgrade to pick and what to buy. Movement lives with positions, outside
//! the rules.

use vstd::prelude::*;

use crate::intent::PurchaseRequest;
use crate::upgrade::{UpgradeSelected, WeaponLevels, MAX_WEAPON_LEVEL};
use crate::weapon::{StartingWeapon, WeaponKind};

verus! {

/// A deterministic build: the weapon to start with, the option to take at
/// each of the first four level-ups, and whether to shop.
#[derive(Debug, Clone, Copy)]
pub struct AiBuild {
    pub weapon: WeaponKind,
    pub upgrade_options: [usize; 4],
    pub buy_items: bool,
}

impl AiBuild {
    /// The default build: the piercing projectile, always option A, shopping.
    pub fn new() -> (b: AiBuild)
        ensures
            b.weapon == WeaponKind::PiercingProjectile,
            forall|i: int| 0 <= i < 4 ==> b.upgrade_options@[i] == 0,
            b.buy_items,
    {
        AiBuild { weapon: WeaponKind::PiercingProjectile, upgrade_options: [0, 0, 0, 0], buy_items: true }
    }
}

/// The mandatory wave-end pick: while the starting weapon's path is not
/// maxed, take the build's option for the first four level-ups and option A
/// afterwards.
pub fn ai_upgrade(levels: &WeaponLevels, build: &AiBuild, starting: &StartingWeapon) -> (pick: Option<UpgradeSelected>)
    ensures
        match starting.selected {
            None => pick is None,
            Some(kind) => if levels.spec_level(kind) >= MAX_WEAPON_LEVEL {
                pick is None
            } else {
                pick == Some(UpgradeSelected {
                    kind,
                    option: if levels.spec_level(kind) < 5 {
                        build.upgrade_options@[levels.spec_level(kind) - 1]
                    } else {
                        0
                    },
                })
            },
        },
{
    let kind = match starting.selected {
        Some(kind) => kind,
        None => {
            return None;
        },
    };
    if levels.maxed(kind) {
        return None;
    }
    let level = levels.level(kind);
    let option = if level < 5 {
        build.upgrade_options[(level - 1) as usize]
    } else {
        0
    };
    Some(UpgradeSelected { kind, option })
}

/// Each shop visit, ask for every item in order of preference (max HP,
/// damage, speed); the shop takes whatever is affordable.
pub fn ai_purchases(build: &AiBuild) -> (requests: Vec<PurchaseRequest>)
    ensures
        !build.buy_items ==> requests@.len() == 0,
        build.buy_items ==> requests@ == seq![
            PurchaseRequest { item_index: 2 },
            PurchaseRequest { item_index: 0 },
            PurchaseRequest { item_index: 1 },
        ],
{
    let mut requests: Vec<PurchaseRequest> = Vec::new();
    if build.buy_items {
        requests.push(PurchaseRequest { item_index: 2 });
        requests.push(PurchaseRequest { item_index: 0 });
        requests.push(PurchaseRequest { item_index: 1 });
    }
    requests
}

} // verus!
