//! The shop: catalog, purchase validation, and stat application.

use vstd::prelude::*;

use crate::economy::Materials;
use crate::intent::PurchaseRequest;
use crate::player::{Health, PlayerStats, BASE_MAX_HP, HP_LIMIT};

verus! {

/// Number of items in the catalog.
pub const SHOP_ITEM_COUNT: usize = 4;

/// Largest max-HP boost a single item grants, in tenths.
pub const MAX_ITEM_HP_BOOST: i64 = 250;

/// What an item does to the Player: a pure stat gain.
#[derive(Debug, Clone, Copy, PartialEq, Eq, Structural)]
pub enum ItemEffect {
    /// Percentage points added to the damage multiplier.
    DamagePct(u64),
    /// Percentage points added to the speed multiplier.
    SpeedPct(u64),
    /// Tenths of a point added to max HP.
    MaxHp(i64),
    /// World units added to the attraction radius.
    AttractionRadius(u64),
}

/// How far the magnet item extends the attraction radius (26 to 50).
pub const MAGNET_RADIUS_BOOST: u64 = 24;

/// One purchasable item offered in the shop.
#[derive(Debug, Clone, Copy)]
pub struct ShopItem {
    pub name: &'static str,
    pub cost: u32,
    pub effect: ItemEffect,
}

/// A purchase succeeded.
#[derive(Debug, Clone, Copy, PartialEq, Eq, Structural)]
pub struct ItemPurchased {
    pub item_index: usize,
    pub cost: u32,
}

/// Cost of catalog item `i`.
pub open spec fn spec_item_cost(i: int) -> u32 {
    if i == 0 {
        15
    } else if i == 1 {
        12
    } else if i == 2 {
        20
    } else {
        18
    }
}

/// Effect of catalog item `i`.
pub open spec fn spec_item_effect(i: int) -> ItemEffect {
    if i == 0 {
        ItemEffect::DamagePct(20)
    } else if i == 1 {
        ItemEffect::SpeedPct(15)
    } else if i == 2 {
        ItemEffect::MaxHp(MAX_ITEM_HP_BOOST)
    } else {
        ItemEffect::AttractionRadius(MAGNET_RADIUS_BOOST)
    }
}

/// Name of catalog item `i`.
pub open spec fn spec_item_name(i: int) -> Seq<char> {
    if i == 0 {
        "磨砺之刃（伤害 +20%）"@
    } else if i == 1 {
        "肾上腺（速度 +15%）"@
    } else if i == 2 {
        "泰坦之心（最大生命 +25）"@
    } else {
        "磁力臂 Magnet Arm（吸引半径 +24）"@
    }
}

/// `a + b`, held at `u64::MAX` instead of wrapping.
pub open spec fn sat_add_u64(a: u64, b: u64) -> u64 {
    if a + b > u64::MAX {
        u64::MAX
    } else {
        (a + b) as u64
    }
}

/// The stats after an item's effect.
pub open spec fn boosted_stats(stats: PlayerStats, effect: ItemEffect) -> PlayerStats {
    match effect {
        ItemEffect::DamagePct(p) => PlayerStats { damage_pct: sat_add_u64(stats.damage_pct, p), ..stats },
        ItemEffect::SpeedPct(p) => PlayerStats { speed_pct: sat_add_u64(stats.speed_pct, p), ..stats },
        ItemEffect::MaxHp(h) => PlayerStats { max_hp_bonus: (stats.max_hp_bonus + h) as i64, ..stats },
        ItemEffect::AttractionRadius(r) => PlayerStats {
            attraction_radius: sat_add_u64(stats.attraction_radius, r),
            ..stats
        },
    }
}

/// The Player's health once the stats carry `stats.max_hp_bonus`: with a
/// bonus, max HP becomes the base plus the bonus, and current HP rises by as
/// much as max HP rose (it never exceeds the new max).
pub open spec fn health_for_stats(health: Health, stats: PlayerStats) -> Health {
    if stats.max_hp_bonus > 0 {
        let new_max = BASE_MAX_HP + stats.max_hp_bonus;
        let rise = if new_max > health.max { new_max - health.max } else { 0 };
        let raised = health.current + rise;
        Health { max: new_max as i64, current: (if raised < new_max { raised } else { new_max }) as i64 }
    } else {
        health
    }
}

/// The magnet item extends the attraction radius by its boost (held at the
/// largest representable radius), and changes no other stat.
pub proof fn law_magnet_extends_the_attraction_radius(stats: PlayerStats)
    requires
        stats.attraction_radius + MAGNET_RADIUS_BOOST <= u64::MAX,
    ensures
        boosted_stats(stats, spec_item_effect(3)) == (PlayerStats {
            attraction_radius: (stats.attraction_radius + MAGNET_RADIUS_BOOST) as u64,
            ..stats
        }),
{
}

/// An item raises its own stat by its amount and leaves the others alone:
/// a damage or speed item adds its percentage points to that multiplier, a
/// max-HP item adds its tenths to the bonus, a magnet item adds its units to
/// the attraction radius. No item ever lowers a stat (amounts are held at
/// the largest representable value rather than wrapping).
pub proof fn law_items_raise_their_own_stat(stats: PlayerStats, effect: ItemEffect)
    requires
        effect matches ItemEffect::MaxHp(h) ==> 0 <= h && stats.max_hp_bonus + h <= i64::MAX,
    ensures
        ({
            let b = boosted_stats(stats, effect);
            match effect {
                ItemEffect::DamagePct(p) => {
                    &&& b.damage_pct >= stats.damage_pct
                    &&& stats.damage_pct + p <= u64::MAX ==> b.damage_pct == stats.damage_pct + p
                    &&& b.speed_pct == stats.speed_pct
                    &&& b.max_hp_bonus == stats.max_hp_bonus
                    &&& b.attraction_radius == stats.attraction_radius
                },
                ItemEffect::SpeedPct(p) => {
                    &&& b.speed_pct >= stats.speed_pct
                    &&& stats.speed_pct + p <= u64::MAX ==> b.speed_pct == stats.speed_pct + p
                    &&& b.damage_pct == stats.damage_pct
                    &&& b.max_hp_bonus == stats.max_hp_bonus
                    &&& b.attraction_radius == stats.attraction_radius
                },
                ItemEffect::MaxHp(h) => {
                    &&& b.max_hp_bonus == stats.max_hp_bonus + h
                    &&& b.damage_pct == stats.damage_pct
                    &&& b.speed_pct == stats.speed_pct
                    &&& b.attraction_radius == stats.attraction_radius
                },
                ItemEffect::AttractionRadius(r) => {
                    &&& b.attraction_radius >= stats.attraction_radius
                    &&& stats.attraction_radius + r <= u64::MAX ==> b.attraction_radius
                        == stats.attraction_radius + r
                    &&& b.damage_pct == stats.damage_pct
                    &&& b.speed_pct == stats.speed_pct
                    &&& b.max_hp_bonus == stats.max_hp_bonus
                },
            }
        }),
{
}

/// Buying the same boost twice stacks: two damage items add their points
/// one after the other, so the order of purchases does not matter.
pub proof fn law_damage_boosts_stack(stats: PlayerStats, p: u64, q: u64)
    requires
        stats.damage_pct + p + q <= u64::MAX,
    ensures
        boosted_stats(boosted_stats(stats, ItemEffect::DamagePct(p)), ItemEffect::DamagePct(q)).damage_pct
            == stats.damage_pct + p + q,
        boosted_stats(boosted_stats(stats, ItemEffect::DamagePct(p)), ItemEffect::DamagePct(q))
            == boosted_stats(boosted_stats(stats, ItemEffect::DamagePct(q)), ItemEffect::DamagePct(p)),
{
}

/// The catalog's first item, the sharpened blade, adds 20 points to the
/// damage multiplier (x1.0 becomes x1.2); the second adds 15 to speed.
pub proof fn law_catalog_boosts(stats: PlayerStats)
    requires
        stats.damage_pct + 20 <= u64::MAX,
        stats.speed_pct + 15 <= u64::MAX,
    ensures
        boosted_stats(stats, spec_item_effect(0)).damage_pct == stats.damage_pct + 20,
        boosted_stats(stats, spec_item_effect(1)).speed_pct == stats.speed_pct + 15,
{
}

/// The catalog: the blade (+20% damage) costs 15, the adrenaline (+15%
/// speed) 12, the titan's heart (+25 max HP) 20 and the magnet arm (+24
/// attraction radius) 18; the dearest item costs 20.
pub proof fn law_shop_catalog()
    ensures
        spec_item_cost(0) == 15 && spec_item_effect(0) == ItemEffect::DamagePct(20),
        spec_item_cost(1) == 12 && spec_item_effect(1) == ItemEffect::SpeedPct(15),
        spec_item_cost(2) == 20 && spec_item_effect(2) == ItemEffect::MaxHp(250),
        spec_item_cost(3) == 18 && spec_item_effect(3) == ItemEffect::AttractionRadius(24),
        forall|i: int| 0 <= i < SHOP_ITEM_COUNT ==> 12 <= #[trigger] spec_item_cost(i) <= 20,
{
}

/// A max-HP boost heals by as much as it raises max HP: with the bonus
/// carried into the stats, max HP becomes the base plus the bonus and the
/// current HP rises by the same amount the max rose (so a Player at full
/// health stays at full health).
pub proof fn law_max_hp_boost_heals_by_the_rise(health: Health, stats: PlayerStats)
    requires
        health.wf(),
        0 < stats.max_hp_bonus <= HP_LIMIT,
        health.current <= health.max <= BASE_MAX_HP + stats.max_hp_bonus,
    ensures
        health_for_stats(health, stats).max == BASE_MAX_HP + stats.max_hp_bonus,
        health_for_stats(health, stats).current - health.current == health_for_stats(health, stats).max - health.max,
        health.current == health.max ==> health_for_stats(health, stats).current == health_for_stats(health, stats).max,
{
}

/// The catalog item at `index`, if there is one.
pub fn shop_item(index: usize) -> (item: Option<ShopItem>)
    ensures
        item is Some <==> index < SHOP_ITEM_COUNT,
        item matches Some(it) ==> {
            &&& it.cost == spec_item_cost(index as int)
            &&& it.effect == spec_item_effect(index as int)
            &&& it.name@ == spec_item_name(index as int)
        },
{
    if index == 0 {
        Some(ShopItem { name: "磨砺之刃（伤害 +20%）", cost: 15, effect: ItemEffect::DamagePct(20) })
    } else if index == 1 {
        Some(ShopItem { name: "肾上腺（速度 +15%）", cost: 12, effect: ItemEffect::SpeedPct(15) })
    } else if index == 2 {
        Some(
            ShopItem {
                name: "泰坦之心（最大生命 +25）",
                cost: 20,
                effect: ItemEffect::MaxHp(MAX_ITEM_HP_BOOST),
            },
        )
    } else if index == 3 {
        Some(
            ShopItem {
                name: "磁力臂 Magnet Arm（吸引半径 +24）",
                cost: 18,
                effect: ItemEffect::AttractionRadius(MAGNET_RADIUS_BOOST),
            },
        )
    } else {
        None
    }
}

/// The whole catalog, in catalog order.
pub fn shop_items() -> (items: Vec<ShopItem>)
    ensures
        items@.len() == SHOP_ITEM_COUNT,
        forall|i: int|
            0 <= i < SHOP_ITEM_COUNT ==> {
                &&& (#[trigger] items@[i]).cost == spec_item_cost(i)
                &&& items@[i].effect == spec_item_effect(i)
                &&& items@[i].name@ == spec_item_name(i)
            },
{
    let mut items: Vec<ShopItem> = Vec::new();
    let mut i: usize = 0;
    while i < SHOP_ITEM_COUNT
        invariant
            i <= SHOP_ITEM_COUNT,
            items@.len() == i,
            forall|j: int|
                0 <= j < i ==> {
                    &&& (#[trigger] items@[j]).cost == spec_item_cost(j)
                    &&& items@[j].effect == spec_item_effect(j)
                    &&& items@[j].name@ == spec_item_name(j)
                },
        decreases SHOP_ITEM_COUNT - i,
    {
        match shop_item(i) {
            Some(item) => items.push(item),
            None => {},
        }
        i += 1;
    }
    items
}

impl ItemEffect {
    /// Apply the boost to the Player's stats.
    pub fn apply(self, stats: &mut PlayerStats)
        requires
            0 <= old(stats).max_hp_bonus <= HP_LIMIT,
            match self {
                ItemEffect::MaxHp(h) => 0 <= h <= MAX_ITEM_HP_BOOST,
                _ => true,
            },
        ensures
            *final(stats) == boosted_stats(*old(stats), self),
    {
        match self {
            ItemEffect::DamagePct(p) => stats.damage_pct = stats.damage_pct.saturating_add(p),
            ItemEffect::SpeedPct(p) => stats.speed_pct = stats.speed_pct.saturating_add(p),
            ItemEffect::MaxHp(h) => stats.max_hp_bonus = stats.max_hp_bonus + h,
            ItemEffect::AttractionRadius(r) => stats.attraction_radius = stats.attraction_radius.saturating_add(r),
        }
    }
}

/// Whether a purchase request is taken: the item exists and the wallet
/// covers its cost.
pub open spec fn purchase_accepted(index: usize, wallet: u32) -> bool {
    index < SHOP_ITEM_COUNT && wallet >= spec_item_cost(index as int)
}

/// Handle one purchase request: when the item exists and is affordable, its
/// cost leaves the wallet, its boost applies, and max HP follows the bonus.
/// Otherwise nothing changes.
pub fn purchase(
    request: PurchaseRequest,
    materials: &mut Materials,
    stats: &mut PlayerStats,
    health: &mut Health,
) -> (bought: Option<ItemPurchased>)
    requires
        old(health).wf(),
        0 <= old(stats).max_hp_bonus <= HP_LIMIT - BASE_MAX_HP - MAX_ITEM_HP_BOOST,
    ensures
        bought is Some <==> purchase_accepted(request.item_index, old(materials).count),
        bought matches Some(b) ==> {
            &&& b.item_index == request.item_index
            &&& b.cost == spec_item_cost(request.item_index as int)
            &&& final(materials).count == old(materials).count - b.cost
            &&& *final(stats) == boosted_stats(*old(stats), spec_item_effect(request.item_index as int))
            &&& *final(health) == health_for_stats(*old(health), *final(stats))
        },
        bought is None ==> {
            &&& *final(materials) == *old(materials)
            &&& *final(stats) == *old(stats)
            &&& *final(health) == *old(health)
        },
        final(health).wf(),
        old(stats).max_hp_bonus <= final(stats).max_hp_bonus <= old(stats).max_hp_bonus
            + MAX_ITEM_HP_BOOST,
{
    let item = match shop_item(request.item_index) {
        Some(item) => item,
        None => {
            return None;
        },
    };
    if materials.count < item.cost {
        return None;
    }
    materials.count = materials.count - item.cost;
    item.effect.apply(stats);
    if stats.max_hp_bonus > 0 {
        let new_max = BASE_MAX_HP + stats.max_hp_bonus;
        let rise = if new_max > health.max {
            new_max - health.max
        } else {
            0
        };
        let raised = health.current + rise;
        health.max = new_max;
        health.current = if raised < new_max {
            raised
        } else {
            new_max
        };
    }
    Some(ItemPurchased { item_index: request.item_index, cost: item.cost })
}

/// Handle the frame's purchase requests in order, spending materials on the
/// items that are affordable at their turn. Returns one announcement per
/// purchase.
pub fn process_purchases(
    requests: &Vec<PurchaseRequest>,
    materials: &mut Materials,
    stats: &mut PlayerStats,
    health: &mut Health,
) -> (bought: Vec<ItemPurchased>)
    requires
        old(health).wf(),
        0 <= old(stats).max_hp_bonus,
        old(stats).max_hp_bonus + requests@.len() * MAX_ITEM_HP_BOOST <= HP_LIMIT - BASE_MAX_HP
            - MAX_ITEM_HP_BOOST,
    ensures
        (final(materials).count, *final(stats), *final(health), bought@) == purchases_fold(
            requests@,
            old(materials).count,
            *old(stats),
            *old(health),
        ),
        bought@.len() <= requests@.len(),
        old(materials).count == final(materials).count + spent(bought@),
        final(health).wf(),
        old(stats).max_hp_bonus <= final(stats).max_hp_bonus <= old(stats).max_hp_bonus
            + requests@.len() * MAX_ITEM_HP_BOOST,
        forall|i: int| 0 <= i < bought@.len() ==> (#[trigger] bought@[i]).item_index < SHOP_ITEM_COUNT,
{
    let mut bought: Vec<ItemPurchased> = Vec::new();
    let mut i: usize = 0;
    while i < requests.len()
        invariant
            i <= requests@.len(),
            bought@.len() <= i,
            health.wf(),
            0 <= old(stats).max_hp_bonus <= stats.max_hp_bonus,
            stats.max_hp_bonus <= old(stats).max_hp_bonus + i * MAX_ITEM_HP_BOOST,
            old(stats).max_hp_bonus + requests@.len() * MAX_ITEM_HP_BOOST <= HP_LIMIT - BASE_MAX_HP
                - MAX_ITEM_HP_BOOST,
            old(materials).count == materials.count + spent(bought@),
            forall|j: int| 0 <= j < bought@.len() ==> (#[trigger] bought@[j]).item_index < SHOP_ITEM_COUNT,
            (materials.count, *stats, *health, bought@) == purchases_fold(
                requests@.take(i as int),
                old(materials).count,
                *old(stats),
                *old(health),
            ),
        decreases requests@.len() - i,
    {
        proof {
            assert(requests@.take(i + 1).drop_last() =~= requests@.take(i as int));
        }
        match purchase(requests[i], materials, stats, health) {
            Some(b) => {
                proof {
                    assert(bought@.push(b).drop_last() =~= bought@);
                }
                bought.push(b);
            },
            None => {},
        }
        i += 1;
    }
    proof {
        assert(requests@.take(requests@.len() as int) =~= requests@);
    }
    bought
}

/// Wallet, stats, health and announcements after handling `reqs` in order,
/// starting from `wallet`, `stats` and `health`.
pub open spec fn purchases_fold(
    reqs: Seq<PurchaseRequest>,
    wallet: u32,
    stats: PlayerStats,
    health: Health,
) -> (u32, PlayerStats, Health, Seq<ItemPurchased>)
    decreases reqs.len(),
{
    if reqs.len() == 0 {
        (wallet, stats, health, Seq::empty())
    } else {
        let prev = purchases_fold(reqs.drop_last(), wallet, stats, health);
        let r = reqs.last();
        if purchase_accepted(r.item_index, prev.0) {
            let cost = spec_item_cost(r.item_index as int);
            let s2 = boosted_stats(prev.1, spec_item_effect(r.item_index as int));
            (
                (prev.0 - cost) as u32,
                s2,
                health_for_stats(prev.2, s2),
                prev.3.push(ItemPurchased { item_index: r.item_index, cost }),
            )
        } else {
            prev
        }
    }
}

/// Materials spent on some purchases.
pub open spec fn spent(bs: Seq<ItemPurchased>) -> int
    decreases bs.len(),
{
    if bs.len() == 0 {
        0
    } else {
        spent(bs.drop_last()) + bs.last().cost
    }
}

} // verus!
