//! Combat resolution: weapons damage enemies, enemies damage the Player.

use vstd::prelude::*;

use crate::damage::{recorded_map, recorded_other, DamageSource, DamageStats};
use crate::enemy::{spec_contact_damage, splitter_children, Enemy, EnemyKind, SPLIT_CHILD_HEALTH, SPLIT_CHILDREN};
use crate::player::{Health, HP_LIMIT};

verus! {

/// The Player was hurt by enemy contact; `hp_after` is the post-damage HP
/// (both in tenths).
#[derive(Debug, Clone, Copy, PartialEq, Eq, Structural)]
pub struct PlayerHurt {
    pub amount: i64,
    pub hp_after: i64,
}

/// An enemy died.
#[derive(Debug, Clone, Copy, PartialEq, Eq, Structural)]
pub struct EnemyDied {
    pub kind: EnemyKind,
}

/// What a hit did to an enemy.
#[derive(Debug)]
pub enum HitOutcome {
    /// The enemy was already dead; nothing happened.
    Ignored,
    /// The enemy took the damage and lives on.
    Survived,
    /// The enemy died; `children` are the enemies it splits into.
    Died { died: EnemyDied, children: Vec<Enemy> },
}

/// Percentage of a Bomber Orb's damage its explosion deals.
pub const BOMBER_AOE_DAMAGE_PERCENT: u64 = 200;

/// Percentage of a projectile's damage each Splitshot shard inherits.
pub const SHARD_DAMAGE_PERCENT: u64 = 50;

/// `amount` (tenths) scaled by `percent`, rounded down to a tenth and held
/// at the hit-point bound (no enemy has more health than that).
pub open spec fn spec_scaled_damage(amount: i64, percent: u64) -> i64 {
    let s = amount * percent / 100;
    if s > HP_LIMIT {
        HP_LIMIT
    } else {
        s as i64
    }
}

/// A hit's damage: `amount` (tenths) scaled by `percent` (the Player's damage
/// multiplier, a Bomber explosion's doubling, a shard's half), rounded down
/// to a tenth.
pub fn scaled_damage(amount: i64, percent: u64) -> (d: i64)
    requires
        0 <= amount <= HP_LIMIT,
    ensures
        d == spec_scaled_damage(amount, percent),
        0 <= d <= HP_LIMIT,
        percent <= 100 ==> d <= amount,
{
    assert(0 <= amount * percent <= HP_LIMIT * u64::MAX) by (nonlinear_arith)
        requires
            0 <= amount <= HP_LIMIT,
            0 <= percent <= u64::MAX,
    ;
    assert(percent <= 100 ==> amount * percent / 100 <= amount) by (nonlinear_arith)
        requires
            0 <= amount,
            0 <= percent,
    ;
    let prod: u128 = amount as u128 * percent as u128;
    let s: u128 = prod / 100;
    if s > HP_LIMIT as u128 {
        HP_LIMIT
    } else {
        s as i64
    }
}

/// Effective Damage of a hit of `amount` on health `health`: the health the
/// hit actually removes (overkill excluded).
pub open spec fn effective_damage(amount: i64, health: i64) -> i64 {
    if amount < health {
        amount
    } else {
        health
    }
}

/// Apply a hit of `amount` (tenths) from `source` to an enemy. A living enemy
/// loses `amount` health and the Effective Damage is recorded; when its health
/// reaches zero it dies, leaving its split children. A dead enemy ignores the
/// hit.
pub fn apply_damage(
    enemy: &mut Enemy,
    amount: i64,
    source: DamageSource,
    stats: &mut DamageStats,
) -> (outcome: HitOutcome)
    requires
        0 <= amount <= HP_LIMIT,
        old(enemy).health <= HP_LIMIT,
    ensures
        old(enemy).health <= 0 ==> {
            &&& outcome is Ignored
            &&& *final(enemy) == *old(enemy)
            &&& *final(stats) == *old(stats)
        },
        old(enemy).health > 0 ==> {
            let eff = effective_damage(amount, old(enemy).health);
            &&& *final(enemy) == Enemy { health: (old(enemy).health - amount) as i64, ..*old(enemy) }
            &&& 0 <= eff <= old(enemy).health
            &&& eff == old(enemy).health - (if final(enemy).health > 0 { final(enemy).health as int } else { 0 })
            &&& eff > 0 ==> final(stats).current_wave@ == recorded_map(old(stats).current_wave@, source, eff as u64)
                && final(stats).run@ == recorded_map(old(stats).run@, source, eff as u64)
                && final(stats).current_wave.other_damage() == recorded_other(old(stats).current_wave.other_damage(), source, eff as u64)
                && final(stats).run.other_damage() == recorded_other(old(stats).run.other_damage(), source, eff as u64)
            &&& eff == 0 ==> final(stats).current_wave@ == old(stats).current_wave@
                && final(stats).run@ == old(stats).run@
            &&& old(stats).run.spec_total() + eff <= u64::MAX ==> final(stats).run.spec_total()
                == old(stats).run.spec_total() + eff
            &&& old(stats).current_wave.spec_total() + eff <= u64::MAX ==> final(stats).current_wave.spec_total()
                == old(stats).current_wave.spec_total() + eff
            &&& final(stats).last_wave@ == old(stats).last_wave@
            &&& (final(enemy).health > 0 <==> outcome is Survived)
            &&& (final(enemy).health <= 0 <==> outcome is Died)
            &&& outcome matches HitOutcome::Died { died, children } ==> {
                &&& died.kind == old(enemy).kind
                &&& children@.len() == (if old(enemy).split_depth > 0 { SPLIT_CHILDREN as int } else { 0 })
                &&& forall|i: int| 0 <= i < children@.len() ==> (#[trigger] children@[i]).kind
                    == EnemyKind::Splitter && children@[i].health == SPLIT_CHILD_HEALTH
                    && children@[i].split_depth == old(enemy).split_depth - 1
            }
        },
{
    if enemy.health <= 0 {
        return HitOutcome::Ignored;
    }
    let effective = if amount < enemy.health {
        amount
    } else {
        enemy.health
    };
    enemy.health = enemy.health - amount;
    stats.record(source, effective);
    if enemy.health > 0 {
        return HitOutcome::Survived;
    }
    let children = splitter_children(enemy.split_depth);
    HitOutcome::Died { died: EnemyDied { kind: enemy.kind }, children }
}

/// Health left and Effective Damage recorded after hits of `amounts`, in
/// order, on an enemy starting at `health` (a dead enemy ignores hits).
pub open spec fn hits_fold(health: int, amounts: Seq<int>) -> (int, int)
    decreases amounts.len(),
{
    if amounts.len() == 0 {
        (health, 0)
    } else {
        let prev = hits_fold(health, amounts.drop_last());
        if prev.0 <= 0 {
            prev
        } else {
            let a = amounts.last();
            let eff = if a < prev.0 { a } else { prev.0 };
            (prev.0 - a, prev.1 + eff)
        }
    }
}

/// Overkill never counts: over any sequence of non-negative hits on one
/// enemy, the Effective Damage recorded is exactly the health the enemy
/// lost, so it never exceeds the enemy's starting health.
pub proof fn law_effective_damage_is_health_lost(health: int, amounts: Seq<int>)
    requires
        forall|i: int| 0 <= i < amounts.len() ==> amounts[i] >= 0,
    ensures
        hits_fold(health, amounts).1 == (if health > 0 { health } else { 0 }) - (if hits_fold(
            health,
            amounts,
        ).0 > 0 {
            hits_fold(health, amounts).0
        } else {
            0
        }),
        hits_fold(health, amounts).1 <= (if health > 0 { health } else { 0 }),
    decreases amounts.len(),
{
    if amounts.len() > 0 {
        law_effective_damage_is_health_lost(health, amounts.drop_last());
        let prev = hits_fold(health, amounts.drop_last());
        if prev.0 > 0 {
            assert(hits_fold(health, amounts).1 == prev.1 + effective_damage_int(amounts.last(), prev.0));
        }
    }
}

spec fn effective_damage_int(amount: int, health: int) -> int {
    if amount < health {
        amount
    } else {
        health
    }
}

/// Result of one frame of enemy contact.
#[derive(Debug, Clone, Copy, PartialEq, Eq, Structural)]
pub struct ContactOutcome {
    /// The hit taken, if any (it restarts the invulnerability window).
    pub hurt: Option<PlayerHurt>,
    /// HP reached zero: the Run is lost.
    pub defeated: bool,
}

/// One frame of enemy contact. `touching` are the kinds of the enemies whose
/// bodies overlap the Player, in query order; `invulnerability_over` tells
/// whether the post-hit window has elapsed. Only the first toucher hits, and
/// only when the window is over (the hit restarts it).
pub fn resolve_contact(
    health: &mut Health,
    invulnerability_over: bool,
    touching: &Vec<EnemyKind>,
) -> (outcome: ContactOutcome)
    requires
        old(health).wf(),
    ensures
        (outcome.hurt is Some) <==> (invulnerability_over && touching@.len() > 0),
        outcome.hurt matches Some(h) ==> {
            &&& h.amount == spec_contact_damage(touching@[0])
            &&& final(health).current == old(health).current - h.amount
            &&& h.hp_after == final(health).current
            &&& final(health).max == old(health).max
        },
        outcome.hurt is None ==> *final(health) == *old(health),
        outcome.defeated <==> (outcome.hurt is Some && final(health).current <= 0),
{
    if !invulnerability_over || touching.len() == 0 {
        return ContactOutcome { hurt: None, defeated: false };
    }
    let enemy_kind = touching[0];
    let amount = match enemy_kind {
        EnemyKind::MeleeRusher => 100,
        EnemyKind::SpeedBurster => 60,
        EnemyKind::Splitter => 80,
    };
    health.current = health.current - amount;
    ContactOutcome {
        hurt: Some(PlayerHurt { amount, hp_after: health.current }),
        defeated: health.current <= 0,
    }
}

} // verus!
