//! Effective-damage attribution and Wave/Run contribution snapshots.
//!
//! Damage is counted in tenths of a point. Effective Damage is the health an
//! attack actually removed: overkill is never recorded.

use vstd::prelude::*;

use crate::upgrade::{evolution_for, spec_evolution_for, Evolution};
use crate::weapon::{EquippedWeapon, WeaponKind};

verus! {

/// Stable identity of one equipped Weapon Slot.
#[derive(Debug, Clone, Copy, PartialEq, Eq, Structural, PartialOrd, Ord, Hash)]
pub struct WeaponSlot(pub u8);

/// Attribution carried by every damaging attack.
#[derive(Debug, Clone, Copy, PartialEq, Eq, Structural)]
pub enum DamageSource {
    Weapon { slot: WeaponSlot, kind: WeaponKind },
    Other,
}

impl DamageSource {
    /// The weapon slot this damage came from, if any.
    pub fn slot(self) -> (s: Option<WeaponSlot>)
        ensures
            s == match self {
                DamageSource::Weapon { slot, .. } => Some(slot),
                DamageSource::Other => None::<WeaponSlot>,
            },
    {
        match self {
            DamageSource::Weapon { slot, .. } => Some(slot),
            DamageSource::Other => None,
        }
    }
}

/// Effective Damage attributed to one Weapon Slot in a period.
#[derive(Debug, Clone, Copy, PartialEq, Eq, Structural)]
pub struct SlotDamage {
    pub kind: WeaponKind,
    /// Set once the slot's weapon reached its Evolution; summaries then show
    /// the Evolution's name instead of the base kind's.
    pub evolution: Option<Evolution>,
    /// Tenths of a point.
    pub effective_damage: u64,
}

/// `a + b`, held at `u64::MAX` instead of wrapping.
pub open spec fn sat_add(a: u64, b: int) -> u64 {
    if a + b > u64::MAX {
        u64::MAX
    } else {
        (a + b) as u64
    }
}

/// Damage held by one table entry (an absent slot holds none).
pub open spec fn entry_damage(e: Option<SlotDamage>) -> int {
    match e {
        Some(d) => d.effective_damage as int,
        None => 0,
    }
}

/// Sum of the damage held by a run of table entries.
pub open spec fn sum_entries(s: Seq<Option<SlotDamage>>) -> int
    decreases s.len(),
{
    if s.len() == 0 {
        0
    } else {
        sum_entries(s.drop_last()) + entry_damage(s.last())
    }
}

/// The entry `record` leaves for a weapon slot that held `old`.
pub open spec fn recorded_entry(old: Option<SlotDamage>, kind: WeaponKind, amount: u64) -> SlotDamage {
    match old {
        Some(d) => SlotDamage { effective_damage: sat_add(d.effective_damage, amount as int), ..d },
        None => SlotDamage { kind, evolution: None, effective_damage: amount },
    }
}

/// A period's rows after `amount` was recorded for `source`.
pub open spec fn recorded_map(
    m: Map<WeaponSlot, SlotDamage>,
    source: DamageSource,
    amount: u64,
) -> Map<WeaponSlot, SlotDamage> {
    match source {
        DamageSource::Weapon { slot, kind } => m.insert(
            slot,
            recorded_entry(if m.contains_key(slot) { Some(m[slot]) } else { None }, kind, amount),
        ),
        DamageSource::Other => m,
    }
}

/// A period's Other bucket after `amount` was recorded for `source`.
pub open spec fn recorded_other(other: u64, source: DamageSource, amount: u64) -> u64 {
    match source {
        DamageSource::Weapon { .. } => other,
        DamageSource::Other => sat_add(other, amount as int),
    }
}

/// The entry `register_weapon` leaves for a slot that held `old`.
pub open spec fn registered_entry(
    old: Option<SlotDamage>,
    kind: WeaponKind,
    evolution: Option<Evolution>,
) -> SlotDamage {
    SlotDamage { kind, evolution, effective_damage: entry_damage(old) as u64 }
}

/// The table after folding `from` into `into`: the `from` row disappears and
/// its damage is added onto `into` (which takes `from`'s identity if it was
/// absent). Nothing changes when `from` is absent.
pub open spec fn merged_map(
    m: Map<WeaponSlot, SlotDamage>,
    from: WeaponSlot,
    into: WeaponSlot,
) -> Map<WeaponSlot, SlotDamage> {
    if !m.contains_key(from) {
        m
    } else {
        let removed = m[from];
        let rest = m.remove(from);
        let kept = if rest.contains_key(into) {
            SlotDamage {
                effective_damage: sat_add(rest[into].effective_damage, removed.effective_damage as int),
                ..rest[into]
            }
        } else {
            removed
        };
        rest.insert(into, kept)
    }
}

/// Damage contributions for one Wave or Run: one row per Weapon Slot that
/// dealt or registered damage, plus the "Other" bucket for non-weapon damage.
pub struct DamagePeriod {
    /// Indexed by slot id, so rows come out in slot order.
    slots: [Option<SlotDamage>; 256],
    other: u64,
}

impl View for DamagePeriod {
    type V = Map<WeaponSlot, SlotDamage>;

    closed spec fn view(&self) -> Map<WeaponSlot, SlotDamage> {
        Map::new(
            |s: WeaponSlot| self.slots@[s.0 as int] is Some,
            |s: WeaponSlot| self.slots@[s.0 as int]->0,
        )
    }
}

impl DamagePeriod {
    /// The table entries in slot order (256 of them, absent slots as `None`).
    pub closed spec fn entries(&self) -> Seq<Option<SlotDamage>> {
        self.slots@
    }

    /// Damage in the "Other" bucket.
    pub closed spec fn other_damage(&self) -> u64 {
        self.other
    }

    /// All Effective Damage of the period: every slot plus Other.
    pub open spec fn spec_total(&self) -> int {
        sum_entries(self.entries()) + self.other_damage()
    }

    /// An empty period.
    pub fn new() -> (p: DamagePeriod)
        ensures
            p@ == Map::<WeaponSlot, SlotDamage>::empty(),
            p.other_damage() == 0,
            p.spec_total() == 0,
    {
        let p = DamagePeriod { slots: [None; 256], other: 0 };
        proof {
            assert(p@ =~= Map::<WeaponSlot, SlotDamage>::empty());
            lemma_sum_all_none(p.entries());
        }
        p
    }

    /// A copy of the period.
    pub fn copy(&self) -> (p: DamagePeriod)
        ensures
            p@ == self@,
            p.entries() == self.entries(),
            p.other_damage() == self.other_damage(),
    {
        DamagePeriod { slots: self.slots, other: self.other }
    }

    /// The row of a slot, if it registered or dealt damage.
    pub fn slot(&self, index: WeaponSlot) -> (r: Option<SlotDamage>)
        ensures
            r == (if self@.contains_key(index) { Some(self@[index]) } else { None }),
    {
        self.slots[index.0 as usize]
    }

    /// Damage in the "Other" bucket.
    pub fn other(&self) -> (o: u64)
        ensures
            o == self.other_damage(),
    {
        self.other
    }

    /// Every row, in ascending slot order.
    pub fn slots(&self) -> (rows: Vec<(WeaponSlot, SlotDamage)>)
        ensures
            forall|i: int, j: int| 0 <= i < j < rows@.len() ==> rows@[i].0.0 < rows@[j].0.0,
            forall|i: int|
                0 <= i < rows@.len() ==> self@.contains_key(#[trigger] rows@[i].0) && self@[rows@[i].0]
                    == rows@[i].1,
            forall|s: WeaponSlot| #[trigger] self@.contains_key(s) ==> exists|i: int|
                0 <= i < rows@.len() && rows@[i].0 == s,
    {
        let mut rows: Vec<(WeaponSlot, SlotDamage)> = Vec::new();
        let mut i: usize = 0;
        while i < 256
            invariant
                i <= 256,
                self.slots@.len() == 256,
                forall|a: int, b: int| 0 <= a < b < rows@.len() ==> rows@[a].0.0 < rows@[b].0.0,
                forall|a: int| 0 <= a < rows@.len() ==> rows@[a].0.0 < i,
                forall|a: int|
                    0 <= a < rows@.len() ==> self.slots@[(#[trigger] rows@[a]).0.0 as int] == Some(
                        rows@[a].1,
                    ),
                forall|k: int|
                    0 <= k < i && self.slots@[k] is Some ==> exists|a: int|
                        0 <= a < rows@.len() && rows@[a].0.0 == k,
            decreases 256 - i,
        {
            if let Some(d) = self.slots[i] {
                let ghost before = rows@;
                rows.push((WeaponSlot(i as u8), d));
                proof {
                    assert forall|k: int|
                        0 <= k < i + 1 && self.slots@[k] is Some implies exists|a: int|
                        0 <= a < rows@.len() && rows@[a].0.0 == k by {
                        if k < i {
                            let a = choose|a: int| 0 <= a < before.len() && before[a].0.0 == k;
                            assert(rows@[a] == before[a]);
                        } else {
                            assert(rows@[rows@.len() - 1].0.0 == k);
                        }
                    }
                }
            }
            i += 1;
        }
        proof {
            assert forall|s: WeaponSlot| #[trigger] self@.contains_key(s) implies exists|a: int|
                0 <= a < rows@.len() && rows@[a].0 == s by {
                let k = s.0 as int;
                let a = choose|a: int| 0 <= a < rows@.len() && rows@[a].0.0 == k;
                assert(rows@[a].0 == s);
            }
        }
        rows
    }

    /// All Effective Damage of the period: every slot plus Other.
    pub fn total(&self) -> (t: u128)
        ensures
            t == self.spec_total(),
    {
        let mut t: u128 = 0;
        let mut i: usize = 0;
        while i < 256
            invariant
                i <= 256,
                self.slots@.len() == 256,
                t == sum_entries(self.slots@.take(i as int)),
                0 <= t <= i * (u64::MAX as int),
            decreases 256 - i,
        {
            proof {
                assert(self.slots@.take(i + 1).drop_last() =~= self.slots@.take(i as int));
            }
            if let Some(d) = self.slots[i] {
                t = t + d.effective_damage as u128;
            }
            i += 1;
        }
        proof {
            assert(self.slots@.take(256) =~= self.slots@);
        }
        t + self.other as u128
    }

    /// Share of the period's total held by `damage`, in tenths of a percent
    /// rounded half up; 0 when the period holds no damage.
    pub fn percentage(&self, damage: u64) -> (p: u128)
        ensures
            self.spec_total() == 0 ==> p == 0,
            self.spec_total() > 0 ==> p == (damage * 1000 * 2 + self.spec_total()) / (2
                * self.spec_total()),
    {
        let total = self.total();
        if total == 0 {
            0
        } else {
            proof {
                lemma_sum_bound(self.slots@);
            }
            (damage as u128 * 2000 + total) / (2 * total)
        }
    }

    /// Add positive Effective Damage to its source's row (or to Other).
    fn record(&mut self, source: DamageSource, amount: u64)
        ensures
            final(self)@ == recorded_map(old(self)@, source, amount),
            final(self).other_damage() == recorded_other(old(self).other_damage(), source, amount),
            old(self).spec_total() + amount <= u64::MAX ==> final(self).spec_total()
                == old(self).spec_total() + amount,
    {
        match source {
            DamageSource::Weapon { slot, kind } => {
                let i = slot.0 as usize;
                let entry = match self.slots[i] {
                    Some(d) => SlotDamage {
                        effective_damage: d.effective_damage.saturating_add(amount),
                        ..d
                    },
                    None => SlotDamage { kind, evolution: None, effective_damage: amount },
                };
                self.slots[i] = Some(entry);
                proof {
                    assert(self@ =~= recorded_map(old(self)@, source, amount));
                    lemma_sum_update(old(self).slots@, i as int, Some(entry));
                    lemma_entry_le_sum(old(self).slots@, i as int);
                    assert(self.slots@ == old(self).slots@.update(i as int, Some(entry)));
                }
            },
            DamageSource::Other => {
                self.other = self.other.saturating_add(amount);
                proof {
                    assert(self@ =~= old(self)@);
                    lemma_sum_nonneg(self.slots@);
                }
            },
        }
    }

    /// Register (or refresh) a slot's identity, keeping its damage. A slot's
    /// weapon may have evolved since the period began.
    pub fn register_weapon(&mut self, slot: WeaponSlot, kind: WeaponKind, evolution: Option<Evolution>)
        ensures
            final(self)@ == old(self)@.insert(
                slot,
                registered_entry(
                    if old(self)@.contains_key(slot) { Some(old(self)@[slot]) } else { None },
                    kind,
                    evolution,
                ),
            ),
            final(self).other_damage() == old(self).other_damage(),
            final(self).spec_total() == old(self).spec_total(),
    {
        let i = slot.0 as usize;
        let damage = match self.slots[i] {
            Some(d) => d.effective_damage,
            None => 0,
        };
        self.slots[i] = Some(SlotDamage { kind, evolution, effective_damage: damage });
        proof {
            lemma_sum_update(old(self).slots@, i as int, self.slots@[i as int]);
            assert(self.slots@ == old(self).slots@.update(i as int, self.slots@[i as int]));
            let n = registered_entry(
                if old(self)@.contains_key(slot) { Some(old(self)@[slot]) } else { None },
                kind,
                evolution,
            );
            assert(self@ =~= old(self)@.insert(slot, n));
        }
    }

    /// Fold `from`'s contribution into `into` and drop the `from` row.
    fn merge_slot(&mut self, from: WeaponSlot, into: WeaponSlot)
        ensures
            final(self)@ == merged_map(old(self)@, from, into),
            final(self).other_damage() == old(self).other_damage(),
            old(self).spec_total() <= u64::MAX ==> final(self).spec_total() == old(
                self,
            ).spec_total(),
    {
        let f = from.0 as usize;
        let removed = match self.slots[f] {
            Some(d) => d,
            None => {
                return;
            },
        };
        self.slots[f] = None;
        let ghost mid = self@;
        let ghost mid_slots = self.slots@;
        proof {
            assert(mid =~= old(self)@.remove(from));
            lemma_sum_update(old(self).slots@, f as int, None);
            assert(mid_slots == old(self).slots@.update(f as int, None));
            if f != into.0 as usize {
                lemma_two_entries_le_sum(old(self).slots@, f as int, into.0 as int);
            }
        }
        let t = into.0 as usize;
        let kept = match self.slots[t] {
            Some(d) => SlotDamage {
                effective_damage: d.effective_damage.saturating_add(removed.effective_damage),
                ..d
            },
            None => removed,
        };
        self.slots[t] = Some(kept);
        proof {
            assert(self@ =~= mid.insert(into, kept));
            lemma_sum_update(mid_slots, t as int, Some(kept));
            assert(self.slots@ == mid_slots.update(t as int, Some(kept)));
            lemma_sum_nonneg(old(self).slots@);
        }
    }
}

/// A period's rows after `register_weapon(slot, kind, evolution)`.
pub open spec fn registered_map(
    m: Map<WeaponSlot, SlotDamage>,
    slot: WeaponSlot,
    kind: WeaponKind,
    evolution: Option<Evolution>,
) -> Map<WeaponSlot, SlotDamage> {
    m.insert(slot, registered_entry(if m.contains_key(slot) { Some(m[slot]) } else { None }, kind, evolution))
}

/// The Evolution a summary shows for an equipped weapon.
pub open spec fn shown_evolution(w: EquippedWeapon) -> Option<Evolution> {
    if w.evolved {
        Some(spec_evolution_for(w.kind))
    } else {
        None
    }
}

/// A period's rows after registering the starting weapon on slot 0 (when one
/// was chosen) and then every equipped weapon, in order.
pub open spec fn registered_all(
    m: Map<WeaponSlot, SlotDamage>,
    starting: Option<WeaponKind>,
    weapons: Seq<EquippedWeapon>,
) -> Map<WeaponSlot, SlotDamage>
    decreases weapons.len(),
{
    if weapons.len() == 0 {
        match starting {
            Some(kind) => registered_map(m, WeaponSlot(0), kind, None),
            None => m,
        }
    } else {
        let w = weapons.last();
        registered_map(registered_all(m, starting, weapons.drop_last()), w.slot, w.kind, shown_evolution(w))
    }
}

/// A period's rows after folding every slot of `from`, in order, into `into`.
pub open spec fn merged_all(
    m: Map<WeaponSlot, SlotDamage>,
    from: Seq<WeaponSlot>,
    into: WeaponSlot,
) -> Map<WeaponSlot, SlotDamage>
    decreases from.len(),
{
    if from.len() == 0 {
        m
    } else {
        merged_map(merged_all(m, from.drop_last(), into), from.last(), into)
    }
}

/// The current Wave, the previous Wave's snapshot, and the Run totals.
pub struct DamageStats {
    pub current_wave: DamagePeriod,
    pub last_wave: DamagePeriod,
    pub run: DamagePeriod,
    /// Whether the snapshotted wave ran to its end.
    pub last_wave_completed: bool,
    /// Whether the wave in progress has run to its end.
    pub current_wave_completed: bool,
}

impl DamageStats {
    /// Empty statistics, as at the start of a Run.
    pub fn new() -> (stats: DamageStats)
        ensures
            stats.current_wave@ == Map::<WeaponSlot, SlotDamage>::empty(),
            stats.last_wave@ == Map::<WeaponSlot, SlotDamage>::empty(),
            stats.run@ == Map::<WeaponSlot, SlotDamage>::empty(),
            stats.current_wave.other_damage() == 0,
            stats.last_wave.other_damage() == 0,
            stats.run.other_damage() == 0,
            stats.current_wave.spec_total() == 0,
            stats.last_wave.spec_total() == 0,
            stats.run.spec_total() == 0,
            !stats.last_wave_completed,
            !stats.current_wave_completed,
    {
        DamageStats {
            current_wave: DamagePeriod::new(),
            last_wave: DamagePeriod::new(),
            run: DamagePeriod::new(),
            last_wave_completed: false,
            current_wave_completed: false,
        }
    }

    /// Record Effective Damage against the current Wave and the Run.
    /// Non-positive amounts are not recorded.
    pub fn record(&mut self, source: DamageSource, effective_damage: i64)
        ensures
            effective_damage <= 0 ==> {
                &&& final(self).current_wave@ == old(self).current_wave@
                &&& final(self).run@ == old(self).run@
                &&& final(self).current_wave.other_damage() == old(self).current_wave.other_damage()
                &&& final(self).run.other_damage() == old(self).run.other_damage()
            },
            effective_damage > 0 ==> {
                &&& final(self).current_wave@ == recorded_map(
                    old(self).current_wave@,
                    source,
                    effective_damage as u64,
                )
                &&& final(self).current_wave.other_damage() == recorded_other(
                    old(self).current_wave.other_damage(),
                    source,
                    effective_damage as u64,
                )
                &&& final(self).run@ == recorded_map(old(self).run@, source, effective_damage as u64)
                &&& final(self).run.other_damage() == recorded_other(
                    old(self).run.other_damage(),
                    source,
                    effective_damage as u64,
                )
            },
            effective_damage > 0 && old(self).current_wave.spec_total() + effective_damage
                <= u64::MAX ==> final(self).current_wave.spec_total()
                == old(self).current_wave.spec_total() + effective_damage,
            effective_damage > 0 && old(self).run.spec_total() + effective_damage <= u64::MAX
                ==> final(self).run.spec_total() == old(self).run.spec_total() + effective_damage,
            effective_damage <= 0 ==> final(self).current_wave.spec_total()
                == old(self).current_wave.spec_total() && final(self).run.spec_total() == old(
                self,
            ).run.spec_total(),
            final(self).last_wave@ == old(self).last_wave@,
            final(self).last_wave.other_damage() == old(self).last_wave.other_damage(),
            final(self).last_wave_completed == old(self).last_wave_completed,
            final(self).current_wave_completed == old(self).current_wave_completed,
    {
        if effective_damage <= 0 {
            return;
        }
        self.current_wave.record(source, effective_damage as u64);
        self.run.record(source, effective_damage as u64);
    }

    /// Fold every `from` slot's contribution into `into` and remove the
    /// `from` rows, in the current Wave and the Run, so a weapon merged away
    /// keeps its history on the surviving slot.
    pub fn merge_slots(&mut self, from: &Vec<WeaponSlot>, into: WeaponSlot)
        ensures
            final(self).current_wave@ == merged_all(old(self).current_wave@, from@, into),
            final(self).run@ == merged_all(old(self).run@, from@, into),
            final(self).current_wave.other_damage() == old(self).current_wave.other_damage(),
            final(self).run.other_damage() == old(self).run.other_damage(),
            old(self).current_wave.spec_total() <= u64::MAX ==> final(self).current_wave.spec_total()
                == old(self).current_wave.spec_total(),
            old(self).run.spec_total() <= u64::MAX ==> final(self).run.spec_total() == old(
                self,
            ).run.spec_total(),
            final(self).last_wave@ == old(self).last_wave@,
            final(self).last_wave.other_damage() == old(self).last_wave.other_damage(),
            final(self).last_wave_completed == old(self).last_wave_completed,
            final(self).current_wave_completed == old(self).current_wave_completed,
    {
        let mut i: usize = 0;
        while i < from.len()
            invariant
                i <= from@.len(),
                self.current_wave@ == merged_all(old(self).current_wave@, from@.take(i as int), into),
                self.run@ == merged_all(old(self).run@, from@.take(i as int), into),
                self.current_wave.other_damage() == old(self).current_wave.other_damage(),
                self.run.other_damage() == old(self).run.other_damage(),
                old(self).current_wave.spec_total() <= u64::MAX ==> self.current_wave.spec_total()
                    == old(self).current_wave.spec_total(),
                old(self).run.spec_total() <= u64::MAX ==> self.run.spec_total() == old(
                    self,
                ).run.spec_total(),
                self.last_wave@ == old(self).last_wave@,
                self.last_wave.other_damage() == old(self).last_wave.other_damage(),
                self.last_wave_completed == old(self).last_wave_completed,
                self.current_wave_completed == old(self).current_wave_completed,
            decreases from@.len() - i,
        {
            proof {
                assert(from@.take(i + 1).drop_last() =~= from@.take(i as int));
            }
            self.current_wave.merge_slot(from[i], into);
            self.run.merge_slot(from[i], into);
            i += 1;
        }
        proof {
            assert(from@.take(from@.len() as int) =~= from@);
        }
    }

    /// The current wave ran to its end.
    pub fn mark_wave_completed(&mut self)
        ensures
            final(self).current_wave_completed,
            final(self).current_wave@ == old(self).current_wave@,
            final(self).last_wave@ == old(self).last_wave@,
            final(self).run@ == old(self).run@,
            final(self).current_wave.other_damage() == old(self).current_wave.other_damage(),
            final(self).last_wave.other_damage() == old(self).last_wave.other_damage(),
            final(self).run.other_damage() == old(self).run.other_damage(),
            final(self).last_wave_completed == old(self).last_wave_completed,
            final(self).run == old(self).run,
            final(self).last_wave == old(self).last_wave,
    {
        self.current_wave_completed = true;
    }

    /// A wave begins: the current-Wave period starts empty, and the starting
    /// weapon (slot 0) and every equipped weapon are registered with zero
    /// damage in it and refreshed in the Run.
    pub fn begin_wave(&mut self, starting: Option<WeaponKind>, weapons: &Vec<EquippedWeapon>)
        ensures
            final(self).current_wave@ == registered_all(
                Map::<WeaponSlot, SlotDamage>::empty(),
                starting,
                weapons@,
            ),
            final(self).current_wave.other_damage() == 0,
            final(self).current_wave.spec_total() == 0,
            final(self).run@ == registered_all(old(self).run@, starting, weapons@),
            final(self).run.other_damage() == old(self).run.other_damage(),
            final(self).run.spec_total() == old(self).run.spec_total(),
            !final(self).current_wave_completed,
            final(self).last_wave@ == old(self).last_wave@,
            final(self).last_wave.other_damage() == old(self).last_wave.other_damage(),
            final(self).last_wave_completed == old(self).last_wave_completed,
    {
        self.current_wave = DamagePeriod::new();
        self.current_wave_completed = false;
        if let Some(kind) = starting {
            self.current_wave.register_weapon(WeaponSlot(0), kind, None);
            self.run.register_weapon(WeaponSlot(0), kind, None);
        }
        let ghost base_current = self.current_wave@;
        let ghost base_run = self.run@;
        let mut i: usize = 0;
        while i < weapons.len()
            invariant
                i <= weapons@.len(),
                self.current_wave@ == registered_all(
                    Map::<WeaponSlot, SlotDamage>::empty(),
                    starting,
                    weapons@.take(i as int),
                ),
                self.run@ == registered_all(old(self).run@, starting, weapons@.take(i as int)),
                self.current_wave.other_damage() == 0,
                self.current_wave.spec_total() == 0,
                self.run.other_damage() == old(self).run.other_damage(),
                self.run.spec_total() == old(self).run.spec_total(),
                !self.current_wave_completed,
                self.last_wave@ == old(self).last_wave@,
                self.last_wave.other_damage() == old(self).last_wave.other_damage(),
                self.last_wave_completed == old(self).last_wave_completed,
            decreases weapons@.len() - i,
        {
            proof {
                assert(weapons@.take(i + 1).drop_last() =~= weapons@.take(i as int));
            }
            let w = weapons[i];
            let evolution = if w.evolved {
                Some(evolution_for(w.kind))
            } else {
                None
            };
            self.current_wave.register_weapon(w.slot, w.kind, evolution);
            self.run.register_weapon(w.slot, w.kind, evolution);
            i += 1;
        }
        proof {
            assert(weapons@.take(weapons@.len() as int) =~= weapons@);
        }
    }

    /// A wave ends: its period becomes the previous-Wave snapshot.
    pub fn finish_wave(&mut self)
        ensures
            final(self).last_wave@ == old(self).current_wave@,
            final(self).last_wave.other_damage() == old(self).current_wave.other_damage(),
            final(self).last_wave.spec_total() == old(self).current_wave.spec_total(),
            final(self).last_wave_completed == old(self).current_wave_completed,
            final(self).current_wave@ == old(self).current_wave@,
            final(self).current_wave.other_damage() == old(self).current_wave.other_damage(),
            final(self).run@ == old(self).run@,
            final(self).run.other_damage() == old(self).run.other_damage(),
            final(self).current_wave_completed == old(self).current_wave_completed,
            final(self).run == old(self).run,
    {
        self.last_wave = self.current_wave.copy();
        self.last_wave_completed = self.current_wave_completed;
    }

    /// A new Run starts from empty statistics.
    pub fn reset_run(&mut self)
        ensures
            final(self).current_wave@ == Map::<WeaponSlot, SlotDamage>::empty(),
            final(self).last_wave@ == Map::<WeaponSlot, SlotDamage>::empty(),
            final(self).run@ == Map::<WeaponSlot, SlotDamage>::empty(),
            final(self).current_wave.spec_total() == 0,
            final(self).last_wave.spec_total() == 0,
            final(self).run.spec_total() == 0,
            !final(self).last_wave_completed,
            !final(self).current_wave_completed,
    {
        *self = DamageStats::new();
    }
}

/// Every Weapon Slot records its own damage: recording a hit for one slot
/// leaves every other slot's row as it was (present or absent), even a slot
/// holding the same kind, and adds the hit to the slot's own row.
pub proof fn law_slots_record_independently(
    m: Map<WeaponSlot, SlotDamage>,
    slot: WeaponSlot,
    kind: WeaponKind,
    amount: u64,
    other: WeaponSlot,
)
    requires
        other != slot,
    ensures
        recorded_map(m, DamageSource::Weapon { slot, kind }, amount).contains_key(other) == m.contains_key(other),
        m.contains_key(other) ==> recorded_map(m, DamageSource::Weapon { slot, kind }, amount)[other] == m[other],
        recorded_map(m, DamageSource::Weapon { slot, kind }, amount)[slot].effective_damage == sat_add(
            entry_damage(if m.contains_key(slot) { Some(m[slot]) } else { None }) as u64,
            amount as int,
        ),
{
}

/// Merging never leaves ghost rows: after folding the slots of `from` into
/// `into`, none of them (other than `into` itself) keeps a row, every other
/// row is untouched, and `into` holds a row whenever any of them had one.
pub proof fn law_merge_leaves_no_ghost_rows(
    m: Map<WeaponSlot, SlotDamage>,
    from: Seq<WeaponSlot>,
    into: WeaponSlot,
)
    ensures
        forall|j: int|
            0 <= j < from.len() && from[j] != into ==> !(#[trigger] merged_all(m, from, into).contains_key(from[j])),
        forall|s: WeaponSlot|
            !from.contains(s) && s != into ==> (#[trigger] merged_all(m, from, into).contains_key(s)
                == m.contains_key(s)) && (m.contains_key(s) ==> merged_all(m, from, into)[s] == m[s]),
        (m.contains_key(into) || exists|j: int| 0 <= j < from.len() && m.contains_key(#[trigger] from[j]))
            ==> merged_all(m, from, into).contains_key(into),
    decreases from.len(),
{
    if from.len() > 0 {
        let pre = from.drop_last();
        law_merge_leaves_no_ghost_rows(m, pre, into);
        let prev = merged_all(m, pre, into);
        let last = from.last();
        let out = merged_all(m, from, into);
        assert forall|j: int| 0 <= j < from.len() && from[j] != into implies !(#[trigger] out.contains_key(from[j])) by {
            if j < from.len() - 1 {
                assert(pre[j] == from[j]);
            }
        }
        assert forall|s: WeaponSlot| !from.contains(s) && s != into implies (#[trigger] out.contains_key(s)
            == m.contains_key(s)) && (m.contains_key(s) ==> out[s] == m[s]) by {
            assert(s != last);
            assert(!pre.contains(s)) by {
                if pre.contains(s) {
                    let k = choose|k: int| 0 <= k < pre.len() && pre[k] == s;
                    assert(from[k] == s);
                }
            }
        }
        if m.contains_key(into) || exists|j: int| 0 <= j < from.len() && m.contains_key(#[trigger] from[j]) {
            if !(m.contains_key(into) || exists|j: int| 0 <= j < pre.len() && m.contains_key(#[trigger] pre[j])) {
                let j = choose|j: int| 0 <= j < from.len() && m.contains_key(#[trigger] from[j]);
                if j < from.len() - 1 {
                    assert(pre[j] == from[j]);
                    assert(false);
                }
                assert(from[j] == last);
                if last != into {
                    assert(!pre.contains(last)) by {
                        if pre.contains(last) {
                            let k = choose|k: int| 0 <= k < pre.len() && pre[k] == last;
                            assert(m.contains_key(pre[k]));
                        }
                    }
                    assert(prev.contains_key(last));
                }
            }
        }
    }
}

/// Damage a table holds for one slot (an absent row holds none).
pub open spec fn row_damage(m: Map<WeaponSlot, SlotDamage>, s: WeaponSlot) -> int {
    if m.contains_key(s) {
        m[s].effective_damage as int
    } else {
        0
    }
}

/// Damage a table holds over a run of slots.
pub open spec fn rows_damage(m: Map<WeaponSlot, SlotDamage>, slots: Seq<WeaponSlot>) -> int
    decreases slots.len(),
{
    if slots.len() == 0 {
        0
    } else {
        rows_damage(m, slots.drop_last()) + row_damage(m, slots.last())
    }
}

proof fn lemma_rows_damage_nonneg(m: Map<WeaponSlot, SlotDamage>, slots: Seq<WeaponSlot>)
    ensures
        rows_damage(m, slots) >= 0,
    decreases slots.len(),
{
    if slots.len() > 0 {
        lemma_rows_damage_nonneg(m, slots.drop_last());
    }
}

/// A merged weapon keeps its history on the surviving slot: after folding
/// the (distinct) slots of `from` into `into`, the row of `into` holds its
/// own damage plus the damage of every merged row, as long as that sum is
/// representable (amounts are held at `u64::MAX` rather than wrapping).
pub proof fn law_merged_slot_pools_the_history(
    m: Map<WeaponSlot, SlotDamage>,
    from: Seq<WeaponSlot>,
    into: WeaponSlot,
)
    requires
        from.no_duplicates(),
        !from.contains(into),
        row_damage(m, into) + rows_damage(m, from) <= u64::MAX,
    ensures
        row_damage(merged_all(m, from, into), into) == row_damage(m, into) + rows_damage(m, from),
    decreases from.len(),
{
    if from.len() > 0 {
        let pre = from.drop_last();
        let last = from.last();
        assert(!pre.contains(into)) by {
            if pre.contains(into) {
                let k = choose|k: int| 0 <= k < pre.len() && pre[k] == into;
                assert(from[k] == into);
            }
        }
        assert(pre.no_duplicates()) by {
            assert forall|a: int, b: int| 0 <= a < pre.len() && 0 <= b < pre.len() && a != b implies pre[a]
                != pre[b] by {
                assert(from[a] == pre[a] && from[b] == pre[b]);
            }
        }
        assert(!pre.contains(last)) by {
            if pre.contains(last) {
                let k = choose|k: int| 0 <= k < pre.len() && pre[k] == last;
                assert(from[k] == from[from.len() - 1]);
            }
        }
        assert(last != into) by {
            assert(from[from.len() - 1] == last);
        }
        lemma_rows_damage_nonneg(m, pre);
        law_merged_slot_pools_the_history(m, pre, into);
        law_merge_leaves_no_ghost_rows(m, pre, into);
        let prev = merged_all(m, pre, into);
        assert(prev.contains_key(last) == m.contains_key(last));
        assert(m.contains_key(last) ==> prev[last] == m[last]);
    }
}

/// The slots a wave registers: slot 0 when a starting weapon was chosen, and
/// the slot of every equipped weapon.
pub open spec fn registers(starting: Option<WeaponKind>, weapons: Seq<EquippedWeapon>, s: WeaponSlot) -> bool {
    ||| (starting is Some && s == WeaponSlot(0))
    ||| exists|j: int| 0 <= j < weapons.len() && (#[trigger] weapons[j]).slot == s
}

/// What registering a wave's loadout does to a table: exactly the registered
/// slots gain a row, no row's damage changes (so a fresh wave's rows all hold
/// zero), and each equipped slot shows the kind and Evolution of the weapon
/// last listed on it; slot 0 shows the starting weapon unless an equipped
/// weapon sits there.
pub proof fn law_wave_registers_its_loadout(
    m: Map<WeaponSlot, SlotDamage>,
    starting: Option<WeaponKind>,
    weapons: Seq<EquippedWeapon>,
)
    ensures
        forall|s: WeaponSlot|
            #[trigger] registered_all(m, starting, weapons).contains_key(s) <==> (m.contains_key(s) || registers(
                starting,
                weapons,
                s,
            )),
        forall|s: WeaponSlot|
            #[trigger] row_damage(registered_all(m, starting, weapons), s) == row_damage(m, s),
        forall|j: int|
            0 <= j < weapons.len() && (forall|k: int| j < k < weapons.len() ==> weapons[k].slot != weapons[j].slot)
                ==> {
                &&& (#[trigger] registered_all(m, starting, weapons)[weapons[j].slot]).kind == weapons[j].kind
                &&& registered_all(m, starting, weapons)[weapons[j].slot].evolution == shown_evolution(weapons[j])
            },
        starting is Some && (forall|j: int| 0 <= j < weapons.len() ==> weapons[j].slot != WeaponSlot(0)) ==> {
            &&& registered_all(m, starting, weapons)[WeaponSlot(0)].kind == starting->0
            &&& registered_all(m, starting, weapons)[WeaponSlot(0)].evolution is None
        },
    decreases weapons.len(),
{
    let r = registered_all(m, starting, weapons);
    if weapons.len() == 0 {
        assert forall|s: WeaponSlot| #[trigger] r.contains_key(s) <==> (m.contains_key(s) || registers(starting, weapons, s)) by {
        }
        assert forall|s: WeaponSlot| #[trigger] row_damage(r, s) == row_damage(m, s) by {
        }
    } else {
        let pre = weapons.drop_last();
        let w = weapons.last();
        let prev = registered_all(m, starting, pre);
        law_wave_registers_its_loadout(m, starting, pre);
        assert forall|s: WeaponSlot| #[trigger] r.contains_key(s) <==> (m.contains_key(s) || registers(starting, weapons, s)) by {
            assert(prev.contains_key(s) <==> (m.contains_key(s) || registers(starting, pre, s)));
            if registers(starting, weapons, s) && !(starting is Some && s == WeaponSlot(0)) {
                let j = choose|j: int| 0 <= j < weapons.len() && (#[trigger] weapons[j]).slot == s;
                if j < weapons.len() - 1 {
                    assert(pre[j] == weapons[j]);
                }
            }
            if registers(starting, pre, s) && !(starting is Some && s == WeaponSlot(0)) {
                let j = choose|j: int| 0 <= j < pre.len() && (#[trigger] pre[j]).slot == s;
                assert(weapons[j] == pre[j]);
            }
            assert(weapons[weapons.len() - 1] == w);
        }
        assert forall|s: WeaponSlot| #[trigger] row_damage(r, s) == row_damage(m, s) by {
            assert(row_damage(prev, s) == row_damage(m, s));
        }
        assert forall|j: int|
            0 <= j < weapons.len() && (forall|k: int| j < k < weapons.len() ==> weapons[k].slot != weapons[j].slot)
                implies {
                &&& (#[trigger] r[weapons[j].slot]).kind == weapons[j].kind
                &&& r[weapons[j].slot].evolution == shown_evolution(weapons[j])
            } by {
            if j < weapons.len() - 1 {
                assert(weapons[weapons.len() - 1].slot != weapons[j].slot);
                assert(pre[j] == weapons[j]);
                assert forall|k: int| j < k < pre.len() implies pre[k].slot != pre[j].slot by {
                    assert(pre[k] == weapons[k]);
                }
                assert(prev[pre[j].slot].kind == pre[j].kind);
            }
        }
        if starting is Some && (forall|j: int| 0 <= j < weapons.len() ==> weapons[j].slot != WeaponSlot(0)) {
            assert forall|j: int| 0 <= j < pre.len() implies pre[j].slot != WeaponSlot(0) by {
                assert(pre[j] == weapons[j]);
            }
            assert(weapons[weapons.len() - 1].slot != WeaponSlot(0));
        }
    }
}

proof fn lemma_sum_nonneg(s: Seq<Option<SlotDamage>>)
    ensures
        sum_entries(s) >= 0,
    decreases s.len(),
{
    if s.len() > 0 {
        lemma_sum_nonneg(s.drop_last());
    }
}

proof fn lemma_sum_update(s: Seq<Option<SlotDamage>>, i: int, v: Option<SlotDamage>)
    requires
        0 <= i < s.len(),
    ensures
        sum_entries(s.update(i, v)) == sum_entries(s) - entry_damage(s[i]) + entry_damage(v),
    decreases s.len(),
{
    if i == s.len() - 1 {
        assert(s.update(i, v).drop_last() =~= s.drop_last());
    } else {
        lemma_sum_update(s.drop_last(), i, v);
        assert(s.update(i, v).drop_last() =~= s.drop_last().update(i, v));
    }
}

proof fn lemma_entry_le_sum(s: Seq<Option<SlotDamage>>, i: int)
    requires
        0 <= i < s.len(),
    ensures
        entry_damage(s[i]) <= sum_entries(s),
{
    lemma_sum_update(s, i, None);
    lemma_sum_nonneg(s.update(i, None));
}

proof fn lemma_two_entries_le_sum(s: Seq<Option<SlotDamage>>, i: int, j: int)
    requires
        0 <= i < s.len(),
        0 <= j < s.len(),
        i != j,
    ensures
        entry_damage(s[i]) + entry_damage(s[j]) <= sum_entries(s),
{
    lemma_sum_update(s, i, None);
    lemma_entry_le_sum(s.update(i, None), j);
}

proof fn lemma_sum_all_none(s: Seq<Option<SlotDamage>>)
    requires
        forall|i: int| 0 <= i < s.len() ==> s[i] is None,
    ensures
        sum_entries(s) == 0,
    decreases s.len(),
{
    if s.len() > 0 {
        lemma_sum_all_none(s.drop_last());
    }
}

proof fn lemma_sum_bound(s: Seq<Option<SlotDamage>>)
    ensures
        0 <= sum_entries(s) <= s.len() * (u64::MAX as int),
    decreases s.len(),
{
    if s.len() > 0 {
        lemma_sum_bound(s.drop_last());
    }
}

} // verus!
