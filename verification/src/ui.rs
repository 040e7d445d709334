//! What the screens decide: the starting-weapon choice, and the damage
//! summary shown on the upgrade and end screens. Drawing is not here.

use vstd::prelude::*;

use crate::damage::{DamagePeriod, DamageStats, SlotDamage, WeaponSlot};
use crate::upgrade::Evolution;
use crate::weapon::{kind_at, kind_index, StartingWeaponSelected, WeaponKind, MAX_WEAPON_SLOTS};

verus! {

/// The starting-weapon screen: the card in focus, the card selected (the
/// confirm button is enabled only with one), and whether the full upgrade
/// route is expanded.
#[derive(Debug, Clone, Copy, PartialEq, Eq, Structural)]
pub struct StartingWeaponUiState {
    pub focused: WeaponKind,
    pub selected: Option<WeaponKind>,
    pub details_expanded: bool,
}

impl StartingWeaponUiState {
    /// The screen opens focused on the previous Run's weapon (or the first
    /// card), with nothing selected and the route collapsed.
    pub fn open(previous: Option<WeaponKind>) -> (s: StartingWeaponUiState)
        ensures
            s.focused == (match previous {
                Some(k) => k,
                None => WeaponKind::PiercingProjectile,
            }),
            s.selected is None,
            !s.details_expanded,
    {
        let focused = match previous {
            Some(k) => k,
            None => WeaponKind::PiercingProjectile,
        };
        StartingWeaponUiState { focused, selected: None, details_expanded: false }
    }

    /// A card was clicked: it is focused, selected, and its route expanded.
    pub fn click_card(&mut self, kind: WeaponKind)
        ensures
            *final(self) == (StartingWeaponUiState { focused: kind, selected: Some(kind), details_expanded: true }),
    {
        *self = StartingWeaponUiState { focused: kind, selected: Some(kind), details_expanded: true };
    }

    /// The confirm button was pressed: the selected weapon, if any, is
    /// confirmed.
    pub fn press_confirm(&self) -> (sel: Option<StartingWeaponSelected>)
        ensures
            sel == (match self.selected {
                Some(k) => Some(StartingWeaponSelected { kind: k }),
                None => None,
            }),
    {
        match self.selected {
            Some(kind) => Some(StartingWeaponSelected { kind }),
            None => None,
        }
    }

    /// One frame of keyboard input. Left/right move the focus cyclically and
    /// clear the selection; Enter/Space selects the focused card, or confirms
    /// it when it is already selected.
    pub fn keys(&mut self, left: bool, right: bool, confirm: bool) -> (sel: Option<StartingWeaponSelected>)
        ensures
            ({
                let moved = if left {
                    StartingWeaponUiState {
                        focused: kind_at((kind_index(old(self).focused) + 2) % 3),
                        selected: None,
                        details_expanded: false,
                    }
                } else if right {
                    StartingWeaponUiState {
                        focused: kind_at((kind_index(old(self).focused) + 1) % 3),
                        selected: None,
                        details_expanded: false,
                    }
                } else {
                    *old(self)
                };
                if !confirm {
                    &&& *final(self) == moved
                    &&& sel is None
                } else if moved.selected == Some(moved.focused) {
                    &&& *final(self) == moved
                    &&& sel == Some(StartingWeaponSelected { kind: moved.focused })
                } else {
                    &&& *final(self) == (StartingWeaponUiState {
                        selected: Some(moved.focused),
                        details_expanded: true,
                        ..moved
                    })
                    &&& sel is None
                }
            }),
    {
        let kinds = WeaponKind::all();
        let current = self.focused.index();
        if left {
            self.focused = kinds[(current + 2) % 3];
            self.selected = None;
            self.details_expanded = false;
        } else if right {
            self.focused = kinds[(current + 1) % 3];
            self.selected = None;
            self.details_expanded = false;
        }
        if confirm {
            if self.selected == Some(self.focused) {
                return Some(StartingWeaponSelected { kind: self.focused });
            } else {
                self.selected = Some(self.focused);
                self.details_expanded = true;
            }
        }
        None
    }

    /// Whether the confirm button accepts presses.
    pub fn confirm_enabled(&self) -> (b: bool)
        ensures
            b == self.selected is Some,
    {
        self.selected.is_some()
    }
}

/// A slot's share of a period, as the summary prints it.
#[derive(Debug, Clone, Copy, PartialEq, Eq, Structural)]
pub enum DamageShare {
    /// The period holds no damage ("0 伤害 · 0%").
    Empty,
    /// Damage rounded to whole points, and its share of the period's total
    /// in tenths of a percent.
    Share { points: u64, percent_tenths: u128 },
}

/// The share of `damage` in a period whose total is `total`: the damage in
/// whole points rounded half up, and the percentage in tenths rounded half
/// up.
pub open spec fn share_of(total: int, damage: u64) -> DamageShare {
    if total <= 0 {
        DamageShare::Empty
    } else {
        DamageShare::Share {
            points: ((damage + 5) / 10) as u64,
            percent_tenths: ((damage * 1000 * 2 + total) / (2 * total)) as u128,
        }
    }
}

/// `damage`'s share of `period`.
pub fn damage_share(period: &DamagePeriod, damage: u64) -> (share: DamageShare)
    ensures
        share == share_of(period.spec_total(), damage),
{
    if period.total() == 0 {
        DamageShare::Empty
    } else {
        DamageShare::Share {
            points: damage / 10 + if damage % 10 >= 5 { 1 } else { 0 },
            percent_tenths: period.percentage(damage),
        }
    }
}

/// One weapon row of the damage summary.
#[derive(Debug, Clone, Copy, PartialEq, Eq, Structural)]
pub struct SummaryRow {
    pub slot: WeaponSlot,
    pub kind: WeaponKind,
    /// The slot's Evolution once reached; the summary then names it instead
    /// of the base kind.
    pub evolution: Option<Evolution>,
    pub last_wave: DamageShare,
    pub run: DamageShare,
}

/// The damage summary: one row per slot (in slot order, below the slot
/// limit) present in the previous Wave or the Run; the Other row when
/// either holds non-weapon damage; and whether there is nothing to show.
#[derive(Debug)]
pub struct DamageSummary {
    pub rows: Vec<SummaryRow>,
    pub other: Option<(DamageShare, DamageShare)>,
    pub empty: bool,
}

/// The row of slot `s` present in `m`, as an option.
pub open spec fn row_of(m: Map<WeaponSlot, SlotDamage>, s: WeaponSlot) -> Option<SlotDamage> {
    if m.contains_key(s) {
        Some(m[s])
    } else {
        None
    }
}

/// Damage held by an optional row.
pub open spec fn row_damage(r: Option<SlotDamage>) -> u64 {
    match r {
        Some(d) => d.effective_damage,
        None => 0,
    }
}

/// Build the damage summary of `stats`.
pub fn damage_summary(stats: &DamageStats) -> (summary: DamageSummary)
    ensures
        forall|i: int|
            0 <= i < summary.rows@.len() ==> {
                let r = #[trigger] summary.rows@[i];
                &&& r.slot.0 < MAX_WEAPON_SLOTS
                &&& r.last_wave == share_of(stats.last_wave.spec_total(), row_damage(row_of(stats.last_wave@, r.slot)))
                &&& r.run == share_of(stats.run.spec_total(), row_damage(row_of(stats.run@, r.slot)))
                &&& (stats.last_wave@.contains_key(r.slot) || stats.run@.contains_key(r.slot))
                &&& r.kind == (if stats.last_wave@.contains_key(r.slot) {
                    stats.last_wave@[r.slot].kind
                } else {
                    stats.run@[r.slot].kind
                })
                &&& r.evolution == (if stats.last_wave@.contains_key(r.slot) {
                    stats.last_wave@[r.slot].evolution
                } else {
                    stats.run@[r.slot].evolution
                })
            },
        forall|i: int, j: int| 0 <= i < j < summary.rows@.len() ==> summary.rows@[i].slot.0 < summary.rows@[j].slot.0,
        forall|s: u8|
            s < MAX_WEAPON_SLOTS && (stats.last_wave@.contains_key(WeaponSlot(s)) || stats.run@.contains_key(
                WeaponSlot(s),
            )) ==> exists|i: int| 0 <= i < summary.rows@.len() && #[trigger] summary.rows@[i].slot == WeaponSlot(s),
        summary.other is Some <==> (stats.last_wave.other_damage() > 0 || stats.run.other_damage() > 0),
        summary.other matches Some(o) ==> o == (
            share_of(stats.last_wave.spec_total(), stats.last_wave.other_damage()),
            share_of(stats.run.spec_total(), stats.run.other_damage()),
        ),
        summary.empty <==> (summary.rows@.len() == 0 && summary.other is None),
{
    let mut rows: Vec<SummaryRow> = Vec::new();
    let mut index: usize = 0;
    while index < MAX_WEAPON_SLOTS
        invariant
            index <= MAX_WEAPON_SLOTS,
            forall|i: int|
                0 <= i < rows@.len() ==> {
                    let r = #[trigger] rows@[i];
                    &&& r.slot.0 < index
                    &&& r.last_wave == share_of(stats.last_wave.spec_total(), row_damage(row_of(stats.last_wave@, r.slot)))
                    &&& r.run == share_of(stats.run.spec_total(), row_damage(row_of(stats.run@, r.slot)))
                    &&& (stats.last_wave@.contains_key(r.slot) || stats.run@.contains_key(r.slot))
                    &&& r.kind == (if stats.last_wave@.contains_key(r.slot) {
                        stats.last_wave@[r.slot].kind
                    } else {
                        stats.run@[r.slot].kind
                    })
                    &&& r.evolution == (if stats.last_wave@.contains_key(r.slot) {
                        stats.last_wave@[r.slot].evolution
                    } else {
                        stats.run@[r.slot].evolution
                    })
                },
            forall|i: int, j: int| 0 <= i < j < rows@.len() ==> rows@[i].slot.0 < rows@[j].slot.0,
            forall|s: u8|
                s < index && (stats.last_wave@.contains_key(WeaponSlot(s)) || stats.run@.contains_key(
                    WeaponSlot(s),
                )) ==> exists|i: int| 0 <= i < rows@.len() && #[trigger] rows@[i].slot == WeaponSlot(s),
        decreases MAX_WEAPON_SLOTS - index,
    {
        let slot = WeaponSlot(index as u8);
        let last = stats.last_wave.slot(slot);
        let run = stats.run.slot(slot);
        let shown = match last {
            Some(d) => Some(d),
            None => run,
        };
        if let Some(d) = shown {
            let last_damage = match last {
                Some(v) => v.effective_damage,
                None => 0,
            };
            let run_damage = match run {
                Some(v) => v.effective_damage,
                None => 0,
            };
            let row = SummaryRow {
                slot,
                kind: d.kind,
                evolution: d.evolution,
                last_wave: damage_share(&stats.last_wave, last_damage),
                run: damage_share(&stats.run, run_damage),
            };
            let ghost before = rows@;
            rows.push(row);
            proof {
                assert forall|s: u8|
                    s < index + 1 && (stats.last_wave@.contains_key(WeaponSlot(s)) || stats.run@.contains_key(
                        WeaponSlot(s),
                    )) implies exists|i: int| 0 <= i < rows@.len() && #[trigger] rows@[i].slot == WeaponSlot(s) by {
                    if s < index {
                        let i = choose|i: int| 0 <= i < before.len() && #[trigger] before[i].slot == WeaponSlot(s);
                        assert(rows@[i] == before[i]);
                    } else {
                        assert(rows@[rows@.len() - 1].slot == WeaponSlot(s));
                    }
                }
            }
        }
        index += 1;
    }
    let last_other = stats.last_wave.other();
    let run_other = stats.run.other();
    let other = if last_other > 0 || run_other > 0 {
        Some((damage_share(&stats.last_wave, last_other), damage_share(&stats.run, run_other)))
    } else {
        None
    };
    let empty = rows.len() == 0 && other.is_none();
    DamageSummary { rows, other, empty }
}

} // verus!
