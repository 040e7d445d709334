use game_core::combat::{apply_damage, HitOutcome};
use game_core::damage::{DamagePeriod, DamageSource, DamageStats, WeaponSlot};
use game_core::enemy::{Enemy, EnemyKind};
use game_core::ui::{damage_share, damage_summary, DamageShare};
use game_core::upgrade::Evolution;
use game_core::weapon::{EquippedWeapon, WeaponKind};

fn weapon(slot: u8, kind: WeaponKind) -> DamageSource {
    DamageSource::Weapon { slot: WeaponSlot(slot), kind }
}

#[test]
fn other_bucket_accumulates_separately_from_weapon_slots() {
    let mut stats = DamageStats::new();
    stats.record(DamageSource::Other, 70);
    stats.record(weapon(0, WeaponKind::OrbitingOrb), 30);

    assert_eq!(stats.current_wave.other(), 70, "Other stays in its own bucket");
    assert_eq!(stats.run.other(), 70, "Other is tracked on the run total too");
    assert_eq!(stats.current_wave.total(), 100, "total folds in Other");
    assert_eq!(
        stats.current_wave.slot(WeaponSlot(0)).unwrap().effective_damage,
        30,
        "weapon slot is untouched by Other damage"
    );
}

#[test]
fn non_positive_damage_is_not_recorded() {
    let mut stats = DamageStats::new();
    stats.record(DamageSource::Other, 0);
    stats.record(weapon(0, WeaponKind::OrbitingOrb), -40);
    assert_eq!(stats.current_wave.total(), 0);
}

#[test]
fn weapon_damage_contribution_counts_effective_damage_by_slot() {
    let mut stats = DamageStats::new();
    stats.begin_wave(Some(WeaponKind::PiercingProjectile), &Vec::new());
    let mut enemy = Enemy { kind: EnemyKind::MeleeRusher, speed: 0, health: 30, split_depth: 0 };
    let outcome = apply_damage(&mut enemy, 240, weapon(0, WeaponKind::PiercingProjectile), &mut stats);
    assert!(matches!(outcome, HitOutcome::Died { .. }));
    let slot = stats.run.slot(WeaponSlot(0)).expect("selected weapon slot recorded");
    assert_eq!(slot.kind, WeaponKind::PiercingProjectile);
    assert_eq!(slot.effective_damage, 30, "overkill is excluded");
    assert_eq!(stats.run.total(), 30);
}

#[test]
fn duplicate_weapon_kinds_keep_separate_slot_contributions() {
    let mut stats = DamageStats::new();
    let mut enemy = Enemy { kind: EnemyKind::MeleeRusher, speed: 0, health: 1000, split_depth: 0 };
    apply_damage(&mut enemy, 240, weapon(0, WeaponKind::PiercingProjectile), &mut stats);
    apply_damage(&mut enemy, 240, weapon(1, WeaponKind::PiercingProjectile), &mut stats);
    assert_eq!(stats.run.slot(WeaponSlot(0)).unwrap().effective_damage, 240);
    assert_eq!(stats.run.slot(WeaponSlot(1)).unwrap().effective_damage, 240);
}

#[test]
fn damage_stats_snapshot_each_wave_and_preserve_run_total() {
    let mut stats = DamageStats::new();
    stats.begin_wave(Some(WeaponKind::PiercingProjectile), &Vec::new());
    let mut enemy = Enemy { kind: EnemyKind::MeleeRusher, speed: 0, health: 30, split_depth: 0 };
    apply_damage(&mut enemy, 240, weapon(0, WeaponKind::PiercingProjectile), &mut stats);
    stats.mark_wave_completed();
    stats.finish_wave();
    assert_eq!(stats.last_wave.total(), 30);
    assert!(stats.last_wave_completed);
    assert_eq!(stats.run.total(), 30);

    let loadout = vec![EquippedWeapon { slot: WeaponSlot(0), kind: WeaponKind::PiercingProjectile, evolved: false }];
    stats.begin_wave(Some(WeaponKind::PiercingProjectile), &loadout);
    assert_eq!(stats.current_wave.total(), 0);
    assert_eq!(stats.run.total(), 30);
    assert!(!stats.current_wave_completed);
}

#[test]
fn a_dead_enemy_ignores_further_hits() {
    let mut stats = DamageStats::new();
    let mut enemy = Enemy { kind: EnemyKind::SpeedBurster, speed: 0, health: 0, split_depth: 0 };
    let outcome = apply_damage(&mut enemy, 100, DamageSource::Other, &mut stats);
    assert!(matches!(outcome, HitOutcome::Ignored));
    assert_eq!(enemy.health, 0);
    assert_eq!(stats.run.total(), 0);
}

#[test]
fn a_surviving_enemy_records_the_full_hit() {
    let mut stats = DamageStats::new();
    let mut enemy = Enemy { kind: EnemyKind::MeleeRusher, speed: 0, health: 1000, split_depth: 0 };
    let outcome = apply_damage(&mut enemy, 240, weapon(2, WeaponKind::MeleeSwing), &mut stats);
    assert!(matches!(outcome, HitOutcome::Survived));
    assert_eq!(enemy.health, 760, "exactly one 24-damage hit");
    assert_eq!(stats.current_wave.total(), 240);
}

#[test]
fn register_weapon_refreshes_identity_and_keeps_damage() {
    let mut period = DamagePeriod::new();
    period.register_weapon(WeaponSlot(3), WeaponKind::MeleeSwing, None);
    assert_eq!(period.slot(WeaponSlot(3)).unwrap().effective_damage, 0);
    let mut stats = DamageStats::new();
    stats.record(weapon(3, WeaponKind::MeleeSwing), 55);
    stats.run.register_weapon(WeaponSlot(3), WeaponKind::MeleeSwing, Some(Evolution::Whirlwind));
    let row = stats.run.slot(WeaponSlot(3)).unwrap();
    assert_eq!(row.effective_damage, 55);
    assert_eq!(row.evolution, Some(Evolution::Whirlwind));
}

#[test]
fn melee_evolution_folds_merged_slots_run_stats_into_surviving_slot() {
    let mut stats = DamageStats::new();
    stats.record(weapon(0, WeaponKind::MeleeSwing), 600);
    stats.record(weapon(1, WeaponKind::MeleeSwing), 400);
    stats.merge_slots(&vec![WeaponSlot(1)], WeaponSlot(0));
    assert!(stats.run.slot(WeaponSlot(1)).is_none(), "merged-away slot must not leave a ghost summary row");
    assert_eq!(stats.run.slot(WeaponSlot(0)).unwrap().effective_damage, 1000);
    assert_eq!(stats.run.total(), 1000, "merging keeps the total");
    assert_eq!(stats.current_wave.slot(WeaponSlot(0)).unwrap().effective_damage, 1000);
}

#[test]
fn merging_into_an_absent_slot_moves_the_row() {
    let mut stats = DamageStats::new();
    stats.record(weapon(4, WeaponKind::MeleeSwing), 90);
    stats.merge_slots(&vec![WeaponSlot(4)], WeaponSlot(2));
    assert!(stats.run.slot(WeaponSlot(4)).is_none());
    let moved = stats.run.slot(WeaponSlot(2)).unwrap();
    assert_eq!(moved.effective_damage, 90);
    assert_eq!(moved.kind, WeaponKind::MeleeSwing);
}

#[test]
fn rows_come_out_in_slot_order() {
    let mut period = DamagePeriod::new();
    period.register_weapon(WeaponSlot(5), WeaponKind::OrbitingOrb, None);
    period.register_weapon(WeaponSlot(1), WeaponKind::MeleeSwing, None);
    period.register_weapon(WeaponSlot(200), WeaponKind::PiercingProjectile, None);
    let slots: Vec<u8> = period.slots().iter().map(|(s, _)| s.0).collect();
    assert_eq!(slots, vec![1, 5, 200]);
}

#[test]
fn zero_damage_uses_stable_percentage_format() {
    assert_eq!(damage_share(&DamagePeriod::new(), 0), DamageShare::Empty);
}

#[test]
fn percentage_is_rounded_to_a_tenth_of_a_percent() {
    let mut stats = DamageStats::new();
    stats.record(weapon(0, WeaponKind::MeleeSwing), 10);
    stats.record(DamageSource::Other, 20);
    // 10 of 30 = 33.33% -> 333 tenths.
    assert_eq!(stats.run.percentage(10), 333);
    assert_eq!(stats.run.percentage(20), 667);
    assert_eq!(
        damage_share(&stats.run, 10),
        DamageShare::Share { points: 1, percent_tenths: 333 }
    );
    assert_eq!(DamagePeriod::new().percentage(5), 0);
}

#[test]
fn summary_lists_present_slots_and_the_other_row() {
    let mut stats = DamageStats::new();
    assert!(damage_summary(&stats).empty, "nothing to show yet");
    stats.record(weapon(2, WeaponKind::OrbitingOrb), 300);
    stats.record(DamageSource::Other, 100);
    stats.finish_wave();
    let summary = damage_summary(&stats);
    assert!(!summary.empty);
    assert_eq!(summary.rows.len(), 1);
    assert_eq!(summary.rows[0].slot, WeaponSlot(2));
    assert_eq!(summary.rows[0].kind, WeaponKind::OrbitingOrb);
    assert_eq!(summary.rows[0].run, DamageShare::Share { points: 30, percent_tenths: 750 });
    assert_eq!(
        summary.other,
        Some((
            DamageShare::Share { points: 10, percent_tenths: 250 },
            DamageShare::Share { points: 10, percent_tenths: 250 }
        ))
    );
}

#[test]
fn damage_source_names_its_slot() {
    assert_eq!(weapon(3, WeaponKind::MeleeSwing).slot(), Some(WeaponSlot(3)));
    assert_eq!(DamageSource::Other.slot(), None);
}

#[test]
fn an_evolved_slot_is_summarised_under_its_evolution() {
    let mut stats = DamageStats::new();
    stats.run.register_weapon(WeaponSlot(0), WeaponKind::MeleeSwing, Some(Evolution::Whirlwind));
    let summary = damage_summary(&stats);
    assert_eq!(summary.rows.len(), 1);
    assert_eq!(summary.rows[0].kind, WeaponKind::MeleeSwing);
    assert_eq!(summary.rows[0].evolution, Some(Evolution::Whirlwind));
    assert_eq!(summary.rows[0].evolution.unwrap().name(), "旋风刃");
}

#[test]
fn a_lethal_hit_reports_the_death() {
    let mut stats = DamageStats::new();
    let mut enemy = Enemy { kind: EnemyKind::MeleeRusher, speed: 120, health: 30, split_depth: 0 };
    let outcome = apply_damage(&mut enemy, 240, weapon(0, WeaponKind::PiercingProjectile), &mut stats);
    assert!(matches!(outcome, HitOutcome::Died { .. }));
    assert_eq!(stats.run.total(), 30, "overkill is excluded");
}
