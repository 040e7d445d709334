use game_core::economy::Material;
use game_core::enemy::EnemyKind;
use game_core::flow::{GameState, Run, RunOutcome};
use game_core::intent::PurchaseRequest;
use game_core::shop::shop_items;
use game_core::upgrade::{StatMod, UpgradeEffect, UpgradeSelected};
use game_core::damage::{DamageSource, WeaponSlot};
use game_core::waves::WaveConfig;
use game_core::weapon::{StartingWeaponSelected, WeaponKind};

fn run_with(max_waves: u32) -> Run {
    Run::new(WaveConfig { max_waves, spawning: true })
}

fn start_run_with_weapon(run: &mut Run, kind: WeaponKind) {
    assert!(run.start_run());
    assert!(run.choose_starting_weapon(&vec![StartingWeaponSelected { kind }]).is_some());
}

fn pick(run: &mut Run, kind: WeaponKind, option: usize) -> Option<UpgradeEffect> {
    run.pick_upgrade(&vec![UpgradeSelected { kind, option }])
}

fn catalog_index(needle: &str) -> usize {
    shop_items().iter().position(|item| item.name.contains(needle)).expect("item in shop catalog")
}

#[test]
fn starting_weapon_choice_spawns_only_the_selected_slot() {
    let mut run = run_with(5);
    start_run_with_weapon(&mut run, WeaponKind::MeleeSwing);
    assert_eq!(run.state, GameState::InGame);
    let kinds: Vec<_> = run.weapons.iter().map(|w| w.kind).collect();
    assert_eq!(kinds, vec![WeaponKind::MeleeSwing]);
    let slot = run.damage.current_wave.slot(WeaponSlot(0)).expect("zero-damage slot registered");
    assert_eq!(slot.kind, WeaponKind::MeleeSwing);
    assert_eq!(slot.effective_damage, 0);
    assert_eq!(run.damage.current_wave.percentage(0), 0);
}

#[test]
fn upgrade_choice_accepts_only_the_equipped_weapon() {
    let mut run = run_with(5);
    start_run_with_weapon(&mut run, WeaponKind::MeleeSwing);
    run.end_wave(&Vec::new()).expect("wave closes");
    assert_eq!(run.state, GameState::UpgradeChoice);

    assert!(pick(&mut run, WeaponKind::PiercingProjectile, 0).is_none());
    assert_eq!(run.state, GameState::UpgradeChoice);
    assert_eq!(run.levels.level(WeaponKind::PiercingProjectile), 1);

    assert!(pick(&mut run, WeaponKind::MeleeSwing, 0).is_some());
    assert_eq!(run.state, GameState::Shop);
}

#[test]
fn full_flow_reaches_victory_with_expected_state_sequence() {
    let mut run = run_with(3);
    let mut states = vec![run.state];
    assert!(run.start_run());
    states.push(run.state);
    run.choose_starting_weapon(&vec![StartingWeaponSelected { kind: WeaponKind::PiercingProjectile }]);
    states.push(run.state);
    let mut run_started = 0;
    for _ in 0..3 {
        let closed = run.end_wave(&Vec::new()).expect("a wave was running");
        states.push(run.state);
        if closed.ended.is_some() {
            assert_eq!(closed.ended.unwrap().outcome, RunOutcome::Victory);
            break;
        }
        pick(&mut run, WeaponKind::PiercingProjectile, 0).expect("mandatory pick taken");
        states.push(run.state);
        let begun = run.continue_to_next_wave().expect("back to the wave");
        if begun.run_started.is_some() {
            run_started += 1;
        }
        states.push(run.state);
    }
    assert_eq!(run.state, GameState::Victory, "3-wave run should end in Victory");
    assert_eq!(
        states,
        vec![
            GameState::MainMenu,
            GameState::StartingWeaponChoice,
            GameState::InGame,
            GameState::UpgradeChoice,
            GameState::Shop,
            GameState::InGame,
            GameState::UpgradeChoice,
            GameState::Shop,
            GameState::InGame,
            GameState::Victory,
        ]
    );
    assert_eq!(run_started, 0, "RunStarted only on the first wave");
    assert!(run.player.is_none(), "the player is removed on Victory");
}

#[test]
fn wave_lifecycle_events_and_loadout_persistence() {
    let mut run = run_with(3);
    run.start_run();
    let first = run
        .choose_starting_weapon(&vec![StartingWeaponSelected { kind: WeaponKind::PiercingProjectile }])
        .unwrap();
    assert!(first.run_started.is_some(), "exactly one RunStarted for the run");
    let mut starts = vec![first.started.number];
    let mut completes = vec![];
    loop {
        let closed = run.end_wave(&Vec::new()).unwrap();
        completes.push(closed.completed.number);
        if closed.ended.is_some() {
            break;
        }
        pick(&mut run, WeaponKind::PiercingProjectile, 0);
        assert_eq!(run.weapons.len(), 1, "starting loadout granted exactly once");
        let begun = run.continue_to_next_wave().unwrap();
        assert!(begun.run_started.is_none());
        assert_eq!(run.weapons.len(), 1, "no re-grant on re-entry");
        starts.push(begun.started.number);
    }
    assert_eq!(starts, vec![1, 2, 3], "waves ascend from 1");
    assert_eq!(completes, vec![1, 2, 3], "each wave completes (the last, then Victory)");
}

#[test]
fn wave_end_heals_half_of_max_hp() {
    let mut run = run_with(3);
    start_run_with_weapon(&mut run, WeaponKind::PiercingProjectile);
    run.player.as_mut().unwrap().health.current = 400;
    run.end_wave(&Vec::new()).unwrap();
    assert_eq!(run.state, GameState::UpgradeChoice, "wave 1 completed");
    let health = run.player.unwrap().health;
    assert_eq!(health.max, 1000);
    assert_eq!(health.current, 900, "wave end recovers 50% of max HP");
}

#[test]
fn wave_end_recovery_never_exceeds_max() {
    let mut run = run_with(3);
    start_run_with_weapon(&mut run, WeaponKind::PiercingProjectile);
    run.player.as_mut().unwrap().health.current = 800;
    run.end_wave(&Vec::new()).unwrap();
    assert_eq!(run.player.unwrap().health.current, 1000);
}

#[test]
fn wave_end_vacuums_all_remaining_materials_into_the_wallet() {
    let mut run = run_with(3);
    start_run_with_weapon(&mut run, WeaponKind::PiercingProjectile);
    let remaining = vec![Material { value: 1 }, Material { value: 1 }, Material { value: 1 }];
    let closed = run.end_wave(&remaining).unwrap();
    assert_eq!(run.state, GameState::UpgradeChoice, "wave 1 completed");
    assert_eq!(run.materials.count, 3, "wave end vacuum credited every remaining material");
    let pickups: Vec<u32> = closed.pickups.iter().map(|p| p.amount).collect();
    assert_eq!(pickups, vec![1, 1, 1], "vacuum announced each pickup");
}

#[test]
fn shop_purchase_deducts_applies_and_rejects() {
    let mut run = run_with(5);
    start_run_with_weapon(&mut run, WeaponKind::PiercingProjectile);
    run.end_wave(&Vec::new()).unwrap();
    pick(&mut run, WeaponKind::PiercingProjectile, 0).unwrap();
    assert_eq!(run.state, GameState::Shop);

    run.materials.count = 30;
    let titan = catalog_index("泰坦之心");
    let titan_cost = shop_items()[titan].cost;
    let bought = run.purchase(&vec![PurchaseRequest { item_index: titan }]);
    assert_eq!(bought.len(), 1);
    assert_eq!((bought[0].item_index, bought[0].cost), (titan, titan_cost));
    assert_eq!(run.materials.count, 10, "cost deducted");
    let player = run.player.unwrap();
    assert_eq!(player.stats.max_hp_bonus, 250, "stat boost applied");
    assert_eq!(player.health.max, 1250, "max HP raised by the boost");
    assert_eq!(player.health.current, 1250, "current HP rises by the same amount as max");

    run.materials.count = 5;
    let sharpened = catalog_index("磨砺之刃");
    let bought = run.purchase(&vec![PurchaseRequest { item_index: sharpened }]);
    assert!(bought.is_empty(), "no ItemPurchased for a rejected request");
    assert_eq!(run.materials.count, 5, "rejected purchase must not deduct");
    let stats = run.player.unwrap().stats;
    assert_eq!(stats.damage_pct, 100, "rejected boost not applied");
    assert_eq!(stats.max_hp_bonus, 250, "earlier purchase intact");
    assert_eq!(stats.speed_pct, 100, "no cross-item leakage");

    let bought = run.purchase(&vec![PurchaseRequest { item_index: 99 }]);
    assert!(bought.is_empty());
    assert_eq!(run.materials.count, 5);
}

#[test]
fn purchases_outside_the_shop_are_ignored() {
    let mut run = run_with(5);
    start_run_with_weapon(&mut run, WeaponKind::PiercingProjectile);
    run.materials.count = 100;
    assert!(run.purchase(&vec![PurchaseRequest { item_index: 0 }]).is_empty());
    assert_eq!(run.materials.count, 100);
}

#[test]
fn contact_damage_is_gated_by_invulnerability_and_scales_by_kind() {
    let mut run = run_with(5);
    start_run_with_weapon(&mut run, WeaponKind::PiercingProjectile);
    let rusher = vec![EnemyKind::MeleeRusher];
    let report = run.contact(true, &rusher);
    assert_eq!(report.hurt.unwrap().amount, 100, "MeleeRusher deals 10 per hit");
    assert_eq!(report.hurt.unwrap().hp_after, 900);
    let report = run.contact(false, &rusher);
    assert!(report.hurt.is_none(), "gated by the invulnerability window");
    let report = run.contact(true, &vec![EnemyKind::SpeedBurster, EnemyKind::MeleeRusher]);
    assert_eq!(report.hurt.unwrap().amount, 60, "SpeedBurster deals 6 per hit; one hit per window");
    assert_eq!(run.player.unwrap().health.current, 840);
}

#[test]
fn defeat_returns_to_menu_and_resets_the_run() {
    let mut run = run_with(20);
    start_run_with_weapon(&mut run, WeaponKind::OrbitingOrb);
    run.damage.record(DamageSource::Other, 700);
    run.materials.count = 7;
    assert!(run.damage.run.total() > 0, "first run must contain damage before reset");

    let mut defeated = false;
    for _ in 0..20 {
        let report = run.contact(true, &vec![EnemyKind::MeleeRusher]);
        if let Some(ended) = report.ended {
            assert_eq!(ended.outcome, RunOutcome::Defeat, "RunEnded(Defeat) must be announced");
            defeated = true;
            break;
        }
    }
    assert!(defeated, "player should die");
    assert_eq!(run.state, GameState::Defeat);

    assert!(run.start_run());
    assert_eq!(run.state, GameState::StartingWeaponChoice);
    assert_eq!(run.materials.count, 0, "wallet reset");
    assert_eq!(run.wave.number, 1, "wave counter reset");
    assert_eq!(run.damage.current_wave.total(), 0, "current wave reset");
    assert_eq!(run.damage.last_wave.total(), 0, "wave snapshot reset");
    assert_eq!(run.damage.run.total(), 0, "run damage reset");

    run.choose_starting_weapon(&vec![StartingWeaponSelected { kind: WeaponKind::OrbitingOrb }]);
    assert_eq!(run.state, GameState::InGame);
    assert_eq!(run.player.unwrap().health.current, 1000, "fresh player spawned");
}

#[test]
fn end_screen_returns_to_the_menu_with_an_empty_wallet() {
    let mut run = run_with(1);
    start_run_with_weapon(&mut run, WeaponKind::MeleeSwing);
    run.end_wave(&vec![Material { value: 1 }]).unwrap();
    assert_eq!(run.state, GameState::Victory);
    assert_eq!(run.materials.count, 1);
    assert!(run.return_to_menu());
    assert_eq!(run.state, GameState::MainMenu);
    assert_eq!(run.materials.count, 0);
    assert!(!run.return_to_menu(), "only from an end screen");
}

#[test]
fn melee_upgrade_adds_independent_weapon_slot_with_shared_stats() {
    let mut run = run_with(5);
    start_run_with_weapon(&mut run, WeaponKind::MeleeSwing);
    run.end_wave(&Vec::new()).unwrap();
    let effect = pick(&mut run, WeaponKind::MeleeSwing, 1).expect("extra melee weapon");
    match effect {
        UpgradeEffect::Stat { effect, new_slot, phased, .. } => {
            assert_eq!(effect, StatMod::AdditionalWeapon);
            assert_eq!(new_slot, Some(WeaponSlot(1)));
            assert_eq!(phased, vec![WeaponSlot(0)], "the existing blade re-phases first");
        }
        other => panic!("unexpected effect {other:?}"),
    }
    let slots: Vec<_> = run.weapons.iter().map(|w| w.slot).collect();
    assert_eq!(slots, vec![WeaponSlot(0), WeaponSlot(1)]);
}

#[test]
fn melee_lv6_evolution_merges_all_melee_slots_into_one_whirlwind() {
    let mut run = run_with(10);
    start_run_with_weapon(&mut run, WeaponKind::MeleeSwing);
    run.end_wave(&Vec::new()).unwrap();
    pick(&mut run, WeaponKind::MeleeSwing, 1).unwrap();
    run.continue_to_next_wave().unwrap();
    run.damage.record(DamageSource::Weapon { slot: WeaponSlot(0), kind: WeaponKind::MeleeSwing }, 600);
    run.damage.record(DamageSource::Weapon { slot: WeaponSlot(1), kind: WeaponKind::MeleeSwing }, 400);
    run.end_wave(&Vec::new()).unwrap();
    run.levels.set_level(WeaponKind::MeleeSwing, 7);
    let effect = pick(&mut run, WeaponKind::MeleeSwing, 0).expect("evolution taken");
    match effect {
        UpgradeEffect::Evolve { keep, merged_away, .. } => {
            assert_eq!(keep, Some(WeaponSlot(0)));
            assert_eq!(merged_away, vec![WeaponSlot(1)]);
        }
        other => panic!("unexpected effect {other:?}"),
    }
    assert_eq!(run.state, GameState::Shop);
    assert_eq!(run.weapons.len(), 1, "all melee instances merge into one");
    assert!(run.weapons[0].evolved, "the merged weapon is the evolved one");
    assert!(run.damage.run.slot(WeaponSlot(1)).is_none());
    assert_eq!(run.damage.run.slot(WeaponSlot(0)).unwrap().effective_damage, 1000);
    assert_eq!(run.levels.level(WeaponKind::MeleeSwing), 8);
}

#[test]
fn upgrade_choice_flow_and_stat_application() {
    let mut run = run_with(5);
    start_run_with_weapon(&mut run, WeaponKind::PiercingProjectile);
    run.end_wave(&Vec::new()).unwrap();
    assert_eq!(run.state, GameState::UpgradeChoice, "wave end must open UpgradeChoice, not Shop");
    let effect = pick(&mut run, WeaponKind::PiercingProjectile, 1).unwrap();
    assert!(
        matches!(effect, UpgradeEffect::Stat { effect: StatMod::AttackSpeed(15), .. }),
        "cooldown -15% applied"
    );
    assert_eq!(run.state, GameState::Shop, "the pick confirms into the Shop");
    assert_eq!(run.levels.level(WeaponKind::PiercingProjectile), 2, "level incremented");
    assert_eq!(run.levels.level(WeaponKind::MeleeSwing), 1, "other paths untouched");

    run.continue_to_next_wave().unwrap();
    run.end_wave(&Vec::new()).unwrap();
    let effect = pick(&mut run, WeaponKind::PiercingProjectile, 0).unwrap();
    assert!(matches!(effect, UpgradeEffect::Stat { effect: StatMod::ProjectileSpeed(120), .. }));
    assert_eq!(run.levels.level(WeaponKind::PiercingProjectile), 3);
    assert_eq!(run.levels.level(WeaponKind::MeleeSwing), 1, "unowned path remains untouched");
}

#[test]
fn only_the_first_acceptable_pick_of_a_wave_counts() {
    let mut run = run_with(5);
    start_run_with_weapon(&mut run, WeaponKind::OrbitingOrb);
    run.end_wave(&Vec::new()).unwrap();
    let requests = vec![
        UpgradeSelected { kind: WeaponKind::OrbitingOrb, option: 5 },
        UpgradeSelected { kind: WeaponKind::OrbitingOrb, option: 1 },
        UpgradeSelected { kind: WeaponKind::OrbitingOrb, option: 0 },
    ];
    let effect = run.pick_upgrade(&requests).unwrap();
    assert!(matches!(effect, UpgradeEffect::Stat { effect: StatMod::OrbitSpeed(120), .. }));
    assert_eq!(run.levels.level(WeaponKind::OrbitingOrb), 2, "exactly one level per wave");
}

#[test]
fn a_maxed_loadout_skips_the_pick() {
    let mut run = run_with(5);
    start_run_with_weapon(&mut run, WeaponKind::OrbitingOrb);
    run.end_wave(&Vec::new()).unwrap();
    run.levels.set_level(WeaponKind::OrbitingOrb, 8);
    assert!(run.pick_upgrade(&Vec::new()).is_none());
    assert_eq!(run.state, GameState::Shop, "nothing left to offer: straight to the shop");
}

#[test]
fn non_melee_evolution_marks_the_weapon() {
    let mut run = run_with(5);
    start_run_with_weapon(&mut run, WeaponKind::PiercingProjectile);
    run.end_wave(&Vec::new()).unwrap();
    run.levels.set_level(WeaponKind::PiercingProjectile, 7);
    let effect = pick(&mut run, WeaponKind::PiercingProjectile, 9).unwrap();
    assert!(matches!(effect, UpgradeEffect::Evolve { keep: None, .. }));
    assert!(run.weapons[0].evolved);
    assert_eq!(run.weapons[0].slot, WeaponSlot(0));
}

#[test]
fn actions_outside_their_state_are_ignored() {
    let mut run = run_with(5);
    assert!(run.end_wave(&Vec::new()).is_none());
    assert!(run.continue_to_next_wave().is_none());
    assert!(run.choose_starting_weapon(&vec![StartingWeaponSelected { kind: WeaponKind::MeleeSwing }]).is_none());
    assert!(run.pick_upgrade(&vec![UpgradeSelected { kind: WeaponKind::MeleeSwing, option: 0 }]).is_none());
    assert!(run.contact(true, &vec![EnemyKind::Splitter]).hurt.is_none());
    assert_eq!(run.state, GameState::MainMenu);
    run.start_run();
    assert!(!run.start_run(), "a Run is already being set up");
    assert!(run.choose_starting_weapon(&Vec::new()).is_none());
    assert_eq!(run.state, GameState::StartingWeaponChoice);
}

#[test]
fn shop_item_extends_the_attraction_radius() {
    let mut run = run_with(5);
    start_run_with_weapon(&mut run, WeaponKind::MeleeSwing);
    run.end_wave(&Vec::new()).unwrap();
    pick(&mut run, WeaponKind::MeleeSwing, 0).unwrap();
    assert_eq!(run.state, GameState::Shop);
    run.materials.count = 30;
    let magnet = catalog_index("Magnet Arm");
    let magnet_cost = shop_items()[magnet].cost;
    let bought = run.purchase(&vec![PurchaseRequest { item_index: magnet }]);
    assert_eq!(bought.len(), 1);
    assert_eq!(
        run.player.unwrap().stats.attraction_radius,
        50,
        "Magnet Arm raised the attraction radius from 26 to 50"
    );
    assert_eq!(run.materials.count, 30 - magnet_cost);
}

#[test]
fn a_hit_lowers_health_and_leaves_the_loadout_and_statistics() {
    let mut run = run_with(5);
    start_run_with_weapon(&mut run, WeaponKind::MeleeSwing);
    run.damage.record(DamageSource::Weapon { slot: WeaponSlot(0), kind: WeaponKind::MeleeSwing }, 50);
    let report = run.contact(true, &vec![EnemyKind::Splitter]);
    assert_eq!(report.hurt.unwrap().hp_after, 920);
    assert!(report.ended.is_none());
    assert_eq!(run.player.unwrap().health.current, 920);
    assert_eq!(run.player.unwrap().health.max, 1000);
    assert_eq!(run.weapons.len(), 1);
    assert_eq!(run.damage.run.slot(WeaponSlot(0)).unwrap().effective_damage, 50);
    assert_eq!(run.damage.current_wave.total(), 50);

    while run.contact(true, &vec![EnemyKind::MeleeRusher]).ended.is_none() {}
    assert_eq!(run.state, GameState::Defeat);
    assert!(run.player.is_none());
    assert!(run.weapons.is_empty());
    assert_eq!(run.damage.run.total(), 50, "the Run's statistics survive the defeat screen");
    assert_eq!(run.damage.last_wave.total(), 50, "the lost wave becomes the snapshot");
}
