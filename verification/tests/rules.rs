use game_core::ai::{ai_purchases, ai_upgrade, AiBuild};
use game_core::background::{cell_value, splitmix64, wave_seed};
use game_core::combat::{apply_damage, resolve_contact, scaled_damage, HitOutcome, BOMBER_AOE_DAMAGE_PERCENT, SHARD_DAMAGE_PERCENT};
use game_core::damage::{DamageSource, DamageStats, WeaponSlot};
use game_core::economy::{drop_for_death, Material, Materials, MATERIAL_VALUE};
use game_core::flow::{GameState, Run};
use game_core::enemy::{enemy_for_wave, splitter_children, Enemy, EnemyKind, SPLITTER_DEPTH};
use game_core::intent::{KeyboardIntentPlugin, MoveDirection, PurchaseRequest};
use game_core::orbs::{needs_rephase, orb_ordinal, orbs_to_spawn, total_orbs, OrbId, OrbRequest};
use game_core::player::{Health, PlayerStats, BASE_ATTRACTION_RADIUS};
use game_core::rng::{GlobalRng, Seed};
use game_core::shop::{process_purchases, shop_item, shop_items, ItemEffect};
use game_core::ui::StartingWeaponUiState;
use game_core::upgrade::{evolution_for, path_for, pooled_damage, upgrade_offer, Evolution, StatMod, UpgradeOffer, WeaponLevels};
use game_core::waves::{resolve_max_waves, spawn_enemy, MaxWaves, WaveConfig, WaveCountArg};
use game_core::weapon::{attack_mode, spin_sign, AttackMode, StartingWeapon, StartingWeaponSelected, Weapon, WeaponKind};

fn orb_weapon(slot: u8) -> DamageSource {
    DamageSource::Weapon { slot: WeaponSlot(slot), kind: WeaponKind::OrbitingOrb }
}

/// Play wave 1 of a seeded Run: `count` spawns while the wave runs, then the
/// wave's end. Returns the spawned kinds and every state the Run went through.
fn seeded_first_wave(seed: u64, count: usize) -> (Vec<EnemyKind>, Vec<GameState>) {
    let mut rng = GlobalRng::from_seed(Seed(seed));
    let mut run = Run::new(WaveConfig { max_waves: 5, spawning: true });
    let mut states = vec![run.state];
    assert!(run.start_run());
    states.push(run.state);
    run.choose_starting_weapon(&vec![StartingWeaponSelected { kind: WeaponKind::OrbitingOrb }])
        .expect("the first wave begins");
    states.push(run.state);
    let mut spawns = Vec::new();
    while spawns.len() < count && run.state == GameState::InGame {
        spawns.push(spawn_enemy(&mut rng, run.wave.number).1.kind);
    }
    run.end_wave(&Vec::new()).expect("wave 1 closes");
    states.push(run.state);
    (spawns, states)
}

#[test]
fn economy_loop_kill_drop_pickup() {
    let mut stats = DamageStats::new();
    let mut rusher = enemy_for_wave(0, 1);
    let mut wallet = Materials::new();
    let mut deaths = Vec::new();
    let mut pickups = Vec::new();

    match apply_damage(&mut rusher, Weapon::new(WeaponKind::OrbitingOrb).damage, orb_weapon(0), &mut stats) {
        HitOutcome::Died { died, children } => {
            assert!(children.is_empty());
            deaths.push(died.kind);
            pickups.push(wallet.pick_up(drop_for_death()).amount);
        }
        _ => panic!("one orb hit kills a wave-1 rusher"),
    }

    assert_eq!(wallet.count, 1, "pickup credited the wallet");
    assert_eq!(deaths, vec![EnemyKind::MeleeRusher], "enemy died exactly once");
    assert_eq!(pickups, vec![1], "one material of value 1 was picked up");
}

#[test]
fn splitter_death_splits_twice_then_stops() {
    let mut stats = DamageStats::new();
    let source = DamageSource::Weapon { slot: WeaponSlot(0), kind: WeaponKind::MeleeSwing };
    let mut field = vec![enemy_for_wave(2, 1)];
    assert_eq!(field[0].split_depth, SPLITTER_DEPTH);
    let mut spawns = Vec::new();
    let mut deaths = Vec::new();
    let mut first_gen_checked = false;

    while let Some(mut enemy) = field.pop() {
        if let HitOutcome::Died { died, children } = apply_damage(&mut enemy, 1000, source, &mut stats) {
            deaths.push(died.kind);
            if !first_gen_checked {
                assert_eq!(children.len(), 2, "first split yields exactly 2 children");
                assert!(children.iter().all(|e| e.split_depth == 1), "children are one split-depth lower");
                first_gen_checked = true;
            }
            for child in children {
                spawns.push(child.kind);
                field.push(child);
            }
        }
    }

    assert_eq!(spawns.len(), 6, "2 children + 4 grandchildren, then the chain stops");
    assert!(spawns.iter().all(|k| *k == EnemyKind::Splitter));
    assert_eq!(deaths.len(), 7, "parent + 6 descendants die");
    assert!(deaths.iter().all(|k| *k == EnemyKind::Splitter));
    assert!(first_gen_checked, "first-generation split was observed");
}

#[test]
fn same_seed_produces_identical_spawn_streams() {
    let (a_spawns, a_states) = seeded_first_wave(42, 30);
    let (b_spawns, b_states) = seeded_first_wave(42, 30);
    let (c_spawns, _) = seeded_first_wave(43, 30);
    assert!(!a_spawns.is_empty(), "wave 1 should spawn enemies");
    assert_eq!(a_spawns, b_spawns, "same seed must replay identically");
    assert_eq!(a_states, b_states);
    assert_eq!(
        a_states,
        vec![GameState::MainMenu, GameState::StartingWeaponChoice, GameState::InGame, GameState::UpgradeChoice]
    );
    assert_ne!(a_spawns, c_spawns, "different seeds should (over ~30 spawns) diverge");
}

#[test]
fn spawned_enemies_carry_their_wave_stats() {
    let mut rng = GlobalRng::from_seed(Seed(7));
    for _ in 0..50 {
        let (enemy, spawned) = spawn_enemy(&mut rng, 4);
        assert_eq!(spawned.kind, enemy.kind);
        let expected = match enemy.kind {
            EnemyKind::MeleeRusher => enemy_for_wave(0, 4),
            EnemyKind::SpeedBurster => enemy_for_wave(1, 4),
            EnemyKind::Splitter => enemy_for_wave(2, 4),
        };
        assert_eq!(enemy, expected);
    }
}

#[test]
fn random_draws_stay_below_their_bound() {
    let mut rng = GlobalRng::from_seed(Seed(42));
    let draws: Vec<u32> = (0..200).map(|_| rng.below(5)).collect();
    assert!(draws.iter().all(|d| *d < 5));
    assert!(draws.iter().any(|d| *d != draws[0]), "draws are not one constant");
}

#[test]
fn enemy_stats_grow_with_the_wave() {
    assert_eq!(
        enemy_for_wave(0, 1),
        Enemy { kind: EnemyKind::MeleeRusher, speed: 128, health: 320, split_depth: 0 }
    );
    assert_eq!(
        enemy_for_wave(1, 3),
        Enemy { kind: EnemyKind::SpeedBurster, speed: 218, health: 210, split_depth: 0 }
    );
    assert_eq!(
        enemy_for_wave(2, 10),
        Enemy { kind: EnemyKind::Splitter, speed: 200, health: 600, split_depth: 2 }
    );
    assert_eq!(enemy_for_wave(9, 10).kind, EnemyKind::Splitter);
}

#[test]
fn a_leaf_splitter_leaves_no_children() {
    assert!(splitter_children(0).is_empty());
    let children = splitter_children(2);
    assert_eq!(children.len(), 2);
    assert!(children.iter().all(|c| c.kind == EnemyKind::Splitter && c.health == 150 && c.speed == 150));
}

#[test]
fn contact_damage_scales_by_kind() {
    let mut health = Health::full();
    let first = resolve_contact(&mut health, true, &vec![EnemyKind::SpeedBurster, EnemyKind::MeleeRusher]);
    assert_eq!(first.hurt.map(|h| h.amount), Some(60));
    assert_eq!(health.current, 940);
    let blocked = resolve_contact(&mut health, false, &vec![EnemyKind::MeleeRusher]);
    assert!(blocked.hurt.is_none());
    assert_eq!(health.current, 940);
    let nobody = resolve_contact(&mut health, true, &Vec::new());
    assert!(nobody.hurt.is_none());
    let mut low = Health { max: 1000, current: 80 };
    let fatal = resolve_contact(&mut low, true, &vec![EnemyKind::Splitter]);
    assert!(fatal.defeated);
    assert_eq!(low.current, 0);
}

#[test]
fn orbit_orbs_alternate_spin_direction_and_ordinal() {
    let requests = vec![OrbRequest { slot: WeaponSlot(0), count: 3 }];
    let spawn = orbs_to_spawn(&requests, &Vec::new());
    let ordinals: Vec<u32> = spawn.iter().map(|(_, ordinal)| *ordinal).collect();
    assert_eq!(ordinals, vec![0, 1, 2]);
    let spins: Vec<i8> = ordinals.iter().map(|o| spin_sign(*o)).collect();
    assert_eq!(spins, vec![1, -1, 1], "even ordinals spin counter-clockwise, odd ones clockwise");
    assert!(spins[0] * spins[1] < 0 && spins[1] * spins[2] < 0);
}

#[test]
fn added_orbs_fill_only_the_missing_ordinals() {
    let requests = vec![
        OrbRequest { slot: WeaponSlot(1), count: 2 },
        OrbRequest { slot: WeaponSlot(3), count: 2 },
    ];
    assert_eq!(total_orbs(&requests), 4);
    let present = vec![
        OrbId { slot: WeaponSlot(1), index: 0 },
        OrbId { slot: WeaponSlot(3), index: 1 },
    ];
    let spawn = orbs_to_spawn(&requests, &present);
    assert_eq!(
        spawn,
        vec![(OrbId { slot: WeaponSlot(1), index: 1 }, 1), (OrbId { slot: WeaponSlot(3), index: 0 }, 2)]
    );
    assert!(needs_rephase(0, 2, 4));
    assert!(!needs_rephase(1, 2, 4));
    assert!(!needs_rephase(0, 4, 4));
}

#[test]
fn weapon_profiles_start_at_level_one() {
    let melee = Weapon::new(WeaponKind::MeleeSwing);
    assert_eq!((melee.cooldown_ms, melee.damage, melee.range), (700, 400, 105));
    let shot = Weapon::new(WeaponKind::PiercingProjectile);
    assert_eq!((shot.cooldown_ms, shot.damage, shot.projectile_speed, shot.range), (600, 240, 420, 900));
    let orb = Weapon::new(WeaponKind::OrbitingOrb);
    assert_eq!((orb.damage, orb.orbit_speed, orb.orbit_radius, orb.orb_count), (700, 10, 100, 1));
    assert_eq!(WeaponKind::MeleeSwing.knockback(), 150);
    assert_eq!(WeaponKind::OrbitingOrb.display_name(), "环绕球");
}

#[test]
fn upgrade_paths_follow_the_fixed_table() {
    let melee = path_for(WeaponKind::MeleeSwing);
    assert_eq!(melee.levels[0][1].effect, StatMod::AdditionalWeapon);
    assert_eq!(melee.levels[0][1].label, "额外近战 +1");
    assert_eq!(melee.levels[0][0].effect, StatMod::AttackSpeed(15));
    assert_eq!(melee.levels[1][1].effect, StatMod::Range(120));
    assert_eq!(melee.levels[1][1].label, "范围 +20%");
    assert_eq!(melee.evolution, Evolution::Whirlwind);
    let shot = path_for(WeaponKind::PiercingProjectile);
    assert_eq!(shot.levels[0][1].label, "攻速 +15%");
    assert_eq!(shot.levels[0][0].label, "射程 +15%");
    assert_eq!(shot.levels[1][0].effect, StatMod::ProjectileSpeed(120));
    let orb = path_for(WeaponKind::OrbitingOrb);
    assert_eq!(orb.levels[3][0].effect, StatMod::AdditionalOrb);
    assert_eq!(orb.levels[5][0].label, "半径 +25%");
    assert_eq!(evolution_for(WeaponKind::OrbitingOrb).name(), "自爆卫星");
}

#[test]
fn weapon_levels_clamp_to_the_path() {
    let mut levels = WeaponLevels::new();
    assert_eq!(levels.level(WeaponKind::MeleeSwing), 1);
    levels.set_level(WeaponKind::MeleeSwing, 12);
    assert_eq!(levels.level(WeaponKind::MeleeSwing), 8);
    assert!(levels.maxed(WeaponKind::MeleeSwing));
    levels.set_level(WeaponKind::OrbitingOrb, 0);
    assert_eq!(levels.level(WeaponKind::OrbitingOrb), 1);
    assert_eq!(levels.level(WeaponKind::PiercingProjectile), 1);
}

#[test]
fn ai_follows_its_build_until_the_path_is_maxed() {
    let build = AiBuild { weapon: WeaponKind::MeleeSwing, upgrade_options: [1, 0, 1, 0], buy_items: true };
    let starting = StartingWeapon { selected: Some(WeaponKind::MeleeSwing) };
    let mut levels = WeaponLevels::new();
    assert_eq!(ai_upgrade(&levels, &build, &starting).map(|p| p.option), Some(1));
    levels.set_level(WeaponKind::MeleeSwing, 3);
    assert_eq!(ai_upgrade(&levels, &build, &starting).map(|p| p.option), Some(1));
    levels.set_level(WeaponKind::MeleeSwing, 6);
    assert_eq!(ai_upgrade(&levels, &build, &starting).map(|p| p.option), Some(0));
    levels.set_level(WeaponKind::MeleeSwing, 8);
    assert!(ai_upgrade(&levels, &build, &starting).is_none());
    assert!(ai_upgrade(&levels, &build, &StartingWeapon { selected: None }).is_none());

    let wishes: Vec<usize> = ai_purchases(&build).iter().map(|r| r.item_index).collect();
    assert_eq!(wishes, vec![2, 0, 1]);
    assert!(ai_purchases(&AiBuild { buy_items: false, ..AiBuild::new() }).is_empty());
}

#[test]
fn shop_catalog_lists_four_boosts() {
    let items = shop_items();
    assert_eq!(items.len(), 4);
    assert_eq!(items.iter().map(|i| i.cost).collect::<Vec<_>>(), vec![15, 12, 20, 18]);
    assert_eq!(items[2].effect, ItemEffect::MaxHp(250));
    assert_eq!(items[3].effect, ItemEffect::AttractionRadius(24));
    assert!(items[0].name.contains("磨砺之刃"));
    assert!(shop_item(4).is_none());
    let _ = PurchaseRequest { item_index: 4 };
}

#[test]
fn keyboard_direction_cancels_opposite_keys() {
    assert_eq!(KeyboardIntentPlugin::direction(true, false, false, true), MoveDirection { x: 1, y: 1 });
    assert_eq!(KeyboardIntentPlugin::direction(true, true, true, true), MoveDirection { x: 0, y: 0 });
    assert_eq!(KeyboardIntentPlugin::direction(false, true, true, false), MoveDirection { x: -1, y: -1 });
}

#[test]
fn starting_weapon_screen_cycles_selects_and_confirms() {
    let mut ui = StartingWeaponUiState::open(Some(WeaponKind::OrbitingOrb));
    assert_eq!(ui.focused, WeaponKind::OrbitingOrb);
    assert!(!ui.confirm_enabled());
    assert!(ui.keys(false, true, false).is_none());
    assert_eq!(ui.focused, WeaponKind::PiercingProjectile);
    assert!(ui.keys(true, false, false).is_none());
    assert_eq!(ui.focused, WeaponKind::OrbitingOrb);
    assert!(ui.keys(false, false, true).is_none());
    assert_eq!(ui.selected, Some(WeaponKind::OrbitingOrb));
    assert!(ui.details_expanded);
    assert_eq!(ui.keys(false, false, true), Some(StartingWeaponSelected { kind: WeaponKind::OrbitingOrb }));
    ui.click_card(WeaponKind::MeleeSwing);
    assert_eq!(ui.press_confirm(), Some(StartingWeaponSelected { kind: WeaponKind::MeleeSwing }));
    assert!(StartingWeaponUiState::open(None).press_confirm().is_none());
}

#[test]
fn wave_count_falls_back_on_bad_input() {
    assert_eq!(resolve_max_waves(WaveCountArg::Absent), MaxWaves { max_waves: 20, fell_back: false });
    assert_eq!(resolve_max_waves(WaveCountArg::Parsed(3)), MaxWaves { max_waves: 3, fell_back: false });
    assert_eq!(resolve_max_waves(WaveCountArg::Parsed(0)), MaxWaves { max_waves: 20, fell_back: true });
    assert_eq!(resolve_max_waves(WaveCountArg::Unparseable), MaxWaves { max_waves: 20, fell_back: true });
}

#[test]
fn configured_seed_wins_over_the_clock() {
    assert_eq!(Seed::resolve(Some(42), 99), Seed(42));
    assert_eq!(Seed::resolve(None, 99), Seed(99));
}

#[test]
fn background_hash_is_splitmix64() {
    assert_eq!(splitmix64(0), 0xE220_A839_7B1D_CDAF);
    assert_eq!(wave_seed(42, 0), splitmix64(42));
    assert_eq!(wave_seed(42, 3), wave_seed(42, 3));
    assert_ne!(wave_seed(42, 1), wave_seed(42, 2), "different waves should differ");
    assert_eq!(cell_value(0, 0, 0), (splitmix64(0) >> 40) as u32);
    assert!(cell_value(5, 7, 123) < 1 << 24);
}

#[test]
fn vacuum_credits_every_remaining_material() {
    let mut wallet = Materials { count: 4 };
    let events = wallet.vacuum(&vec![Material { value: MATERIAL_VALUE }, Material { value: 3 }]);
    assert_eq!(wallet.count, 8);
    assert_eq!(events.iter().map(|e| e.amount).collect::<Vec<_>>(), vec![1, 3]);
}

#[test]
fn hit_damage_scales_by_percent() {
    assert_eq!(scaled_damage(240, 120), 288);
    assert_eq!(scaled_damage(700, BOMBER_AOE_DAMAGE_PERCENT), 1400);
    assert_eq!(scaled_damage(245, SHARD_DAMAGE_PERCENT), 122);
    assert_eq!(scaled_damage(0, 500), 0);
    assert_eq!(scaled_damage(1_000_000_000_000_000, 300), 1_000_000_000_000_000);
}

#[test]
fn whirlwind_pools_every_melee_weapons_damage() {
    assert_eq!(pooled_damage(&vec![400, 400]), 800);
    assert_eq!(pooled_damage(&vec![400]), 400);
    assert_eq!(pooled_damage(&Vec::new()), 0);
}

#[test]
fn upgrade_screen_offers_the_next_row_then_the_evolution() {
    assert_eq!(upgrade_offer(1), UpgradeOffer::Options { row: 0 });
    assert_eq!(upgrade_offer(6), UpgradeOffer::Options { row: 5 });
    assert_eq!(upgrade_offer(7), UpgradeOffer::Evolution);
    assert_eq!(upgrade_offer(8), UpgradeOffer::Maxed);
}

#[test]
fn rephased_orbs_take_their_layout_position() {
    let requests = vec![
        OrbRequest::for_weapon(WeaponSlot(2), 2),
        OrbRequest::for_weapon(WeaponSlot(4), 0),
        OrbRequest::for_weapon(WeaponSlot(5), 3),
    ];
    assert_eq!(requests[1].count, 1, "an orb weapon keeps at least one orb");
    assert_eq!(orb_ordinal(&requests, OrbId { slot: WeaponSlot(2), index: 1 }), 1);
    assert_eq!(orb_ordinal(&requests, OrbId { slot: WeaponSlot(4), index: 0 }), 2);
    assert_eq!(orb_ordinal(&requests, OrbId { slot: WeaponSlot(5), index: 2 }), 5);
    assert_eq!(orb_ordinal(&requests, OrbId { slot: WeaponSlot(1), index: 0 }), 6);
}

#[test]
fn the_magnet_item_extends_the_attraction_radius() {
    let items = shop_items();
    let magnet = items.iter().position(|item| item.name.contains("Magnet Arm")).expect("magnet in the catalog");
    let mut wallet = Materials { count: 30 };
    let mut stats = PlayerStats::new();
    let mut health = Health::full();
    assert_eq!(stats.attraction_radius, BASE_ATTRACTION_RADIUS);
    let bought = process_purchases(&vec![PurchaseRequest { item_index: magnet }], &mut wallet, &mut stats, &mut health);
    assert_eq!(bought.len(), 1);
    assert_eq!(stats.attraction_radius, 50, "Magnet Arm raised the attraction radius from 26 to 50");
    assert_eq!(wallet.count, 30 - items[magnet].cost);
    assert_eq!(stats.damage_pct, 100);
}

#[test]
fn evolutions_change_how_weapons_attack() {
    assert_eq!(attack_mode(WeaponKind::PiercingProjectile, false), AttackMode::Projectile { splits: false });
    assert_eq!(attack_mode(WeaponKind::PiercingProjectile, true), AttackMode::Projectile { splits: true });
    assert_eq!(attack_mode(WeaponKind::MeleeSwing, false), AttackMode::Swing);
    assert_eq!(attack_mode(WeaponKind::MeleeSwing, true), AttackMode::Contact);
    assert_eq!(attack_mode(WeaponKind::OrbitingOrb, false), AttackMode::Contact);
}

#[test]
fn equal_seeds_give_equal_word_streams() {
    let mut a = GlobalRng::from_seed(Seed(7));
    let mut b = GlobalRng::from_seed(Seed(7));
    let mut c = GlobalRng::from_seed(Seed(8));
    let wa: Vec<u32> = (0..8).map(|i| if i % 2 == 0 { a.next_word() } else { a.below(1000) }).collect();
    let wb: Vec<u32> = (0..8).map(|i| if i % 2 == 0 { b.next_word() } else { b.below(1000) }).collect();
    let wc: Vec<u32> = (0..8).map(|i| if i % 2 == 0 { c.next_word() } else { c.below(1000) }).collect();
    assert_eq!(wa, wb, "same seed must replay identically");
    assert_ne!(wa, wc);
}
