//! The Run state machine: MainMenu -> StartingWeaponChoice -> InGame(wave)
//! -> UpgradeChoice -> Shop -> InGame ... -> Victory or Defeat.
//!
//! The presentation layer measures time and space (wave timers, who touches
//! whom) and reports what happened; these functions decide what follows.

use vstd::prelude::*;

use crate::combat::{resolve_contact, PlayerHurt};
use crate::damage::{merged_all, registered_all, DamageStats, SlotDamage, WeaponSlot};
use crate::economy::{total_value, Material, MaterialPickedUp, Materials};
use crate::enemy::EnemyKind;
use crate::player::{Health, PlayerStats, BASE_MAX_HP, HP_LIMIT};
use crate::shop::{process_purchases, purchases_fold, ItemPurchased, MAX_ITEM_HP_BOOST};
use crate::intent::PurchaseRequest;
use crate::upgrade::{all_equipped_maxed, apply_upgrade_requests, pick_accepted, effect_of_pick, UpgradeEffect, UpgradeSelected, WeaponLevels};
use crate::waves::{complete_wave, recovered, Wave, WaveCompleted, WaveConfig, WaveEnd, WaveStarted};
use crate::weapon::{select_starting_weapon, EquippedWeapon, StartingWeapon, StartingWeaponSelected, WeaponKind};

verus! {

/// The high-level game state.
#[derive(Debug, Clone, Copy, PartialEq, Eq, Structural)]
pub enum GameState {
    /// Title screen.
    MainMenu,
    /// The mandatory choice of the Run's Weapon.
    StartingWeaponChoice,
    /// An active wave of combat.
    InGame,
    /// Between-wave weapon upgrade pick (one mandatory choice per wave).
    UpgradeChoice,
    /// Between-wave shop.
    Shop,
    /// Survived all waves.
    Victory,
    /// The Player died (one-life roguelike).
    Defeat,
}

/// How a Run ended.
#[derive(Debug, Clone, Copy, PartialEq, Eq, Structural)]
pub enum RunOutcome {
    Victory,
    Defeat,
}

/// A fresh Run began (its first wave was entered).
#[derive(Debug, Clone, Copy, PartialEq, Eq, Structural)]
pub struct RunStarted;

/// A Run ended.
#[derive(Debug, Clone, Copy, PartialEq, Eq, Structural)]
pub struct RunEnded {
    pub outcome: RunOutcome,
}

/// The transitions of the state machine.
pub open spec fn allowed_transition(from: GameState, to: GameState) -> bool {
    match (from, to) {
        (GameState::MainMenu, GameState::StartingWeaponChoice) => true,
        (GameState::StartingWeaponChoice, GameState::InGame) => true,
        (GameState::InGame, GameState::UpgradeChoice) => true,
        (GameState::InGame, GameState::Victory) => true,
        (GameState::InGame, GameState::Defeat) => true,
        (GameState::UpgradeChoice, GameState::Shop) => true,
        (GameState::Shop, GameState::InGame) => true,
        (GameState::Victory, GameState::MainMenu) => true,
        (GameState::Defeat, GameState::MainMenu) => true,
        (GameState::Victory, GameState::StartingWeaponChoice) => true,
        (GameState::Defeat, GameState::StartingWeaponChoice) => true,
        _ => false,
    }
}

/// States in which a Run is under way (the Player exists).
pub open spec fn in_run(state: GameState) -> bool {
    state == GameState::InGame || state == GameState::UpgradeChoice || state == GameState::Shop
}

/// The Player of a Run.
#[derive(Debug, Clone, Copy, PartialEq, Eq, Structural)]
pub struct PlayerState {
    pub health: Health,
    pub stats: PlayerStats,
    /// Whether the starting weapon was handed over (exactly once per Run).
    pub loadout: bool,
}

/// A wave was entered.
#[derive(Debug, Clone, Copy, PartialEq, Eq, Structural)]
pub struct WaveBegun {
    pub started: WaveStarted,
    /// Set on the Run's first wave.
    pub run_started: Option<RunStarted>,
}

/// A wave's time elapsed.
#[derive(Debug)]
pub struct WaveClosed {
    pub completed: WaveCompleted,
    /// The materials collected from the ground at the wave's end.
    pub pickups: Vec<MaterialPickedUp>,
    /// Set when that was the last wave.
    pub ended: Option<RunEnded>,
}

/// One frame of enemy contact during a wave.
#[derive(Debug, Clone, Copy, PartialEq, Eq, Structural)]
pub struct ContactReport {
    pub hurt: Option<PlayerHurt>,
    /// Set when the hit was lethal.
    pub ended: Option<RunEnded>,
}

/// Everything the rules track across a Run.
pub struct Run {
    pub state: GameState,
    pub config: WaveConfig,
    pub wave: Wave,
    pub materials: Materials,
    pub levels: WeaponLevels,
    pub starting_weapon: StartingWeapon,
    pub damage: DamageStats,
    pub player: Option<PlayerState>,
    /// The equipped weapons, in equipment order.
    pub weapons: Vec<EquippedWeapon>,
}

impl Run {
    /// The invariant every operation keeps: the wave counter stays within the
    /// configured Run, the Player exists exactly while a Run is under way (and
    /// carries the chosen weapon), and hit points stay representable.
    pub open spec fn wf(&self) -> bool {
        &&& 1 <= self.wave.number
        &&& (self.wave.number <= self.config.max_waves || self.wave.number == 1)
        &&& (self.player is Some <==> in_run(self.state))
        &&& (in_run(self.state) ==> self.starting_weapon.selected is Some)
        &&& (self.player is None ==> self.weapons@.len() == 0)
        &&& (self.player matches Some(p) ==> {
            &&& p.loadout
            &&& p.health.wf()
            &&& 0 <= p.stats.max_hp_bonus <= HP_LIMIT
        })
    }

    /// A new session at the main menu.
    pub fn new(config: WaveConfig) -> (run: Run)
        ensures
            run.wf(),
            run.state == GameState::MainMenu,
            run.config == config,
            run.wave.number == 1,
            run.materials.count == 0,
            forall|k: WeaponKind| #[trigger] run.levels.spec_level(k) == 1,
            run.starting_weapon.selected is None,
            run.damage.run.spec_total() == 0,
            run.player is None,
            run.weapons@.len() == 0,
    {
        Run {
            state: GameState::MainMenu,
            config,
            wave: Wave::new(),
            materials: Materials::new(),
            levels: WeaponLevels::new(),
            starting_weapon: StartingWeapon { selected: None },
            damage: DamageStats::new(),
            player: None,
            weapons: Vec::new(),
        }
    }

    /// Begin a fresh Run (from the menu or an end screen): every path back to
    /// Level 1, wave 1, an empty wallet and empty damage statistics. The
    /// choice of weapon comes next. Ignored in any other state.
    pub fn start_run(&mut self) -> (started: bool)
        requires
            old(self).wf(),
        ensures
            final(self).wf(),
            started <==> (old(self).state == GameState::MainMenu || old(self).state == GameState::Victory
                || old(self).state == GameState::Defeat),
            started ==> {
                &&& final(self).state == GameState::StartingWeaponChoice
                &&& final(self).wave.number == 1
                &&& final(self).materials.count == 0
                &&& forall|k: WeaponKind| #[trigger] final(self).levels.spec_level(k) == 1
                &&& final(self).damage.current_wave.spec_total() == 0
                &&& final(self).damage.last_wave.spec_total() == 0
                &&& final(self).damage.run.spec_total() == 0
                &&& final(self).player is None
                &&& final(self).starting_weapon == old(self).starting_weapon
                &&& final(self).config == old(self).config
            },
            !started ==> {
                &&& final(self).state == old(self).state
                &&& final(self).wave == old(self).wave
                &&& final(self).materials == old(self).materials
                &&& final(self).damage == old(self).damage
                &&& final(self).player == old(self).player
                &&& final(self).weapons@ == old(self).weapons@
                &&& final(self).starting_weapon == old(self).starting_weapon
                &&& forall|k: WeaponKind| #[trigger] final(self).levels.spec_level(k) == old(self).levels.spec_level(k)
            },
            final(self).config == old(self).config,
            old(self).state == final(self).state || allowed_transition(old(self).state, final(self).state),
    {
        match self.state {
            GameState::MainMenu | GameState::Victory | GameState::Defeat => {},
            _ => {
                return false;
            },
        }
        self.state = GameState::StartingWeaponChoice;
        self.wave.reset_run();
        self.levels = WeaponLevels::new();
        self.damage.reset_run();
        self.materials.reset();
        true
    }

    /// Leave an end screen for the main menu; the wallet empties. Ignored in
    /// any other state.
    pub fn return_to_menu(&mut self) -> (returned: bool)
        requires
            old(self).wf(),
        ensures
            final(self).wf(),
            returned <==> (old(self).state == GameState::Victory || old(self).state == GameState::Defeat),
            returned ==> final(self).state == GameState::MainMenu && final(self).materials.count == 0,
            !returned ==> final(self).state == old(self).state && final(self).materials == old(self).materials,
            final(self).wave == old(self).wave,
            final(self).starting_weapon == old(self).starting_weapon,
            final(self).damage == old(self).damage,
            final(self).player == old(self).player,
            final(self).weapons@ == old(self).weapons@,
            final(self).config == old(self).config,
            forall|k: WeaponKind| #[trigger] final(self).levels.spec_level(k) == old(self).levels.spec_level(k),
            old(self).state == final(self).state || allowed_transition(old(self).state, final(self).state),
    {
        match self.state {
            GameState::Victory | GameState::Defeat => {},
            _ => {
                return false;
            },
        }
        self.state = GameState::MainMenu;
        self.materials.reset();
        true
    }

    /// Entering a wave: the Player is spawned if absent, the starting weapon
    /// is handed over once per Run, damage statistics open the wave, and the
    /// wave (and on wave 1 the Run) is announced.
    fn enter_wave(&mut self) -> (begun: WaveBegun)
        requires
            old(self).starting_weapon.selected is Some,
            old(self).player is None ==> old(self).weapons@.len() == 0,
            old(self).player matches Some(p) ==> p.loadout && p.health.wf() && 0 <= p.stats.max_hp_bonus <= HP_LIMIT,
        ensures
            final(self).player matches Some(p) && p.loadout,
            old(self).player is None ==> final(self).player == Some(
                PlayerState { health: Health::spec_full(), stats: PlayerStats::spec_new(), loadout: true },
            ),
            old(self).player matches Some(p) ==> final(self).player == Some(PlayerState { loadout: true, ..p }),
            gives_loadout(old(self).player) ==> final(self).weapons@ == old(self).weapons@.push(
                EquippedWeapon { slot: WeaponSlot(0), kind: old(self).starting_weapon.selected->0, evolved: false },
            ),
            !gives_loadout(old(self).player) ==> final(self).weapons@ == old(self).weapons@,
            begun.started.number == old(self).wave.number,
            begun.run_started is Some <==> old(self).wave.number == 1,
            final(self).damage.current_wave.spec_total() == 0,
            final(self).damage.run.spec_total() == old(self).damage.run.spec_total(),
            final(self).damage.current_wave@ == registered_all(
                Map::<WeaponSlot, SlotDamage>::empty(),
                old(self).starting_weapon.selected,
                final(self).weapons@,
            ),
            final(self).damage.run@ == registered_all(
                old(self).damage.run@,
                old(self).starting_weapon.selected,
                final(self).weapons@,
            ),
            final(self).damage.run.other_damage() == old(self).damage.run.other_damage(),
            final(self).damage.last_wave@ == old(self).damage.last_wave@,
            final(self).damage.current_wave.other_damage() == 0,
            !final(self).damage.current_wave_completed,
            final(self).damage.last_wave.other_damage() == old(self).damage.last_wave.other_damage(),
            final(self).damage.last_wave_completed == old(self).damage.last_wave_completed,
            final(self).state == old(self).state,
            final(self).wave == old(self).wave,
            final(self).config == old(self).config,
            final(self).materials == old(self).materials,
            final(self).starting_weapon == old(self).starting_weapon,
            forall|k: WeaponKind| #[trigger] final(self).levels.spec_level(k) == old(self).levels.spec_level(k),
    {
        let kind = match self.starting_weapon.selected {
            Some(kind) => kind,
            None => {
                return WaveBegun { started: WaveStarted { number: self.wave.number }, run_started: None };
            },
        };
        let mut player = match self.player {
            Some(p) => p,
            None => PlayerState { health: Health::full(), stats: PlayerStats::new(), loadout: false },
        };
        if !player.loadout {
            self.weapons.push(EquippedWeapon { slot: WeaponSlot(0), kind, evolved: false });
            player.loadout = true;
        }
        self.player = Some(player);
        self.damage.begin_wave(self.starting_weapon.selected, &self.weapons);
        let run_started = if self.wave.number == 1 {
            Some(RunStarted)
        } else {
            None
        };
        WaveBegun { started: WaveStarted { number: self.wave.number }, run_started }
    }
}

impl Run {
    /// Confirm the Run's weapon: the first selection of the frame is taken
    /// and the first wave begins. Ignored outside the choice screen or when
    /// nothing was selected.
    pub fn choose_starting_weapon(&mut self, selections: &Vec<StartingWeaponSelected>) -> (begun: Option<WaveBegun>)
        requires
            old(self).wf(),
        ensures
            final(self).wf(),
            begun is Some <==> (old(self).state == GameState::StartingWeaponChoice && selections@.len() > 0),
            begun matches Some(b) ==> {
                &&& final(self).state == GameState::InGame
                &&& final(self).starting_weapon.selected == Some(selections@[0].kind)
                &&& b.started.number == old(self).wave.number
                &&& (b.run_started is Some <==> old(self).wave.number == 1)
                &&& final(self).weapons@ == old(self).weapons@.push(
                    EquippedWeapon { slot: WeaponSlot(0), kind: selections@[0].kind, evolved: false },
                )
                &&& final(self).player == Some(
                    PlayerState { health: Health::spec_full(), stats: PlayerStats::spec_new(), loadout: true },
                )
            },
            begun matches Some(b) ==> {
                &&& final(self).damage.current_wave.spec_total() == 0
                &&& final(self).damage.current_wave@ == registered_all(
                    Map::<WeaponSlot, SlotDamage>::empty(),
                    Some(selections@[0].kind),
                    final(self).weapons@,
                )
                &&& final(self).damage.run@ == registered_all(
                    old(self).damage.run@,
                    Some(selections@[0].kind),
                    final(self).weapons@,
                )
                &&& final(self).damage.run.spec_total() == old(self).damage.run.spec_total()
                &&& final(self).damage.run.other_damage() == old(self).damage.run.other_damage()
                &&& final(self).damage.current_wave.other_damage() == 0
                &&& !final(self).damage.current_wave_completed
                &&& final(self).damage.last_wave@ == old(self).damage.last_wave@
                &&& final(self).damage.last_wave.other_damage() == old(self).damage.last_wave.other_damage()
                &&& final(self).damage.last_wave_completed == old(self).damage.last_wave_completed
            },
            begun is None ==> final(self).state == old(self).state && final(self).starting_weapon
                == old(self).starting_weapon && final(self).weapons@ == old(self).weapons@
                && final(self).player == old(self).player && final(self).damage == old(self).damage,
            final(self).wave == old(self).wave,
            final(self).materials == old(self).materials,
            final(self).config == old(self).config,
            forall|k: WeaponKind| #[trigger] final(self).levels.spec_level(k) == old(self).levels.spec_level(k),
            old(self).state == final(self).state || allowed_transition(old(self).state, final(self).state),
    {
        if self.state != GameState::StartingWeaponChoice || selections.len() == 0 {
            return None;
        }
        select_starting_weapon(selections, &mut self.starting_weapon);
        self.state = GameState::InGame;
        Some(self.enter_wave())
    }

    /// Leave the shop for the next wave. Ignored outside the shop.
    pub fn continue_to_next_wave(&mut self) -> (begun: Option<WaveBegun>)
        requires
            old(self).wf(),
        ensures
            final(self).wf(),
            begun is Some <==> old(self).state == GameState::Shop,
            begun matches Some(b) ==> {
                &&& final(self).state == GameState::InGame
                &&& b.started.number == old(self).wave.number
                &&& (b.run_started is Some <==> old(self).wave.number == 1)
                &&& final(self).weapons@ == old(self).weapons@
                &&& final(self).player == old(self).player
                &&& final(self).damage.current_wave.spec_total() == 0
                &&& final(self).damage.current_wave@ == registered_all(
                    Map::<WeaponSlot, SlotDamage>::empty(),
                    old(self).starting_weapon.selected,
                    old(self).weapons@,
                )
                &&& final(self).damage.run@ == registered_all(
                    old(self).damage.run@,
                    old(self).starting_weapon.selected,
                    old(self).weapons@,
                )
                &&& final(self).damage.run.spec_total() == old(self).damage.run.spec_total()
                &&& final(self).damage.run.other_damage() == old(self).damage.run.other_damage()
                &&& final(self).damage.current_wave.other_damage() == 0
                &&& !final(self).damage.current_wave_completed
                &&& final(self).damage.last_wave@ == old(self).damage.last_wave@
                &&& final(self).damage.last_wave.other_damage() == old(self).damage.last_wave.other_damage()
                &&& final(self).damage.last_wave_completed == old(self).damage.last_wave_completed
            },
            begun is None ==> final(self).state == old(self).state && final(self).damage == old(self).damage
                && final(self).player == old(self).player && final(self).weapons@ == old(self).weapons@,
            final(self).starting_weapon == old(self).starting_weapon,
            final(self).config == old(self).config,
            forall|k: WeaponKind| #[trigger] final(self).levels.spec_level(k) == old(self).levels.spec_level(k),
            final(self).wave == old(self).wave,
            final(self).materials == old(self).materials,
            old(self).state == final(self).state || allowed_transition(old(self).state, final(self).state),
    {
        if self.state != GameState::Shop {
            return None;
        }
        self.state = GameState::InGame;
        Some(self.enter_wave())
    }

    /// Leaving a wave: its damage period becomes the previous-Wave snapshot.
    /// Reaching an end state removes the Player and its weapons.
    fn leave_wave(&mut self, next: GameState)
        ensures
            final(self).state == next,
            (next == GameState::Victory || next == GameState::Defeat) ==> final(self).player is None
                && final(self).weapons@.len() == 0,
            !(next == GameState::Victory || next == GameState::Defeat) ==> final(self).player == old(
                self,
            ).player && final(self).weapons@ == old(self).weapons@,
            final(self).damage.last_wave@ == old(self).damage.current_wave@,
            final(self).damage.last_wave.other_damage() == old(self).damage.current_wave.other_damage(),
            final(self).damage.last_wave_completed == old(self).damage.current_wave_completed,
            final(self).damage.run@ == old(self).damage.run@,
            final(self).damage.run == old(self).damage.run,
            final(self).wave == old(self).wave,
            final(self).config == old(self).config,
            final(self).materials == old(self).materials,
            final(self).starting_weapon == old(self).starting_weapon,
            forall|k: WeaponKind| #[trigger] final(self).levels.spec_level(k) == old(self).levels.spec_level(k),
    {
        self.damage.finish_wave();
        self.state = next;
        if next == GameState::Victory || next == GameState::Defeat {
            self.player = None;
            self.weapons = Vec::new();
        }
    }

    /// A wave's time elapsed. The Player recovers half of max HP, every
    /// material still on the ground is collected, and the wave is announced
    /// completed. After the last wave the Run is won; otherwise the mandatory
    /// upgrade pick opens. Ignored outside a wave.
    pub fn end_wave(&mut self, remaining: &Vec<Material>) -> (closed: Option<WaveClosed>)
        requires
            old(self).wf(),
            old(self).materials.count + total_value(remaining@) <= u32::MAX,
        ensures
            final(self).wf(),
            closed is Some <==> old(self).state == GameState::InGame,
            closed matches Some(c) ==> {
                &&& c.completed.number == old(self).wave.number
                &&& final(self).materials.count == old(self).materials.count + total_value(remaining@)
                &&& c.pickups@.len() == remaining@.len()
                &&& (old(self).wave.number >= old(self).config.max_waves <==> final(self).state
                    == GameState::Victory)
                &&& (final(self).state == GameState::Victory <==> c.ended == Some(
                    RunEnded { outcome: RunOutcome::Victory },
                ))
                &&& final(self).state == GameState::Victory ==> final(self).wave == old(self).wave
                &&& final(self).state != GameState::Victory ==> {
                    &&& final(self).state == GameState::UpgradeChoice
                    &&& final(self).wave.number == old(self).wave.number + 1
                    &&& final(self).player == Some(PlayerState {
                        health: recovered(old(self).player->0.health),
                        ..old(self).player->0
                    })
                    &&& final(self).weapons@ == old(self).weapons@
                }
                &&& final(self).damage.last_wave@ == old(self).damage.current_wave@
                &&& final(self).damage.last_wave.other_damage() == old(self).damage.current_wave.other_damage()
                &&& final(self).damage.last_wave_completed
            },
            closed is None ==> final(self).state == old(self).state && final(self).materials == old(
                self,
            ).materials && final(self).wave == old(self).wave && final(self).damage == old(self).damage
                && final(self).player == old(self).player && final(self).weapons@ == old(self).weapons@,
            final(self).damage.run == old(self).damage.run,
            forall|k: WeaponKind| #[trigger] final(self).levels.spec_level(k) == old(self).levels.spec_level(k),
            final(self).starting_weapon == old(self).starting_weapon,
            final(self).config == old(self).config,
            old(self).state == final(self).state || allowed_transition(old(self).state, final(self).state),
    {
        if self.state != GameState::InGame {
            return None;
        }
        let mut player = match self.player {
            Some(p) => p,
            None => {
                return None;
            },
        };
        player.health.recover_at_wave_end();
        self.player = Some(player);
        let pickups = self.materials.vacuum(remaining);
        let (completed, end) = complete_wave(&mut self.wave, &self.config);
        self.damage.mark_wave_completed();
        let ended = match end {
            WaveEnd::Victory => {
                self.leave_wave(GameState::Victory);
                Some(RunEnded { outcome: RunOutcome::Victory })
            },
            WaveEnd::UpgradeChoice => {
                self.leave_wave(GameState::UpgradeChoice);
                None
            },
        };
        Some(WaveClosed { completed, pickups, ended })
    }

    /// One frame of enemy contact (see `combat::resolve_contact`). A lethal
    /// hit loses the Run. Ignored outside a wave.
    pub fn contact(&mut self, invulnerability_over: bool, touching: &Vec<EnemyKind>) -> (report: ContactReport)
        requires
            old(self).wf(),
        ensures
            final(self).wf(),
            old(self).state != GameState::InGame ==> report.hurt is None && report.ended is None
                && final(self).state == old(self).state && final(self).player == old(self).player,
            old(self).state == GameState::InGame ==> {
                &&& (report.hurt is Some <==> (invulnerability_over && touching@.len() > 0))
                &&& report.hurt matches Some(h) ==> h.hp_after == old(self).player->0.health.current - h.amount
                &&& (report.ended is Some <==> (report.hurt matches Some(h) && h.hp_after <= 0))
                &&& report.ended is Some ==> report.ended == Some(RunEnded { outcome: RunOutcome::Defeat })
                    && final(self).state == GameState::Defeat
                &&& report.ended is None ==> final(self).state == GameState::InGame
                &&& report.hurt is None ==> final(self).player == old(self).player
                &&& report.ended is None ==> (report.hurt matches Some(h) ==> final(self).player == Some(
                    PlayerState {
                        health: Health { current: h.hp_after, ..old(self).player->0.health },
                        ..old(self).player->0
                    },
                ))
                &&& report.ended is Some ==> {
                    &&& final(self).player is None
                    &&& final(self).weapons@.len() == 0
                    &&& final(self).damage.last_wave@ == old(self).damage.current_wave@
                    &&& final(self).damage.last_wave.other_damage() == old(self).damage.current_wave.other_damage()
                    &&& final(self).damage.last_wave_completed == old(self).damage.current_wave_completed
                    &&& final(self).damage.run == old(self).damage.run
                }
            },
            report.ended is None ==> final(self).damage == old(self).damage && final(self).weapons@ == old(
                self,
            ).weapons@,
            final(self).wave == old(self).wave,
            final(self).materials == old(self).materials,
            final(self).starting_weapon == old(self).starting_weapon,
            final(self).config == old(self).config,
            forall|k: WeaponKind| #[trigger] final(self).levels.spec_level(k) == old(self).levels.spec_level(k),
            old(self).state == final(self).state || allowed_transition(old(self).state, final(self).state),
    {
        if self.state != GameState::InGame {
            return ContactReport { hurt: None, ended: None };
        }
        let mut player = match self.player {
            Some(p) => p,
            None => {
                return ContactReport { hurt: None, ended: None };
            },
        };
        let outcome = resolve_contact(&mut player.health, invulnerability_over, touching);
        if outcome.defeated {
            self.leave_wave(GameState::Defeat);
            return ContactReport { hurt: outcome.hurt, ended: Some(RunEnded { outcome: RunOutcome::Defeat }) };
        }
        self.player = Some(player);
        ContactReport { hurt: outcome.hurt, ended: None }
    }
}

/// The weapons after the melee Evolution: the first melee weapon on slot
/// `keep` stays and evolves, every other melee weapon merges into it (and
/// leaves the loadout); other weapons are untouched. `found` tells whether
/// the kept weapon was already passed.
pub open spec fn merge_melee(ws: Seq<EquippedWeapon>, keep: WeaponSlot, found: bool) -> Seq<EquippedWeapon>
    decreases ws.len(),
{
    if ws.len() == 0 {
        Seq::empty()
    } else {
        let w = ws[0];
        let rest = merge_melee(ws.drop_first(), keep, found || (w.kind == WeaponKind::MeleeSwing && w.slot == keep));
        if w.kind == WeaponKind::MeleeSwing {
            if !found && w.slot == keep {
                seq![EquippedWeapon { evolved: true, ..w }] + rest
            } else {
                rest
            }
        } else {
            seq![w] + rest
        }
    }
}

/// Number of melee weapons in a loadout.
pub open spec fn melee_count(ws: Seq<EquippedWeapon>) -> nat
    decreases ws.len(),
{
    if ws.len() == 0 {
        0
    } else {
        (if ws[0].kind == WeaponKind::MeleeSwing { 1nat } else { 0nat }) + melee_count(ws.drop_first())
    }
}

proof fn lemma_merge_after_found(ws: Seq<EquippedWeapon>, keep: WeaponSlot)
    ensures
        melee_count(merge_melee(ws, keep, true)) == 0,
    decreases ws.len(),
{
    if ws.len() > 0 {
        lemma_merge_after_found(ws.drop_first(), keep);
        let w = ws[0];
        let rest = merge_melee(ws.drop_first(), keep, true);
        if w.kind != WeaponKind::MeleeSwing {
            assert((seq![w] + rest).drop_first() =~= rest);
        }
    }
}

proof fn lemma_merge_melee_all_kept(ws: Seq<EquippedWeapon>, keep: WeaponSlot, found: bool)
    ensures
        forall|j: int|
            0 <= j < merge_melee(ws, keep, found).len() && (#[trigger] merge_melee(ws, keep, found)[j]).kind
                == WeaponKind::MeleeSwing ==> merge_melee(ws, keep, found)[j].evolved
                && merge_melee(ws, keep, found)[j].slot == keep,
    decreases ws.len(),
{
    if ws.len() > 0 {
        let w = ws[0];
        let f2 = found || (w.kind == WeaponKind::MeleeSwing && w.slot == keep);
        lemma_merge_melee_all_kept(ws.drop_first(), keep, f2);
        let rest = merge_melee(ws.drop_first(), keep, f2);
        let out = merge_melee(ws, keep, found);
        assert forall|j: int| 0 <= j < out.len() && (#[trigger] out[j]).kind == WeaponKind::MeleeSwing implies out[j].evolved
            && out[j].slot == keep by {
            if w.kind == WeaponKind::MeleeSwing && !(!found && w.slot == keep) {
                assert(out[j] == rest[j]);
            } else if j > 0 {
                assert(out[j] == rest[j - 1]);
            }
        }
    }
}

proof fn lemma_merge_melee_count(ws: Seq<EquippedWeapon>, keep: WeaponSlot)
    requires
        exists|i: int| 0 <= i < ws.len() && (#[trigger] ws[i]).kind == WeaponKind::MeleeSwing && ws[i].slot == keep,
    ensures
        melee_count(merge_melee(ws, keep, false)) == 1,
    decreases ws.len(),
{
    let w = ws[0];
    let rest_in = ws.drop_first();
    if w.kind == WeaponKind::MeleeSwing && w.slot == keep {
        lemma_merge_after_found(rest_in, keep);
        let rest = merge_melee(rest_in, keep, true);
        let e = EquippedWeapon { evolved: true, ..w };
        assert((seq![e] + rest).drop_first() =~= rest);
        assert((seq![e] + rest)[0] == e);
    } else {
        let i = choose|i: int| 0 <= i < ws.len() && (#[trigger] ws[i]).kind == WeaponKind::MeleeSwing && ws[i].slot == keep;
        assert(i > 0);
        assert(rest_in[i - 1] == ws[i]);
        lemma_merge_melee_count(rest_in, keep);
        let rest = merge_melee(rest_in, keep, false);
        if w.kind != WeaponKind::MeleeSwing {
            assert((seq![w] + rest).drop_first() =~= rest);
            assert((seq![w] + rest)[0] == w);
        }
    }
}

/// The melee Evolution merges every melee instance into one: when some melee
/// weapon sits on the kept slot, exactly one melee weapon remains, on that
/// slot, and it is the evolved one.
pub proof fn law_melee_evolution_leaves_one_blade(ws: Seq<EquippedWeapon>, keep: WeaponSlot)
    requires
        exists|i: int| 0 <= i < ws.len() && (#[trigger] ws[i]).kind == WeaponKind::MeleeSwing && ws[i].slot == keep,
    ensures
        melee_count(merge_melee(ws, keep, false)) == 1,
        forall|j: int|
            0 <= j < merge_melee(ws, keep, false).len() && (#[trigger] merge_melee(ws, keep, false)[j]).kind
                == WeaponKind::MeleeSwing ==> merge_melee(ws, keep, false)[j].evolved
                && merge_melee(ws, keep, false)[j].slot == keep,
{
    lemma_merge_melee_count(ws, keep);
    lemma_merge_melee_all_kept(ws, keep, false);
}

/// The weapons after every weapon of `kind` evolves.
pub open spec fn evolve_all(ws: Seq<EquippedWeapon>, kind: WeaponKind) -> Seq<EquippedWeapon> {
    Seq::new(ws.len(), |i: int| if ws[i].kind == kind { EquippedWeapon { evolved: true, ..ws[i] } } else { ws[i] })
}

/// The weapons after a taken pick.
pub open spec fn weapons_after(ws: Seq<EquippedWeapon>, e: UpgradeEffect) -> Seq<EquippedWeapon> {
    match e {
        UpgradeEffect::Stat { kind, new_slot, .. } => match new_slot {
            Some(s) => ws.push(EquippedWeapon { slot: s, kind, evolved: false }),
            None => ws,
        },
        UpgradeEffect::Evolve { kind, keep, .. } => match keep {
            Some(s) => merge_melee(ws, s, false),
            None => evolve_all(ws, kind),
        },
    }
}

fn merge_melee_weapons(ws: &Vec<EquippedWeapon>, keep: WeaponSlot) -> (out: Vec<EquippedWeapon>)
    ensures
        out@ == merge_melee(ws@, keep, false),
{
    let mut out: Vec<EquippedWeapon> = Vec::new();
    let mut found = false;
    let mut i: usize = 0;
    proof {
        assert(ws@.skip(0) =~= ws@);
        assert(out@ + merge_melee(ws@, keep, false) =~= merge_melee(ws@, keep, false));
    }
    while i < ws.len()
        invariant
            i <= ws@.len(),
            out@ + merge_melee(ws@.skip(i as int), keep, found) == merge_melee(ws@, keep, false),
        decreases ws@.len() - i,
    {
        let w = ws[i];
        let ghost before = out@;
        let ghost tail = ws@.skip(i as int);
        proof {
            assert(tail[0] == w);
            assert(tail.drop_first() =~= ws@.skip(i + 1));
        }
        let is_melee = w.kind == WeaponKind::MeleeSwing;
        let now_found = found || (is_melee && w.slot == keep);
        if is_melee {
            if !found && w.slot == keep {
                out.push(EquippedWeapon { evolved: true, ..w });
                proof {
                    assert(out@ + merge_melee(ws@.skip(i + 1), keep, now_found) =~= before
                        + merge_melee(tail, keep, found));
                }
            }
        } else {
            out.push(w);
            proof {
                assert(out@ + merge_melee(ws@.skip(i + 1), keep, now_found) =~= before
                    + merge_melee(tail, keep, found));
            }
        }
        found = now_found;
        i += 1;
    }
    proof {
        assert(ws@.skip(ws@.len() as int) =~= Seq::<EquippedWeapon>::empty());
        assert(out@ =~= out@ + merge_melee(ws@.skip(i as int), keep, found));
    }
    out
}

fn evolve_weapons(ws: &Vec<EquippedWeapon>, kind: WeaponKind) -> (out: Vec<EquippedWeapon>)
    ensures
        out@ == evolve_all(ws@, kind),
{
    let mut out: Vec<EquippedWeapon> = Vec::new();
    let mut i: usize = 0;
    while i < ws.len()
        invariant
            i <= ws@.len(),
            out@ == evolve_all(ws@, kind).take(i as int),
        decreases ws@.len() - i,
    {
        let w = ws[i];
        if w.kind == kind {
            out.push(EquippedWeapon { evolved: true, ..w });
        } else {
            out.push(w);
        }
        proof {
            assert(out@ =~= evolve_all(ws@, kind).take(i + 1));
        }
        i += 1;
    }
    proof {
        assert(evolve_all(ws@, kind).take(ws@.len() as int) =~= evolve_all(ws@, kind));
    }
    out
}

impl Run {
    /// The mandatory wave-end pick. The first acceptable request is taken
    /// (see `upgrade::apply_upgrade_requests`): its path advances a level,
    /// the loadout changes accordingly (an extra melee weapon joins, or the
    /// weapons of the kind evolve, melee ones merging into the lowest slot and
    /// pooling their damage history), and the shop opens. When every equipped
    /// path is already at Level 8 there is nothing to pick and the shop opens
    /// at once. Ignored outside the pick.
    pub fn pick_upgrade(&mut self, requests: &Vec<UpgradeSelected>) -> (taken: Option<UpgradeEffect>)
        requires
            old(self).wf(),
        ensures
            final(self).wf(),
            old(self).state != GameState::UpgradeChoice ==> taken is None && final(self).state == old(
                self,
            ).state && final(self).weapons@ == old(self).weapons@,
            old(self).state == GameState::UpgradeChoice ==> {
                &&& (taken is None <==> forall|i: int|
                    0 <= i < requests@.len() ==> !pick_accepted(
                        old(self).levels.spec_level((#[trigger] requests@[i]).kind),
                        old(self).weapons@,
                        requests@[i],
                        true,
                    ))
                &&& taken matches Some(e) ==> {
                    &&& final(self).state == GameState::Shop
                    &&& final(self).weapons@ == weapons_after(old(self).weapons@, e)
                    &&& exists|i: int|
                        0 <= i < requests@.len() && effect_of_pick(
                            e,
                            old(self).levels.spec_level((#[trigger] requests@[i]).kind),
                            old(self).weapons@,
                            requests@[i],
                        ) && final(self).levels.spec_level(requests@[i].kind) == old(
                            self,
                        ).levels.spec_level(requests@[i].kind) + 1 && forall|k: WeaponKind|
                            k != requests@[i].kind ==> #[trigger] final(self).levels.spec_level(k) == old(
                                self,
                            ).levels.spec_level(k)
                }
                &&& taken is None ==> final(self).weapons@ == old(self).weapons@ && (final(self).state
                    == GameState::Shop <==> all_maxed(old(self).levels, old(self).weapons@))
            },
            taken is None ==> forall|k: WeaponKind| #[trigger] final(self).levels.spec_level(k) == old(
                self,
            ).levels.spec_level(k),
            match taken {
                Some(UpgradeEffect::Evolve { keep: Some(s), merged_away, .. }) => {
                    &&& final(self).damage.current_wave@ == merged_all(old(self).damage.current_wave@, merged_away@, s)
                    &&& final(self).damage.run@ == merged_all(old(self).damage.run@, merged_away@, s)
                    &&& final(self).damage.current_wave.other_damage() == old(self).damage.current_wave.other_damage()
                    &&& final(self).damage.run.other_damage() == old(self).damage.run.other_damage()
                    &&& (old(self).damage.run.spec_total() <= u64::MAX ==> final(self).damage.run.spec_total()
                        == old(self).damage.run.spec_total())
                    &&& (old(self).damage.current_wave.spec_total() <= u64::MAX
                        ==> final(self).damage.current_wave.spec_total() == old(self).damage.current_wave.spec_total())
                    &&& final(self).damage.last_wave@ == old(self).damage.last_wave@
                    &&& final(self).damage.last_wave_completed == old(self).damage.last_wave_completed
                },
                _ => final(self).damage == old(self).damage,
            },
            final(self).wave == old(self).wave,
            final(self).materials == old(self).materials,
            final(self).player == old(self).player,
            final(self).starting_weapon == old(self).starting_weapon,
            final(self).config == old(self).config,
            old(self).state == final(self).state || allowed_transition(old(self).state, final(self).state),
    {
        if self.state != GameState::UpgradeChoice {
            return None;
        }
        let taken = apply_upgrade_requests(&mut self.levels, &self.weapons, requests, true);
        match &taken {
            Some(UpgradeEffect::Stat { kind, new_slot, .. }) => {
                if let Some(s) = new_slot {
                    self.weapons.push(EquippedWeapon { slot: *s, kind: *kind, evolved: false });
                }
                self.state = GameState::Shop;
            },
            Some(UpgradeEffect::Evolve { kind, keep, merged_away }) => {
                match keep {
                    Some(s) => {
                        self.weapons = merge_melee_weapons(&self.weapons, *s);
                        self.damage.merge_slots(merged_away, *s);
                    },
                    None => {
                        self.weapons = evolve_weapons(&self.weapons, *kind);
                    },
                }
                self.state = GameState::Shop;
            },
            None => {
                if all_equipped_maxed(&self.levels, &self.weapons) {
                    self.state = GameState::Shop;
                }
            },
        }
        taken
    }

    /// Spend materials in the shop (see `shop::process_purchases`). Ignored
    /// outside the shop; requests are also ignored in the unreachable case
    /// where they could push the max-HP bonus past the representable range.
    pub fn purchase(&mut self, requests: &Vec<PurchaseRequest>) -> (bought: Vec<ItemPurchased>)
        requires
            old(self).wf(),
        ensures
            final(self).wf(),
            old(self).state != GameState::Shop ==> bought@.len() == 0 && final(self).materials == old(
                self,
            ).materials && final(self).player == old(self).player,
            old(self).state == GameState::Shop && old(self).player->0.stats.max_hp_bonus + requests@.len()
                * MAX_ITEM_HP_BOOST <= HP_LIMIT - BASE_MAX_HP - MAX_ITEM_HP_BOOST ==> {
                let f = purchases_fold(
                    requests@,
                    old(self).materials.count,
                    old(self).player->0.stats,
                    old(self).player->0.health,
                );
                &&& final(self).materials.count == f.0
                &&& final(self).player == Some(PlayerState { stats: f.1, health: f.2, ..old(self).player->0 })
                &&& bought@ == f.3
            },
            old(self).state == GameState::Shop && old(self).player->0.stats.max_hp_bonus + requests@.len()
                * MAX_ITEM_HP_BOOST > HP_LIMIT - BASE_MAX_HP - MAX_ITEM_HP_BOOST ==> bought@.len() == 0
                && final(self).materials == old(self).materials && final(self).player == old(self).player,
            final(self).state == old(self).state,
            final(self).wave == old(self).wave,
            final(self).weapons@ == old(self).weapons@,
            final(self).damage == old(self).damage,
            final(self).starting_weapon == old(self).starting_weapon,
            final(self).config == old(self).config,
            forall|k: WeaponKind| #[trigger] final(self).levels.spec_level(k) == old(self).levels.spec_level(k),
    {
        if self.state != GameState::Shop {
            return Vec::new();
        }
        let mut player = match self.player {
            Some(p) => p,
            None => {
                return Vec::new();
            },
        };
        let n = requests.len() as u64;
        if player.stats.max_hp_bonus as i128 + n as i128 * MAX_ITEM_HP_BOOST as i128
            > (HP_LIMIT - BASE_MAX_HP - MAX_ITEM_HP_BOOST) as i128 {
            return Vec::new();
        }
        let bought = process_purchases(requests, &mut self.materials, &mut player.stats, &mut player.health);
        self.player = Some(player);
        bought
    }
}

/// Before the choice of weapon nothing is equipped and there is no Player,
/// so a Run begins with exactly the chosen weapon (see
/// `Run::choose_starting_weapon`, which adds it on slot 0).
pub proof fn law_no_weapons_before_the_choice(run: Run)
    requires
        run.wf(),
        run.state == GameState::StartingWeaponChoice,
    ensures
        run.player is None,
        run.weapons@.len() == 0,
        gives_loadout(run.player),
{
}

/// Between the first wave and the end of a Run, the Player carries its
/// loadout and at least its starting slot is equipped: a wave never begins
/// without the chosen weapon.
pub proof fn law_waves_run_with_the_chosen_weapon(run: Run)
    requires
        run.wf(),
        in_run(run.state),
    ensures
        run.player matches Some(p) && p.loadout,
        run.starting_weapon.selected is Some,
{
}

/// Whether every equipped kind is at Level 8 (false with nothing equipped).
pub open spec fn all_maxed(levels: WeaponLevels, ws: Seq<EquippedWeapon>) -> bool {
    ws.len() > 0 && forall|i: int| 0 <= i < ws.len() ==> levels.spec_level((#[trigger] ws[i]).kind) >= crate::upgrade::MAX_WEAPON_LEVEL
}

/// Whether entering a wave hands over the starting weapon: only to a Player
/// who has not received it yet this Run.
pub open spec fn gives_loadout(player: Option<PlayerState>) -> bool {
    match player {
        Some(p) => !p.loadout,
        None => true,
    }
}

impl Health {
    /// Full health of a fresh Player.
    pub open spec fn spec_full() -> Health {
        Health { max: BASE_MAX_HP, current: BASE_MAX_HP }
    }
}

impl PlayerStats {
    /// The stats of a fresh Player.
    pub open spec fn spec_new() -> PlayerStats {
        PlayerStats { damage_pct: 100, speed_pct: 100, max_hp_bonus: 0, attraction_radius: crate::player::BASE_ATTRACTION_RADIUS }
    }
}

} // verus!
