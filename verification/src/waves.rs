//! Waves: configuration, progression, wave-end recovery, and edge spawns.

use vstd::prelude::*;

use crate::enemy::{enemy_for_wave, spec_enemy_for_wave, Enemy, EnemySpawned};
use crate::player::Health;
use crate::rng::{chacha8_range_draw, GlobalRng};

verus! {

/// Percentage of max HP recovered when a wave ends.
pub const WAVE_END_HEAL_PERCENT: i64 = 50;

/// How many waves a Run lasts, and whether waves spawn enemies.
#[derive(Debug, Clone, Copy, PartialEq, Eq, Structural)]
pub struct WaveConfig {
    pub max_waves: u32,
    pub spawning: bool,
}

impl WaveConfig {
    /// Twenty spawning waves.
    pub fn new() -> (c: WaveConfig)
        ensures
            c.max_waves == 20,
            c.spawning,
    {
        WaveConfig { max_waves: 20, spawning: true }
    }
}

/// What the launch configuration said about the wave count.
#[derive(Debug, Clone, Copy, PartialEq, Eq, Structural)]
pub enum WaveCountArg {
    /// Neither the command line nor the environment named one.
    Absent,
    /// A number was given.
    Parsed(u32),
    /// Something that is not a number was given.
    Unparseable,
}

/// The wave count to run with.
#[derive(Debug, Clone, Copy, PartialEq, Eq, Structural)]
pub struct MaxWaves {
    pub max_waves: u32,
    /// The configured value was rejected (zero or not a number) and the
    /// default is used instead; worth a warning.
    pub fell_back: bool,
}

/// The wave count of a Run from its launch configuration: a positive number
/// is taken; zero (a Run that would end at once) and anything unparseable
/// fall back to the default of twenty.
pub fn resolve_max_waves(arg: WaveCountArg) -> (m: MaxWaves)
    ensures
        match arg {
            WaveCountArg::Absent => m == MaxWaves { max_waves: 20, fell_back: false },
            WaveCountArg::Parsed(n) => if n > 0 {
                m == MaxWaves { max_waves: n, fell_back: false }
            } else {
                m == MaxWaves { max_waves: 20, fell_back: true }
            },
            WaveCountArg::Unparseable => m == MaxWaves { max_waves: 20, fell_back: true },
        },
{
    let default = WaveConfig::new().max_waves;
    match arg {
        WaveCountArg::Absent => MaxWaves { max_waves: default, fell_back: false },
        WaveCountArg::Parsed(n) => if n > 0 {
            MaxWaves { max_waves: n, fell_back: false }
        } else {
            MaxWaves { max_waves: default, fell_back: true }
        },
        WaveCountArg::Unparseable => MaxWaves { max_waves: default, fell_back: true },
    }
}

/// A wave began.
#[derive(Debug, Clone, Copy, PartialEq, Eq, Structural)]
pub struct WaveStarted {
    pub number: u32,
}

/// A wave's time elapsed and it completed.
#[derive(Debug, Clone, Copy, PartialEq, Eq, Structural)]
pub struct WaveCompleted {
    pub number: u32,
}

/// The current wave (1-based).
#[derive(Debug, Clone, Copy, PartialEq, Eq, Structural)]
pub struct Wave {
    pub number: u32,
}

impl Wave {
    /// Wave 1.
    pub fn new() -> (w: Wave)
        ensures
            w.number == 1,
    {
        Wave { number: 1 }
    }

    /// A fresh Run starts again at wave 1.
    pub fn reset_run(&mut self)
        ensures
            final(self).number == 1,
    {
        self.number = 1;
    }
}

/// Health after the wave-end recovery: half of max HP (rounded down to a
/// tenth) is restored, never beyond max.
pub open spec fn recovered(h: Health) -> Health {
    let healed = h.current + h.max / 2;
    Health { current: (if healed < h.max { healed } else { h.max as int }) as i64, ..h }
}

/// The wave-end recovery heals half of the Player's own max HP (whatever
/// items raised it to), rounded down to a tenth, and never beyond max: the
/// result is the smaller of `current + max / 2` and `max`. Max HP is
/// unchanged and health never drops.
pub proof fn law_wave_end_heals_half_of_own_max(h: Health)
    requires
        h.wf(),
        h.current <= h.max,
    ensures
        recovered(h).max == h.max,
        recovered(h).current >= h.current,
        recovered(h).current <= h.max,
        h.current + h.max / 2 <= h.max ==> {
            &&& recovered(h).current == h.current + h.max / 2
            &&& 2 * (recovered(h).current - h.current) <= h.max < 2 * (recovered(h).current - h.current) + 2
        },
        h.current + h.max / 2 > h.max ==> recovered(h).current == h.max,
{
}

impl Health {
    /// The wave-end recovery: restore half of max HP, capped at max.
    pub fn recover_at_wave_end(&mut self)
        requires
            old(self).wf(),
        ensures
            *final(self) == recovered(*old(self)),
            final(self).wf(),
    {
        let healed = self.current + self.max * WAVE_END_HEAL_PERCENT / 100;
        self.current = if healed < self.max {
            healed
        } else {
            self.max
        };
    }
}

/// Where a Run goes once a wave's time has elapsed.
#[derive(Debug, Clone, Copy, PartialEq, Eq, Structural)]
pub enum WaveEnd {
    /// More waves remain: the mandatory upgrade pick comes next.
    UpgradeChoice,
    /// The last wave was survived.
    Victory,
}

/// Close the current wave: announce it completed; after the last wave the
/// Run is won, otherwise the wave counter advances.
pub fn complete_wave(wave: &mut Wave, config: &WaveConfig) -> (r: (WaveCompleted, WaveEnd))
    ensures
        r.0.number == old(wave).number,
        old(wave).number >= config.max_waves ==> r.1 == WaveEnd::Victory && *final(wave) == *old(wave),
        old(wave).number < config.max_waves ==> r.1 == WaveEnd::UpgradeChoice && final(wave).number
            == old(wave).number + 1,
{
    let done = WaveCompleted { number: wave.number };
    if wave.number >= config.max_waves {
        (done, WaveEnd::Victory)
    } else {
        wave.number = wave.number + 1;
        (done, WaveEnd::UpgradeChoice)
    }
}

/// The enemy an edge spawn produces on wave `wave`: a kind drawn uniformly
/// from the three archetypes, with that kind's stats for the wave.
pub fn spawn_enemy(rng: &mut GlobalRng, wave: u32) -> (r: (Enemy, EnemySpawned))
    ensures
        chacha8_range_draw(old(rng).seed(), old(rng).position(), 3).0 < 3,
        r.0 == spec_enemy_for_wave(chacha8_range_draw(old(rng).seed(), old(rng).position(), 3).0, wave),
        final(rng).position() == chacha8_range_draw(old(rng).seed(), old(rng).position(), 3).1,
        final(rng).seed() == old(rng).seed(),
        r.1.kind == r.0.kind,
{
    let roll = rng.below(3);
    let enemy = enemy_for_wave(roll, wave);
    (enemy, EnemySpawned { kind: enemy.kind })
}

} // verus!
