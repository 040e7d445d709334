//! The player's preferences: SFX mute, SFX volume, and the diagnostics
//! overlay. Muting silences without touching the stored volume, so unmuting
//! restores it.

use vstd::prelude::*;

verus! {

/// How far one volume step moves the volume, in percent.
pub const VOLUME_STEP_PERCENT: u32 = 10;

/// Volume of fresh settings, in percent.
pub const DEFAULT_VOLUME_PERCENT: u32 = 80;

/// The persisted preferences.
#[derive(Debug, Clone, Copy, PartialEq, Eq, Structural)]
pub struct Settings {
    /// Independent of the volume: muting keeps the volume to restore.
    pub sfx_muted: bool,
    /// 0 through 100.
    pub sfx_volume_percent: u32,
    /// Whether the diagnostics overlay is shown.
    pub overlay: bool,
}

impl Settings {
    /// Playable defaults: sound on at 80%, overlay hidden.
    pub fn new() -> (s: Settings)
        ensures
            !s.sfx_muted,
            s.sfx_volume_percent == DEFAULT_VOLUME_PERCENT,
            !s.overlay,
    {
        Settings { sfx_muted: false, sfx_volume_percent: DEFAULT_VOLUME_PERCENT, overlay: false }
    }
}

/// The volume in effect, in percent: 0 while muted, else the given volume
/// held within 0 through 100.
pub open spec fn spec_effective_volume(muted: bool, percent: i64) -> u32 {
    if muted {
        0
    } else if percent > 100 {
        100
    } else if percent < 0 {
        0
    } else {
        percent as u32
    }
}

/// The volume in effect, in percent. Muting silences without touching the
/// stored value.
pub fn effective_volume(muted: bool, percent: i64) -> (v: u32)
    ensures
        v == spec_effective_volume(muted, percent),
{
    if muted {
        0
    } else if percent > 100 {
        100
    } else if percent < 0 {
        0
    } else {
        percent as u32
    }
}

/// The settings after flipping mute.
pub open spec fn muted_toggled(s: Settings) -> Settings {
    Settings { sfx_muted: !s.sfx_muted, ..s }
}

/// The settings the player edits. Every change goes through these methods,
/// so the volume can never leave its range and muting never loses it.
#[derive(Debug, Clone, Copy, PartialEq, Eq, Structural)]
pub struct SettingsStore {
    pub settings: Settings,
}

impl SettingsStore {
    /// The volume in effect, in percent.
    pub fn applied_volume(&self) -> (v: u32)
        ensures
            v == spec_effective_volume(self.settings.sfx_muted, self.settings.sfx_volume_percent as i64),
    {
        effective_volume(self.settings.sfx_muted, self.settings.sfx_volume_percent as i64)
    }

    /// Flip mute and report the new state; the stored volume is kept.
    pub fn toggle_mute(&mut self) -> (muted: bool)
        ensures
            muted == !old(self).settings.sfx_muted,
            final(self).settings == muted_toggled(old(self).settings),
    {
        self.settings.sfx_muted = !self.settings.sfx_muted;
        self.settings.sfx_muted
    }

    /// Move the volume by a signed number of percentage points, held within
    /// 0 through 100.
    pub fn step_volume(&mut self, delta_percent: i32)
        ensures
            final(self).settings.sfx_volume_percent == (if old(self).settings.sfx_volume_percent
                + delta_percent < 0 {
                0
            } else if old(self).settings.sfx_volume_percent + delta_percent > 100 {
                100
            } else {
                old(self).settings.sfx_volume_percent + delta_percent
            }),
            final(self).settings.sfx_muted == old(self).settings.sfx_muted,
            final(self).settings.overlay == old(self).settings.overlay,
    {
        let percent = self.settings.sfx_volume_percent as i64 + delta_percent as i64;
        self.settings.sfx_volume_percent = if percent < 0 {
            0
        } else if percent > 100 {
            100
        } else {
            percent as u32
        };
    }

    /// Show or hide the diagnostics overlay.
    pub fn toggle_overlay(&mut self)
        ensures
            final(self).settings == (Settings { overlay: !old(self).settings.overlay, ..old(self).settings }),
    {
        self.settings.overlay = !self.settings.overlay;
    }
}

/// Muting leaves the stored volume alone, silences while on, and a second
/// toggle restores exactly the settings (and so the volume in effect) from
/// before.
pub proof fn law_mute_keeps_the_volume_to_restore(s: Settings)
    ensures
        muted_toggled(s).sfx_volume_percent == s.sfx_volume_percent,
        muted_toggled(muted_toggled(s)) == s,
        !s.sfx_muted ==> spec_effective_volume(
            muted_toggled(s).sfx_muted,
            muted_toggled(s).sfx_volume_percent as i64,
        ) == 0,
{
}

} // verus!
