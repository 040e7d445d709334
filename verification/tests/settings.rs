use game_core::settings::{effective_volume, Settings, SettingsStore, VOLUME_STEP_PERCENT};

fn unpersisted(settings: Settings) -> SettingsStore {
    SettingsStore { settings }
}

#[test]
fn muting_silences() {
    assert_eq!(effective_volume(true, 80), 0);
    assert_eq!(effective_volume(true, 0), 0);
}

#[test]
fn volume_is_clamped_to_the_linear_range() {
    assert_eq!(effective_volume(false, 150), 100);
    assert_eq!(effective_volume(false, -20), 0);
    assert_eq!(effective_volume(false, 42), 42);
}

#[test]
fn toggling_mute_preserves_the_volume_it_must_restore() {
    let mut store = unpersisted(Settings { sfx_volume_percent: 80, ..Settings::new() });

    assert!(store.toggle_mute());
    assert_eq!(
        store.settings.sfx_volume_percent, 80,
        "muting must not zero the stored volume — there would be nothing to restore"
    );
    assert_eq!(store.applied_volume(), 0);

    assert!(!store.toggle_mute());
    assert_eq!(store.applied_volume(), 80);
}

#[test]
fn a_step_moves_the_volume_by_ten_percent() {
    let mut store = unpersisted(Settings::new());
    store.step_volume(VOLUME_STEP_PERCENT as i32);
    assert_eq!(store.settings.sfx_volume_percent, 90);
    store.step_volume(-(VOLUME_STEP_PERCENT as i32));
    assert_eq!(store.settings.sfx_volume_percent, 80);
}

#[test]
fn volume_steps_clamp_at_both_ends() {
    let mut store = unpersisted(Settings::new());
    store.step_volume(-1000);
    assert_eq!(store.settings.sfx_volume_percent, 0);
    store.step_volume(1000);
    assert_eq!(store.settings.sfx_volume_percent, 100);
}

#[test]
fn defaults_are_playable_and_the_overlay_starts_hidden() {
    let settings = Settings::new();
    assert!(!settings.sfx_muted);
    assert_eq!(settings.sfx_volume_percent, 80);
    assert!(!settings.overlay);
}

#[test]
fn overlay_toggle_flips_only_the_overlay() {
    let mut store = unpersisted(Settings::new());
    store.toggle_overlay();
    assert!(store.settings.overlay);
    assert_eq!(store.settings.sfx_volume_percent, 80);
    store.toggle_overlay();
    assert!(!store.settings.overlay);
}
