use cyberbun::settings::{
    setup_settings, GuildSettings, SettingsStore, TmpGuildSettings, DEFAULT_MIN_STARS,
};

fn row(guild_id: u64, enabled: bool, channel: Option<u64>, min: u8) -> GuildSettings {
    GuildSettings {
        guild_id,
        starboard_enabled: enabled,
        starboard_channel: channel,
        starboard_min: min,
    }
}

#[test]
fn configuring_twice_keeps_one_row_with_the_latest_channel() {
    let mut store = SettingsStore::new();
    store.update_guild_settings(row(1, true, Some(100), 3));
    store.update_guild_settings(row(1, true, Some(200), 5));

    assert_eq!(store.len(), 1);
    let settings = store.get_guild_settings(1).unwrap();
    assert_eq!(settings.starboard_channel, Some(200));
    assert_eq!(settings.starboard_min, 5);
}

#[test]
fn communities_are_kept_apart() {
    let mut store = SettingsStore::new();
    store.update_guild_settings(row(1, true, Some(100), 3));
    store.update_guild_settings(row(2, false, None, 4));

    assert_eq!(store.len(), 2);
    assert_eq!(store.get_guild_settings(1).unwrap().starboard_channel, Some(100));
    assert_eq!(store.get_guild_settings(2).unwrap().starboard_min, 4);
    assert!(store.get_guild_settings(3).is_none());
}

#[test]
fn toggling_needs_an_existing_row() {
    let mut store = SettingsStore::new();
    store.toggle_starboard(1, true);
    assert!(store.get_guild_settings(1).is_none());

    store.update_guild_settings(row(1, false, Some(100), 3));
    store.toggle_starboard(1, true);
    let settings = store.get_guild_settings(1).unwrap();
    assert!(settings.starboard_enabled);
    assert_eq!(settings.starboard_channel, Some(100));
}

#[test]
fn threshold_update_reports_whether_a_row_existed() {
    let mut store = SettingsStore::new();
    assert!(!store.set_required_stars(1, 5));
    assert!(store.get_guild_settings(1).is_none());

    store.update_guild_settings(row(1, true, Some(100), 3));
    assert!(store.set_required_stars(1, 5));
    assert_eq!(store.get_guild_settings(1).unwrap().starboard_min, 5);
}

#[test]
fn first_configuration_defaults() {
    let r = setup_settings(None, 9, 77, None, None);
    assert_eq!(r.guild_id, 9);
    assert!(!r.starboard_enabled);
    assert_eq!(r.starboard_channel, Some(77));
    assert_eq!(r.starboard_min, DEFAULT_MIN_STARS);
}

#[test]
fn reconfiguration_keeps_the_enabled_flag() {
    let existing = row(9, true, Some(10), 3);
    let r = setup_settings(Some(existing), 9, 77, Some(false), Some(4));
    // an existing row keeps its enabled flag; the requested flag only
    // applies to a first configuration
    assert!(r.starboard_enabled);
    assert_eq!(r.starboard_channel, Some(77));
    assert_eq!(r.starboard_min, 4);
}

#[test]
fn signed_form_mirrors_the_row() {
    let r = row(5, true, Some(6), 3);
    let t = TmpGuildSettings::swap(&r);
    assert_eq!(t.guild_id, 5);
    assert!(t.starboard_enabled);
    assert_eq!(t.starboard_channel, Some(6));
    assert_eq!(t.starboard_min, 3);

    let large = row(u64::MAX, false, Some(u64::MAX), 1);
    let t = TmpGuildSettings::swap(&large);
    assert_eq!(t.guild_id, -1);
    assert_eq!(t.starboard_channel, Some(-1));
}
