use dsh_desktop::settings::{
    default_close_behavior, default_settings, normalize_channel, normalize_close_behavior,
    normalize_launcher, update_settings, Settings, SettingsCache,
};

fn settings(l: &str, c: &str, b: &str) -> Settings {
    Settings { launcher: l.to_string(), version_channel: c.to_string(), close_behavior: b.to_string() }
}

#[test]
fn defaults_are_pnpm_latest_tray() {
    let s = default_settings();
    assert_eq!(s, settings("pnpm", "latest", "tray"));
    assert_eq!(default_close_behavior(), "tray");
    assert!(!s.uses_npx());
    assert!(s.close_to_tray());
}

#[test]
fn runner_and_close_flags() {
    assert!(settings("npx", "latest", "tray").uses_npx());
    assert!(settings("npx", "latest", "tray").close_to_tray());
    assert!(!settings("NPX", "latest", "Tray").uses_npx());
    assert!(!settings("pnpm", "latest", "quit").close_to_tray());
}

#[test]
fn normalize_keeps_valid_values() {
    assert_eq!(normalize_launcher("npx"), "npx");
    assert_eq!(normalize_launcher("pnpm"), "pnpm");
    assert_eq!(normalize_channel("next"), "next");
    assert_eq!(normalize_channel("alpha"), "alpha");
    assert_eq!(normalize_channel("latest"), "latest");
    assert_eq!(normalize_close_behavior("tray"), "tray");
    assert_eq!(normalize_close_behavior("quit"), "quit");
}

#[test]
fn normalize_falls_back_on_invalid_values() {
    assert_eq!(normalize_launcher("yarn"), "pnpm");
    assert_eq!(normalize_launcher(""), "pnpm");
    assert_eq!(normalize_launcher(" npx"), "pnpm");
    assert_eq!(normalize_channel("beta"), "latest");
    assert_eq!(normalize_channel("NEXT"), "latest");
    assert_eq!(normalize_close_behavior("minimize"), "quit");
}

#[test]
fn normalize_is_idempotent() {
    for v in ["npx", "pnpm", "bun", "", "next", "alpha", "beta", "tray", "x"] {
        let l = normalize_launcher(v);
        assert_eq!(normalize_launcher(&l), l);
        let c = normalize_channel(v);
        assert_eq!(normalize_channel(&c), c);
        let b = normalize_close_behavior(v);
        assert_eq!(normalize_close_behavior(&b), b);
    }
}

#[test]
fn update_changes_only_given_values() {
    let cur = settings("pnpm", "latest", "quit");
    let s = update_settings(cur.clone(), Some("npx".to_string()), None, None);
    assert_eq!(s, settings("npx", "latest", "quit"));
    let s = update_settings(cur.clone(), None, Some("alpha".to_string()), Some("tray".to_string()));
    assert_eq!(s, settings("pnpm", "alpha", "tray"));
    let s = update_settings(cur.clone(), None, None, None);
    assert_eq!(s, cur);
}

#[test]
fn update_normalizes_invalid_values() {
    let cur = settings("npx", "next", "tray");
    let s = update_settings(cur, Some("bogus".to_string()), Some("rc".to_string()), Some("hide".to_string()));
    assert_eq!(s, settings("pnpm", "latest", "quit"));
}

#[test]
fn update_twice_is_update_once() {
    let cur = settings("npx", "next", "tray");
    let once = update_settings(cur.clone(), Some("yarn".to_string()), None, Some("tray".to_string()));
    let twice = update_settings(once.clone(), Some("yarn".to_string()), None, Some("tray".to_string()));
    assert_eq!(once, twice);
}

#[test]
fn cache_reads_back_saved_settings() {
    let mut cache = SettingsCache::new();
    assert!(cache.cached().is_none());
    let saved = settings("npx", "alpha", "tray");
    cache.remember(&saved);
    assert_eq!(cache.cached(), Some(saved.clone()));
    let newer = settings("pnpm", "next", "quit");
    cache.remember(&newer);
    assert_eq!(cache.cached(), Some(newer));
}

#[test]
fn cache_fill_uses_defaults_when_unreadable() {
    let mut cache = SettingsCache::new();
    let s = cache.fill(None);
    assert_eq!(s, settings("pnpm", "latest", "tray"));
    assert_eq!(cache.cached(), Some(s));
    let mut cache = SettingsCache::new();
    let read = settings("npx", "next", "tray");
    assert_eq!(cache.fill(Some(read.clone())), read);
    assert_eq!(cache.cached(), Some(read));
}

#[test]
fn settings_equality_compares_all_fields() {
    assert_ne!(settings("pnpm", "latest", "quit"), settings("pnpm", "latest", "tray"));
    assert_ne!(settings("pnpm", "next", "quit"), settings("pnpm", "latest", "quit"));
    assert_eq!(settings("a", "b", "c").duplicate(), settings("a", "b", "c"));
}
