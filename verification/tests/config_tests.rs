use aura_update::config::{
    ai_is_available, configure_ai, default_ai_model, default_disabled, default_startup_mode,
    default_true, get_predicted_cleanup_gain, get_schedule, record_cleanup, save_turbo_profile,
    select_turbo_profile, set_active_turbo_profile, set_config_value, AppState, Config,
    ConfigValue, TurboProfile, get_app_version, translation_file,
};

fn profile(name: &str, white: &[&str], black: &[&str]) -> TurboProfile {
    TurboProfile {
        name: name.to_string(),
        whitelist: white.iter().map(|s| s.to_string()).collect(),
        blacklist: black.iter().map(|s| s.to_string()).collect(),
    }
}

#[test]
fn defaults_of_a_fresh_installation() {
    let c = Config::default();
    assert_eq!(c.language, "fr");
    assert_eq!(c.theme, "dark");
    assert!(!c.ai_enabled);
    assert_eq!(c.ai_endpoint, "https://ia.auraneo.fr");
    assert_eq!(c.ai_app_key, "aura_aura_update_mmkzgiz4");
    assert_eq!(c.ai_model, "aura-ia");
    assert_eq!(c.scheduler_interval, "disabled");
    assert!(c.auto_snapshot);
    assert!(c.first_run);
    assert_eq!(c.startup_mode, "visible");
    assert!(c.tray_enabled);
    assert!(c.telemetry_windows && c.telemetry_office && c.telemetry_vscode);
    assert!(!c.close_to_tray);
    assert_eq!(c.auto_clean_interval, "disabled");
    assert_eq!(c.battery_mode, "normal");
    assert!(c.cleanup_history.is_empty());
    assert!(c.turbo_profiles.is_empty());
}

#[test]
fn serde_default_helpers() {
    assert!(default_true());
    assert_eq!(default_startup_mode(), "visible");
    assert_eq!(default_disabled(), "disabled");
    assert_eq!(default_ai_model(), "aura-ia");
}

#[test]
fn app_state_starts_idle() {
    let s = AppState::new("/data".to_string(), Config::default());
    assert_eq!(s.data_dir, "/data");
    assert!(s.remote_port.is_none());
    assert!(!s.app_update_in_progress);
    assert_eq!(s.config.language, "fr");
}

#[test]
fn written_setting_reads_back() {
    let mut c = Config::default();
    let r = set_config_value(&mut c, "language", &ConfigValue::Str("en".to_string()));
    assert_eq!(r, Ok(true));
    assert_eq!(c.language, "en");
    assert_eq!(c.theme, "dark");
    let r = set_config_value(&mut c, "aiEnabled", &ConfigValue::Bool(true));
    assert_eq!(r, Ok(true));
    assert!(c.ai_enabled);
    let r = set_config_value(&mut c, "ai_model", &ConfigValue::Str("x".to_string()));
    assert_eq!(r, Ok(true));
    assert_eq!(c.ai_model, "x");
}

#[test]
fn setting_of_the_wrong_type_takes_the_default() {
    let mut c = Config::default();
    c.theme = "light".to_string();
    assert_eq!(set_config_value(&mut c, "theme", &ConfigValue::Other), Ok(true));
    assert_eq!(c.theme, "dark");
    assert_eq!(set_config_value(&mut c, "telemetry_office", &ConfigValue::Other), Ok(true));
    assert!(c.telemetry_office);
    assert_eq!(set_config_value(&mut c, "close_to_tray", &ConfigValue::Str("yes".into())), Ok(true));
    assert!(!c.close_to_tray);
}

#[test]
fn unknown_setting_is_refused_unchanged() {
    let mut c = Config::default();
    let r = set_config_value(&mut c, "colour", &ConfigValue::Str("red".to_string()));
    assert_eq!(r, Err("Unknown config key: colour".to_string()));
    assert_eq!(c.language, "fr");
    assert_eq!(c.theme, "dark");
}

#[test]
fn cleanup_history_keeps_ten_most_recent() {
    let mut h: Vec<u64> = Vec::new();
    for i in 1..=12u64 {
        record_cleanup(&mut h, i * 100);
    }
    assert_eq!(h.len(), 10);
    assert_eq!(h[0], 300);
    assert_eq!(*h.last().unwrap(), 1200);
}

#[test]
fn predicted_gain_is_the_mean_of_recent() {
    assert_eq!(get_predicted_cleanup_gain(&vec![]), 0);
    assert_eq!(get_predicted_cleanup_gain(&vec![10, 20, 31]), 20);
    let h: Vec<u64> = (1..=12).map(|i| i * 10).collect();
    // last ten: 30..=120, mean 75
    assert_eq!(get_predicted_cleanup_gain(&h), 75);
}

#[test]
fn saved_profile_is_found_and_replaces_same_name() {
    let mut c = Config::default();
    assert_eq!(save_turbo_profile(&mut c, profile("Gaming", &["steam"], &["onedrive"])), Ok(true));
    assert_eq!(c.turbo_profiles.len(), 1);
    assert_eq!(c.active_turbo_profile, "Gaming");
    assert_eq!(save_turbo_profile(&mut c, profile("gaming", &["discord"], &[])), Ok(true));
    assert_eq!(c.turbo_profiles.len(), 1);
    assert_eq!(c.turbo_profiles[0].whitelist, vec!["discord".to_string()]);
    assert_eq!(save_turbo_profile(&mut c, profile("Work", &[], &[])), Ok(true));
    assert_eq!(c.turbo_profiles.len(), 2);
    assert_eq!(c.active_turbo_profile, "Gaming");
}

#[test]
fn profile_without_name_is_refused() {
    let mut c = Config::default();
    let r = save_turbo_profile(&mut c, profile("   ", &[], &[]));
    assert_eq!(r, Err("Le nom du profil est requis".to_string()));
    assert!(c.turbo_profiles.is_empty());
}

#[test]
fn active_profile_must_exist() {
    let mut c = Config::default();
    assert_eq!(set_active_turbo_profile(&mut c, "Nope".into()), Err("Profil introuvable".into()));
    save_turbo_profile(&mut c, profile("A", &[], &[])).unwrap();
    save_turbo_profile(&mut c, profile("B", &[], &[])).unwrap();
    assert_eq!(set_active_turbo_profile(&mut c, "b".into()), Ok(true));
    assert_eq!(c.active_turbo_profile, "b");
    assert_eq!(select_turbo_profile(&c), Some(1));
    c.active_turbo_profile = "zzz".into();
    assert_eq!(select_turbo_profile(&c), Some(0));
    assert_eq!(select_turbo_profile(&Config::default()), None);
}

#[test]
fn ai_availability_rule() {
    let mut c = Config::default();
    assert!(!ai_is_available(&c));
    configure_ai(&mut c, true, "http://localhost:11434".into(), String::new(), true);
    assert!(ai_is_available(&c));
    configure_ai(&mut c, true, "https://example.org".into(), String::new(), true);
    assert!(!ai_is_available(&c));
    configure_ai(&mut c, true, "https://example.org".into(), "k".into(), true);
    assert!(ai_is_available(&c));
    configure_ai(&mut c, true, "https://example.org".into(), "k".into(), false);
    assert!(!ai_is_available(&c));
}

#[test]
fn schedule_is_read_from_settings() {
    let mut c = Config::default();
    assert_eq!(get_schedule(&c), (false, "disabled".to_string()));
    c.scheduler_enabled = true;
    c.scheduler_interval = "weekly".into();
    assert_eq!(get_schedule(&c), (true, "weekly".to_string()));
}

#[test]
fn version_and_locale_files() {
    assert_eq!(get_app_version(), "2.2.7");
    assert_eq!(translation_file("en"), "en.json");
    assert_eq!(translation_file("fr"), "fr.json");
    assert_eq!(translation_file("de"), "fr.json");
}
