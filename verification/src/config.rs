//! Application settings: the configuration record, its defaults, the
//! key/value setter used by the front-end, the cleanup history and its
//! prediction, the turbo profiles and the AI availability rule.
use vstd::prelude::*;

use crate::text::{
    chars_of, contains, contains_seq, eq_ascii_case, eq_ignore_ascii_case, owned, text_eq, trim,
    trim_chars,
};

verus! {

/// A named set of process-name fragments for the turbo mode: processes whose
/// name holds a whitelisted fragment are spared, blacklisted ones are paused.
pub struct TurboProfile {
    pub name: String,
    pub whitelist: Vec<String>,
    pub blacklist: Vec<String>,
}

/// Model of a [`TurboProfile`].
pub struct ProfileView {
    pub name: Seq<char>,
    pub whitelist: Seq<Seq<char>>,
    pub blacklist: Seq<Seq<char>>,
}

impl View for TurboProfile {
    type V = ProfileView;

    open spec fn view(&self) -> ProfileView {
        ProfileView {
            name: self.name@,
            whitelist: self.whitelist@.map_values(|s: String| s@),
            blacklist: self.blacklist@.map_values(|s: String| s@),
        }
    }
}

/// The models of a list of profiles.
pub open spec fn profile_views(ps: Seq<TurboProfile>) -> Seq<ProfileView> {
    ps.map_values(|p: TurboProfile| p@)
}

/// The persisted application settings.
pub struct Config {
    pub language: String,
    pub theme: String,
    pub ai_enabled: bool,
    pub ai_endpoint: String,
    pub ai_api_key: String,
    pub ai_app_key: String,
    pub ai_model: String,
    pub ai_consent_given: bool,
    pub scheduler_enabled: bool,
    pub scheduler_interval: String,
    pub auto_snapshot: bool,
    pub cleanup_history: Vec<u64>,
    pub first_run: bool,
    /// Startup mode: "visible", "minimized", or "tray".
    pub startup_mode: String,
    pub tray_enabled: bool,
    pub telemetry_windows: bool,
    pub telemetry_office: bool,
    pub telemetry_vscode: bool,
    /// Custom backup directory.
    pub backup_dir: String,
    pub close_to_tray: bool,
    pub auto_clean_enabled: bool,
    /// Auto-clean interval: "disabled", "daily", "weekly", "monthly".
    pub auto_clean_interval: String,
    /// Battery mode: "eco", "normal" or "extreme".
    pub battery_mode: String,
    pub turbo_profiles: Vec<TurboProfile>,
    pub active_turbo_profile: String,
    /// Directory where application updates are installed (empty: next to the executable).
    pub update_install_dir: String,
}

/// The application's state: where its data lives, its settings, the port of
/// the remote-control server while it runs, and whether an application
/// update is being installed.
pub struct AppState {
    pub data_dir: String,
    pub config: Config,
    pub remote_port: Option<u16>,
    pub app_update_in_progress: bool,
}

impl AppState {
    /// The state at launch: the settings loaded, no server, no update running.
    pub fn new(data_dir: String, config: Config) -> (s: AppState)
        ensures
            s.data_dir@ == data_dir@,
            s.config@ == config@,
            s.remote_port is None,
            !s.app_update_in_progress,
    {
        AppState { data_dir, config, remote_port: None, app_update_in_progress: false }
    }
}

/// Model of a [`Config`].
pub struct ConfigView {
    pub language: Seq<char>,
    pub theme: Seq<char>,
    pub ai_enabled: bool,
    pub ai_endpoint: Seq<char>,
    pub ai_api_key: Seq<char>,
    pub ai_app_key: Seq<char>,
    pub ai_model: Seq<char>,
    pub ai_consent_given: bool,
    pub scheduler_enabled: bool,
    pub scheduler_interval: Seq<char>,
    pub auto_snapshot: bool,
    pub cleanup_history: Seq<u64>,
    pub first_run: bool,
    pub startup_mode: Seq<char>,
    pub tray_enabled: bool,
    pub telemetry_windows: bool,
    pub telemetry_office: bool,
    pub telemetry_vscode: bool,
    pub backup_dir: Seq<char>,
    pub close_to_tray: bool,
    pub auto_clean_enabled: bool,
    pub auto_clean_interval: Seq<char>,
    pub battery_mode: Seq<char>,
    pub turbo_profiles: Seq<ProfileView>,
    pub active_turbo_profile: Seq<char>,
    pub update_install_dir: Seq<char>,
}

impl View for Config {
    type V = ConfigView;

    open spec fn view(&self) -> ConfigView {
        ConfigView {
            language: self.language@,
            theme: self.theme@,
            ai_enabled: self.ai_enabled,
            ai_endpoint: self.ai_endpoint@,
            ai_api_key: self.ai_api_key@,
            ai_app_key: self.ai_app_key@,
            ai_model: self.ai_model@,
            ai_consent_given: self.ai_consent_given,
            scheduler_enabled: self.scheduler_enabled,
            scheduler_interval: self.scheduler_interval@,
            auto_snapshot: self.auto_snapshot,
            cleanup_history: self.cleanup_history@,
            first_run: self.first_run,
            startup_mode: self.startup_mode@,
            tray_enabled: self.tray_enabled,
            telemetry_windows: self.telemetry_windows,
            telemetry_office: self.telemetry_office,
            telemetry_vscode: self.telemetry_vscode,
            backup_dir: self.backup_dir@,
            close_to_tray: self.close_to_tray,
            auto_clean_enabled: self.auto_clean_enabled,
            auto_clean_interval: self.auto_clean_interval@,
            battery_mode: self.battery_mode@,
            turbo_profiles: profile_views(self.turbo_profiles@),
            active_turbo_profile: self.active_turbo_profile@,
            update_install_dir: self.update_install_dir@,
        }
    }
}

/// Default of the boolean settings that start enabled.
pub fn default_true() -> (b: bool)
    ensures
        b,
{
    true
}

/// Default startup mode.
pub fn default_startup_mode() -> (s: String)
    ensures
        s@ == "visible"@,
{
    owned("visible")
}

/// Default of the interval settings.
pub fn default_disabled() -> (s: String)
    ensures
        s@ == "disabled"@,
{
    owned("disabled")
}

/// Default AI model.
pub fn default_ai_model() -> (s: String)
    ensures
        s@ == "aura-ia"@,
{
    owned("aura-ia")
}

/// The settings of a fresh installation.
pub open spec fn default_config() -> ConfigView {
    ConfigView {
        language: "fr"@,
        theme: "dark"@,
        ai_enabled: false,
        ai_endpoint: "https://ia.auraneo.fr"@,
        ai_api_key: Seq::<char>::empty(),
        ai_app_key: "aura_aura_update_mmkzgiz4"@,
        ai_model: "aura-ia"@,
        ai_consent_given: false,
        scheduler_enabled: false,
        scheduler_interval: "disabled"@,
        auto_snapshot: true,
        cleanup_history: Seq::<u64>::empty(),
        first_run: true,
        startup_mode: "visible"@,
        tray_enabled: true,
        telemetry_windows: true,
        telemetry_office: true,
        telemetry_vscode: true,
        backup_dir: Seq::<char>::empty(),
        close_to_tray: false,
        auto_clean_enabled: false,
        auto_clean_interval: "disabled"@,
        battery_mode: "normal"@,
        turbo_profiles: Seq::<ProfileView>::empty(),
        active_turbo_profile: Seq::<char>::empty(),
        update_install_dir: Seq::<char>::empty(),
    }
}

impl Default for Config {
    fn default() -> (c: Self)
        ensures
            c@ == default_config(),
    {
        let c = Config {
            language: owned("fr"),
            theme: owned("dark"),
            ai_enabled: false,
            ai_endpoint: owned("https://ia.auraneo.fr"),
            ai_api_key: String::new(),
            ai_app_key: owned("aura_aura_update_mmkzgiz4"),
            ai_model: owned("aura-ia"),
            ai_consent_given: false,
            scheduler_enabled: false,
            scheduler_interval: owned("disabled"),
            auto_snapshot: true,
            cleanup_history: Vec::new(),
            first_run: true,
            startup_mode: owned("visible"),
            tray_enabled: true,
            telemetry_windows: true,
            telemetry_office: true,
            telemetry_vscode: true,
            backup_dir: String::new(),
            close_to_tray: false,
            auto_clean_enabled: false,
            auto_clean_interval: owned("disabled"),
            battery_mode: owned("normal"),
            turbo_profiles: Vec::new(),
            active_turbo_profile: String::new(),
            update_install_dir: String::new(),
        };
        assert(c@.turbo_profiles =~= Seq::<ProfileView>::empty());
        c
    }
}

// ─────────────────────────────── the setter ───────────────────────────────

/// A value sent by the front-end, as far as the settings read it: a string, a
/// boolean, or anything else.
pub enum ConfigValue {
    Str(String),
    Bool(bool),
    Other,
}

/// The string a value holds, or a default (`value.as_str().unwrap_or(d)`).
pub open spec fn str_or(v: ConfigValue, d: Seq<char>) -> Seq<char> {
    match v {
        ConfigValue::Str(s) => s@,
        _ => d,
    }
}

/// The boolean a value holds, or a default (`value.as_bool().unwrap_or(d)`).
pub open spec fn bool_or(v: ConfigValue, d: bool) -> bool {
    match v {
        ConfigValue::Bool(b) => b,
        _ => d,
    }
}

/// The settings the front-end can write.
pub enum SettingKey {
    Language,
    Theme,
    AiEnabled,
    AiEndpoint,
    AiApiKey,
    AiAppKey,
    AiModel,
    AiConsentGiven,
    SchedulerEnabled,
    SchedulerInterval,
    AutoSnapshot,
    FirstRun,
    StartupMode,
    TrayEnabled,
    TelemetryWindows,
    TelemetryOffice,
    TelemetryVscode,
    BackupDir,
    CloseToTray,
    AutoCleanEnabled,
    AutoCleanInterval,
}

/// The setting a key names; camel-case aliases name the AI settings too.
pub open spec fn setting_key(key: Seq<char>) -> Option<SettingKey> {
    if key == "language"@ {
        Some(SettingKey::Language)
    } else if key == "theme"@ {
        Some(SettingKey::Theme)
    } else if key == "aiEnabled"@ || key == "ai_enabled"@ {
        Some(SettingKey::AiEnabled)
    } else if key == "aiEndpoint"@ || key == "ai_endpoint"@ {
        Some(SettingKey::AiEndpoint)
    } else if key == "aiApiKey"@ || key == "ai_api_key"@ {
        Some(SettingKey::AiApiKey)
    } else if key == "aiAppKey"@ || key == "ai_app_key"@ {
        Some(SettingKey::AiAppKey)
    } else if key == "aiModel"@ || key == "ai_model"@ {
        Some(SettingKey::AiModel)
    } else if key == "aiConsentGiven"@ || key == "ai_consent_given"@ {
        Some(SettingKey::AiConsentGiven)
    } else if key == "scheduler_enabled"@ {
        Some(SettingKey::SchedulerEnabled)
    } else if key == "scheduler_interval"@ {
        Some(SettingKey::SchedulerInterval)
    } else if key == "auto_snapshot"@ {
        Some(SettingKey::AutoSnapshot)
    } else if key == "first_run"@ {
        Some(SettingKey::FirstRun)
    } else if key == "startup_mode"@ {
        Some(SettingKey::StartupMode)
    } else if key == "tray_enabled"@ {
        Some(SettingKey::TrayEnabled)
    } else if key == "telemetry_windows"@ {
        Some(SettingKey::TelemetryWindows)
    } else if key == "telemetry_office"@ {
        Some(SettingKey::TelemetryOffice)
    } else if key == "telemetry_vscode"@ {
        Some(SettingKey::TelemetryVscode)
    } else if key == "backup_dir"@ {
        Some(SettingKey::BackupDir)
    } else if key == "close_to_tray"@ {
        Some(SettingKey::CloseToTray)
    } else if key == "auto_clean_enabled"@ {
        Some(SettingKey::AutoCleanEnabled)
    } else if key == "auto_clean_interval"@ {
        Some(SettingKey::AutoCleanInterval)
    } else {
        None
    }
}

/// The settings after writing `v` to setting `k`; a value of the wrong kind
/// writes the setting's fallback.
pub open spec fn write_setting(c: ConfigView, k: SettingKey, v: ConfigValue) -> ConfigView {
    match k {
        SettingKey::Language => ConfigView { language: str_or(v, "fr"@), ..c },
        SettingKey::Theme => ConfigView { theme: str_or(v, "dark"@), ..c },
        SettingKey::AiEnabled => ConfigView { ai_enabled: bool_or(v, false), ..c },
        SettingKey::AiEndpoint => ConfigView { ai_endpoint: str_or(v, ""@), ..c },
        SettingKey::AiApiKey => ConfigView { ai_api_key: str_or(v, ""@), ..c },
        SettingKey::AiAppKey => ConfigView { ai_app_key: str_or(v, ""@), ..c },
        SettingKey::AiModel => ConfigView { ai_model: str_or(v, "aura-ia"@), ..c },
        SettingKey::AiConsentGiven => ConfigView { ai_consent_given: bool_or(v, false), ..c },
        SettingKey::SchedulerEnabled => ConfigView { scheduler_enabled: bool_or(v, false), ..c },
        SettingKey::SchedulerInterval => ConfigView {
            scheduler_interval: str_or(v, "disabled"@),
            ..c
        },
        SettingKey::AutoSnapshot => ConfigView { auto_snapshot: bool_or(v, true), ..c },
        SettingKey::FirstRun => ConfigView { first_run: bool_or(v, false), ..c },
        SettingKey::StartupMode => ConfigView { startup_mode: str_or(v, "visible"@), ..c },
        SettingKey::TrayEnabled => ConfigView { tray_enabled: bool_or(v, true), ..c },
        SettingKey::TelemetryWindows => ConfigView { telemetry_windows: bool_or(v, true), ..c },
        SettingKey::TelemetryOffice => ConfigView { telemetry_office: bool_or(v, true), ..c },
        SettingKey::TelemetryVscode => ConfigView { telemetry_vscode: bool_or(v, true), ..c },
        SettingKey::BackupDir => ConfigView { backup_dir: str_or(v, ""@), ..c },
        SettingKey::CloseToTray => ConfigView { close_to_tray: bool_or(v, false), ..c },
        SettingKey::AutoCleanEnabled => ConfigView { auto_clean_enabled: bool_or(v, false), ..c },
        SettingKey::AutoCleanInterval => ConfigView {
            auto_clean_interval: str_or(v, "disabled"@),
            ..c
        },
    }
}

/// The settings after writing `v` under `key`; `None` for an unknown key.
pub open spec fn apply_setting(c: ConfigView, key: Seq<char>, v: ConfigValue) -> Option<
    ConfigView,
> {
    match setting_key(key) {
        Some(k) => Some(write_setting(c, k, v)),
        None => None,
    }
}

fn str_or_exec(v: &ConfigValue, d: &str) -> (r: String)
    ensures
        r@ == str_or(*v, d@),
{
    match v {
        ConfigValue::Str(s) => s.clone(),
        _ => owned(d),
    }
}

fn bool_or_exec(v: &ConfigValue, d: bool) -> (r: bool)
    ensures
        r == bool_or(*v, d),
{
    match v {
        ConfigValue::Bool(b) => *b,
        _ => d,
    }
}

/// The setting a key names.
pub fn parse_setting_key(key: &str) -> (r: Option<SettingKey>)
    ensures
        r == setting_key(key@),
{
    if text_eq(key, "language") {
        Some(SettingKey::Language)
    } else if text_eq(key, "theme") {
        Some(SettingKey::Theme)
    } else if text_eq(key, "aiEnabled") || text_eq(key, "ai_enabled") {
        Some(SettingKey::AiEnabled)
    } else if text_eq(key, "aiEndpoint") || text_eq(key, "ai_endpoint") {
        Some(SettingKey::AiEndpoint)
    } else if text_eq(key, "aiApiKey") || text_eq(key, "ai_api_key") {
        Some(SettingKey::AiApiKey)
    } else if text_eq(key, "aiAppKey") || text_eq(key, "ai_app_key") {
        Some(SettingKey::AiAppKey)
    } else if text_eq(key, "aiModel") || text_eq(key, "ai_model") {
        Some(SettingKey::AiModel)
    } else if text_eq(key, "aiConsentGiven") || text_eq(key, "ai_consent_given") {
        Some(SettingKey::AiConsentGiven)
    } else if text_eq(key, "scheduler_enabled") {
        Some(SettingKey::SchedulerEnabled)
    } else if text_eq(key, "scheduler_interval") {
        Some(SettingKey::SchedulerInterval)
    } else if text_eq(key, "auto_snapshot") {
        Some(SettingKey::AutoSnapshot)
    } else if text_eq(key, "first_run") {
        Some(SettingKey::FirstRun)
    } else if text_eq(key, "startup_mode") {
        Some(SettingKey::StartupMode)
    } else if text_eq(key, "tray_enabled") {
        Some(SettingKey::TrayEnabled)
    } else if text_eq(key, "telemetry_windows") {
        Some(SettingKey::TelemetryWindows)
    } else if text_eq(key, "telemetry_office") {
        Some(SettingKey::TelemetryOffice)
    } else if text_eq(key, "telemetry_vscode") {
        Some(SettingKey::TelemetryVscode)
    } else if text_eq(key, "backup_dir") {
        Some(SettingKey::BackupDir)
    } else if text_eq(key, "close_to_tray") {
        Some(SettingKey::CloseToTray)
    } else if text_eq(key, "auto_clean_enabled") {
        Some(SettingKey::AutoCleanEnabled)
    } else if text_eq(key, "auto_clean_interval") {
        Some(SettingKey::AutoCleanInterval)
    } else {
        None
    }
}

/// Writes a value to one setting.
#[verifier::rlimit(100)]
pub fn write_setting_exec(cfg: &mut Config, k: &SettingKey, value: &ConfigValue)
    ensures
        final(cfg)@ == write_setting(old(cfg)@, *k, *value),
{
    match k {
        SettingKey::Language => cfg.language = str_or_exec(value, "fr"),
        SettingKey::Theme => cfg.theme = str_or_exec(value, "dark"),
        SettingKey::AiEnabled => cfg.ai_enabled = bool_or_exec(value, false),
        SettingKey::AiEndpoint => cfg.ai_endpoint = str_or_exec(value, ""),
        SettingKey::AiApiKey => cfg.ai_api_key = str_or_exec(value, ""),
        SettingKey::AiAppKey => cfg.ai_app_key = str_or_exec(value, ""),
        SettingKey::AiModel => cfg.ai_model = str_or_exec(value, "aura-ia"),
        SettingKey::AiConsentGiven => cfg.ai_consent_given = bool_or_exec(value, false),
        SettingKey::SchedulerEnabled => cfg.scheduler_enabled = bool_or_exec(value, false),
        SettingKey::SchedulerInterval => cfg.scheduler_interval = str_or_exec(value, "disabled"),
        SettingKey::AutoSnapshot => cfg.auto_snapshot = bool_or_exec(value, true),
        SettingKey::FirstRun => cfg.first_run = bool_or_exec(value, false),
        SettingKey::StartupMode => cfg.startup_mode = str_or_exec(value, "visible"),
        SettingKey::TrayEnabled => cfg.tray_enabled = bool_or_exec(value, true),
        SettingKey::TelemetryWindows => cfg.telemetry_windows = bool_or_exec(value, true),
        SettingKey::TelemetryOffice => cfg.telemetry_office = bool_or_exec(value, true),
        SettingKey::TelemetryVscode => cfg.telemetry_vscode = bool_or_exec(value, true),
        SettingKey::BackupDir => cfg.backup_dir = str_or_exec(value, ""),
        SettingKey::CloseToTray => cfg.close_to_tray = bool_or_exec(value, false),
        SettingKey::AutoCleanEnabled => cfg.auto_clean_enabled = bool_or_exec(value, false),
        SettingKey::AutoCleanInterval => cfg.auto_clean_interval = str_or_exec(
            value,
            "disabled",
        ),
    }
}

/// Writes one setting: `Ok(true)` with the setting
/// written, or, for an unknown key, an error that names it and no change.
pub fn set_config_value(cfg: &mut Config, key: &str, value: &ConfigValue) -> (r: Result<
    bool,
    String,
>)
    ensures
        match apply_setting(old(cfg)@, key@, *value) {
            Some(c) => r == Ok::<bool, String>(true) && final(cfg)@ == c,
            None => (r matches Err(e) && e@ == "Unknown config key: "@ + key@) && final(cfg)@
                == old(cfg)@,
        },
{
    match parse_setting_key(key) {
        Some(k) => {
            write_setting_exec(cfg, &k, value);
            Ok(true)
        },
        None => {
            let mut e = owned("Unknown config key: ");
            crate::text::push_str(&mut e, key);
            Err(e)
        },
    }
}

/// Whether a setting holds text (the others hold a flag).
pub open spec fn is_text_setting(k: SettingKey) -> bool {
    match k {
        SettingKey::Language | SettingKey::Theme | SettingKey::AiEndpoint | SettingKey::AiApiKey
        | SettingKey::AiAppKey | SettingKey::AiModel | SettingKey::SchedulerInterval
        | SettingKey::StartupMode | SettingKey::BackupDir | SettingKey::AutoCleanInterval => true,
        _ => false,
    }
}

/// The text a text setting holds.
pub open spec fn text_setting(c: ConfigView, k: SettingKey) -> Seq<char> {
    match k {
        SettingKey::Language => c.language,
        SettingKey::Theme => c.theme,
        SettingKey::AiEndpoint => c.ai_endpoint,
        SettingKey::AiApiKey => c.ai_api_key,
        SettingKey::AiAppKey => c.ai_app_key,
        SettingKey::AiModel => c.ai_model,
        SettingKey::SchedulerInterval => c.scheduler_interval,
        SettingKey::StartupMode => c.startup_mode,
        SettingKey::BackupDir => c.backup_dir,
        SettingKey::AutoCleanInterval => c.auto_clean_interval,
        _ => Seq::<char>::empty(),
    }
}

/// The flag a flag setting holds.
pub open spec fn flag_setting(c: ConfigView, k: SettingKey) -> bool {
    match k {
        SettingKey::AiEnabled => c.ai_enabled,
        SettingKey::AiConsentGiven => c.ai_consent_given,
        SettingKey::SchedulerEnabled => c.scheduler_enabled,
        SettingKey::AutoSnapshot => c.auto_snapshot,
        SettingKey::FirstRun => c.first_run,
        SettingKey::TrayEnabled => c.tray_enabled,
        SettingKey::TelemetryWindows => c.telemetry_windows,
        SettingKey::TelemetryOffice => c.telemetry_office,
        SettingKey::TelemetryVscode => c.telemetry_vscode,
        SettingKey::CloseToTray => c.close_to_tray,
        SettingKey::AutoCleanEnabled => c.auto_clean_enabled,
        _ => false,
    }
}

/// A written setting reads back as the value written, when the value is of
/// the setting's kind; every other setting keeps its value, and so do the
/// parts of the configuration the setter cannot reach (cleanup history,
/// battery mode, turbo profiles, install directory).
pub proof fn lemma_written_setting_reads_back(c: ConfigView, k: SettingKey, v: ConfigValue, other: SettingKey)
    ensures
        is_text_setting(k) && (v matches ConfigValue::Str(s)) ==> text_setting(write_setting(c, k, v), k)
            == str_or(v, Seq::<char>::empty()),
        !is_text_setting(k) && (v matches ConfigValue::Bool(b)) ==> flag_setting(write_setting(c, k, v), k)
            == bool_or(v, false),
        other != k ==> text_setting(write_setting(c, k, v), other) == text_setting(c, other),
        other != k ==> flag_setting(write_setting(c, k, v), other) == flag_setting(c, other),
        write_setting(c, k, v).cleanup_history == c.cleanup_history,
        write_setting(c, k, v).battery_mode == c.battery_mode,
        write_setting(c, k, v).turbo_profiles == c.turbo_profiles,
        write_setting(c, k, v).active_turbo_profile == c.active_turbo_profile,
        write_setting(c, k, v).update_install_dir == c.update_install_dir,
{
}

/// Writing text under a key sets the setting of the same name to that text
/// and leaves every other setting as it was; the AI settings also answer to
/// their camel-case names.
pub proof fn lemma_text_keys_write_their_field(c: ConfigView, s: String)
    ensures
        apply_setting(c, "language"@, ConfigValue::Str(s)) == Some((ConfigView { language: s@, ..c })),
        apply_setting(c, "theme"@, ConfigValue::Str(s)) == Some((ConfigView { theme: s@, ..c })),
        apply_setting(c, "aiEndpoint"@, ConfigValue::Str(s)) == Some((ConfigView { ai_endpoint: s@, ..c })),
        apply_setting(c, "ai_endpoint"@, ConfigValue::Str(s)) == Some((ConfigView { ai_endpoint: s@, ..c })),
        apply_setting(c, "aiApiKey"@, ConfigValue::Str(s)) == Some((ConfigView { ai_api_key: s@, ..c })),
        apply_setting(c, "ai_api_key"@, ConfigValue::Str(s)) == Some((ConfigView { ai_api_key: s@, ..c })),
        apply_setting(c, "aiAppKey"@, ConfigValue::Str(s)) == Some((ConfigView { ai_app_key: s@, ..c })),
        apply_setting(c, "ai_app_key"@, ConfigValue::Str(s)) == Some((ConfigView { ai_app_key: s@, ..c })),
        apply_setting(c, "aiModel"@, ConfigValue::Str(s)) == Some((ConfigView { ai_model: s@, ..c })),
        apply_setting(c, "ai_model"@, ConfigValue::Str(s)) == Some((ConfigView { ai_model: s@, ..c })),
        apply_setting(c, "scheduler_interval"@, ConfigValue::Str(s)) == Some((ConfigView { scheduler_interval: s@, ..c })),
        apply_setting(c, "startup_mode"@, ConfigValue::Str(s)) == Some((ConfigView { startup_mode: s@, ..c })),
        apply_setting(c, "backup_dir"@, ConfigValue::Str(s)) == Some((ConfigView { backup_dir: s@, ..c })),
        apply_setting(c, "auto_clean_interval"@, ConfigValue::Str(s)) == Some((ConfigView { auto_clean_interval: s@, ..c })),
{
        assert("theme"@ != "language"@) by {
            reveal_strlit("theme");
            reveal_strlit("language");
            assert("theme"@.len() != "language"@.len());
        }
        assert("aiEndpoint"@ != "language"@) by {
            reveal_strlit("aiEndpoint");
            reveal_strlit("language");
            assert("aiEndpoint"@.len() != "language"@.len());
        }
        assert("aiEndpoint"@ != "theme"@) by {
            reveal_strlit("aiEndpoint");
            reveal_strlit("theme");
            assert("aiEndpoint"@.len() != "theme"@.len());
        }
        assert("aiEndpoint"@ != "aiEnabled"@) by {
            reveal_strlit("aiEndpoint");
            reveal_strlit("aiEnabled");
            assert("aiEndpoint"@.len() != "aiEnabled"@.len());
        }
        assert("aiEndpoint"@ != "ai_enabled"@) by {
            reveal_strlit("aiEndpoint");
            reveal_strlit("ai_enabled");
            assert("aiEndpoint"@[2] != "ai_enabled"@[2]);
        }
        assert("ai_endpoint"@ != "language"@) by {
            reveal_strlit("ai_endpoint");
            reveal_strlit("language");
            assert("ai_endpoint"@.len() != "language"@.len());
        }
        assert("ai_endpoint"@ != "theme"@) by {
            reveal_strlit("ai_endpoint");
            reveal_strlit("theme");
            assert("ai_endpoint"@.len() != "theme"@.len());
        }
        assert("ai_endpoint"@ != "aiEnabled"@) by {
            reveal_strlit("ai_endpoint");
            reveal_strlit("aiEnabled");
            assert("ai_endpoint"@.len() != "aiEnabled"@.len());
        }
        assert("ai_endpoint"@ != "ai_enabled"@) by {
            reveal_strlit("ai_endpoint");
            reveal_strlit("ai_enabled");
            assert("ai_endpoint"@.len() != "ai_enabled"@.len());
        }
        assert("ai_endpoint"@ != "aiEndpoint"@) by {
            reveal_strlit("ai_endpoint");
            reveal_strlit("aiEndpoint");
            assert("ai_endpoint"@.len() != "aiEndpoint"@.len());
        }
        assert("aiApiKey"@ != "language"@) by {
            reveal_strlit("aiApiKey");
            reveal_strlit("language");
            assert("aiApiKey"@[0] != "language"@[0]);
        }
        assert("aiApiKey"@ != "theme"@) by {
            reveal_strlit("aiApiKey");
            reveal_strlit("theme");
            assert("aiApiKey"@.len() != "theme"@.len());
        }
        assert("aiApiKey"@ != "aiEnabled"@) by {
            reveal_strlit("aiApiKey");
            reveal_strlit("aiEnabled");
            assert("aiApiKey"@.len() != "aiEnabled"@.len());
        }
        assert("aiApiKey"@ != "ai_enabled"@) by {
            reveal_strlit("aiApiKey");
            reveal_strlit("ai_enabled");
            assert("aiApiKey"@.len() != "ai_enabled"@.len());
        }
        assert("aiApiKey"@ != "aiEndpoint"@) by {
            reveal_strlit("aiApiKey");
            reveal_strlit("aiEndpoint");
            assert("aiApiKey"@.len() != "aiEndpoint"@.len());
        }
        assert("aiApiKey"@ != "ai_endpoint"@) by {
            reveal_strlit("aiApiKey");
            reveal_strlit("ai_endpoint");
            assert("aiApiKey"@.len() != "ai_endpoint"@.len());
        }
        assert("ai_api_key"@ != "language"@) by {
            reveal_strlit("ai_api_key");
            reveal_strlit("language");
            assert("ai_api_key"@.len() != "language"@.len());
        }
        assert("ai_api_key"@ != "theme"@) by {
            reveal_strlit("ai_api_key");
            reveal_strlit("theme");
            assert("ai_api_key"@.len() != "theme"@.len());
        }
        assert("ai_api_key"@ != "aiEnabled"@) by {
            reveal_strlit("ai_api_key");
            reveal_strlit("aiEnabled");
            assert("ai_api_key"@.len() != "aiEnabled"@.len());
        }
        assert("ai_api_key"@ != "ai_enabled"@) by {
            reveal_strlit("ai_api_key");
            reveal_strlit("ai_enabled");
            assert("ai_api_key"@[3] != "ai_enabled"@[3]);
        }
        assert("ai_api_key"@ != "aiEndpoint"@) by {
            reveal_strlit("ai_api_key");
            reveal_strlit("aiEndpoint");
            assert("ai_api_key"@[2] != "aiEndpoint"@[2]);
        }
        assert("ai_api_key"@ != "ai_endpoint"@) by {
            reveal_strlit("ai_api_key");
            reveal_strlit("ai_endpoint");
            assert("ai_api_key"@.len() != "ai_endpoint"@.len());
        }
        assert("ai_api_key"@ != "aiApiKey"@) by {
            reveal_strlit("ai_api_key");
            reveal_strlit("aiApiKey");
            assert("ai_api_key"@.len() != "aiApiKey"@.len());
        }
        assert("aiAppKey"@ != "language"@) by {
            reveal_strlit("aiAppKey");
            reveal_strlit("language");
            assert("aiAppKey"@[0] != "language"@[0]);
        }
        assert("aiAppKey"@ != "theme"@) by {
            reveal_strlit("aiAppKey");
            reveal_strlit("theme");
            assert("aiAppKey"@.len() != "theme"@.len());
        }
        assert("aiAppKey"@ != "aiEnabled"@) by {
            reveal_strlit("aiAppKey");
            reveal_strlit("aiEnabled");
            assert("aiAppKey"@.len() != "aiEnabled"@.len());
        }
        assert("aiAppKey"@ != "ai_enabled"@) by {
            reveal_strlit("aiAppKey");
            reveal_strlit("ai_enabled");
            assert("aiAppKey"@.len() != "ai_enabled"@.len());
        }
        assert("aiAppKey"@ != "aiEndpoint"@) by {
            reveal_strlit("aiAppKey");
            reveal_strlit("aiEndpoint");
            assert("aiAppKey"@.len() != "aiEndpoint"@.len());
        }
        assert("aiAppKey"@ != "ai_endpoint"@) by {
            reveal_strlit("aiAppKey");
            reveal_strlit("ai_endpoint");
            assert("aiAppKey"@.len() != "ai_endpoint"@.len());
        }
        assert("aiAppKey"@ != "aiApiKey"@) by {
            reveal_strlit("aiAppKey");
            reveal_strlit("aiApiKey");
            assert("aiAppKey"@[4] != "aiApiKey"@[4]);
        }
        assert("aiAppKey"@ != "ai_api_key"@) by {
            reveal_strlit("aiAppKey");
            reveal_strlit("ai_api_key");
            assert("aiAppKey"@.len() != "ai_api_key"@.len());
        }
        assert("ai_app_key"@ != "language"@) by {
            reveal_strlit("ai_app_key");
            reveal_strlit("language");
            assert("ai_app_key"@.len() != "language"@.len());
        }
        assert("ai_app_key"@ != "theme"@) by {
            reveal_strlit("ai_app_key");
            reveal_strlit("theme");
            assert("ai_app_key"@.len() != "theme"@.len());
        }
        assert("ai_app_key"@ != "aiEnabled"@) by {
            reveal_strlit("ai_app_key");
            reveal_strlit("aiEnabled");
            assert("ai_app_key"@.len() != "aiEnabled"@.len());
        }
        assert("ai_app_key"@ != "ai_enabled"@) by {
            reveal_strlit("ai_app_key");
            reveal_strlit("ai_enabled");
            assert("ai_app_key"@[3] != "ai_enabled"@[3]);
        }
        assert("ai_app_key"@ != "aiEndpoint"@) by {
            reveal_strlit("ai_app_key");
            reveal_strlit("aiEndpoint");
            assert("ai_app_key"@[2] != "aiEndpoint"@[2]);
        }
        assert("ai_app_key"@ != "ai_endpoint"@) by {
            reveal_strlit("ai_app_key");
            reveal_strlit("ai_endpoint");
            assert("ai_app_key"@.len() != "ai_endpoint"@.len());
        }
        assert("ai_app_key"@ != "aiApiKey"@) by {
            reveal_strlit("ai_app_key");
            reveal_strlit("aiApiKey");
            assert("ai_app_key"@.len() != "aiApiKey"@.len());
        }
        assert("ai_app_key"@ != "ai_api_key"@) by {
            reveal_strlit("ai_app_key");
            reveal_strlit("ai_api_key");
            assert("ai_app_key"@[5] != "ai_api_key"@[5]);
        }
        assert("ai_app_key"@ != "aiAppKey"@) by {
            reveal_strlit("ai_app_key");
            reveal_strlit("aiAppKey");
            assert("ai_app_key"@.len() != "aiAppKey"@.len());
        }
        assert("aiModel"@ != "language"@) by {
            reveal_strlit("aiModel");
            reveal_strlit("language");
            assert("aiModel"@.len() != "language"@.len());
        }
        assert("aiModel"@ != "theme"@) by {
            reveal_strlit("aiModel");
            reveal_strlit("theme");
            assert("aiModel"@.len() != "theme"@.len());
        }
        assert("aiModel"@ != "aiEnabled"@) by {
            reveal_strlit("aiModel");
            reveal_strlit("aiEnabled");
            assert("aiModel"@.len() != "aiEnabled"@.len());
        }
        assert("aiModel"@ != "ai_enabled"@) by {
            reveal_strlit("aiModel");
            reveal_strlit("ai_enabled");
            assert("aiModel"@.len() != "ai_enabled"@.len());
        }
        assert("aiModel"@ != "aiEndpoint"@) by {
            reveal_strlit("aiModel");
            reveal_strlit("aiEndpoint");
            assert("aiModel"@.len() != "aiEndpoint"@.len());
        }
        assert("aiModel"@ != "ai_endpoint"@) by {
            reveal_strlit("aiModel");
            reveal_strlit("ai_endpoint");
            assert("aiModel"@.len() != "ai_endpoint"@.len());
        }
        assert("aiModel"@ != "aiApiKey"@) by {
            reveal_strlit("aiModel");
            reveal_strlit("aiApiKey");
            assert("aiModel"@.len() != "aiApiKey"@.len());
        }
        assert("aiModel"@ != "ai_api_key"@) by {
            reveal_strlit("aiModel");
            reveal_strlit("ai_api_key");
            assert("aiModel"@.len() != "ai_api_key"@.len());
        }
        assert("aiModel"@ != "aiAppKey"@) by {
            reveal_strlit("aiModel");
            reveal_strlit("aiAppKey");
            assert("aiModel"@.len() != "aiAppKey"@.len());
        }
        assert("aiModel"@ != "ai_app_key"@) by {
            reveal_strlit("aiModel");
            reveal_strlit("ai_app_key");
            assert("aiModel"@.len() != "ai_app_key"@.len());
        }
        assert("ai_model"@ != "language"@) by {
            reveal_strlit("ai_model");
            reveal_strlit("language");
            assert("ai_model"@[0] != "language"@[0]);
        }
        assert("ai_model"@ != "theme"@) by {
            reveal_strlit("ai_model");
            reveal_strlit("theme");
            assert("ai_model"@.len() != "theme"@.len());
        }
        assert("ai_model"@ != "aiEnabled"@) by {
            reveal_strlit("ai_model");
            reveal_strlit("aiEnabled");
            assert("ai_model"@.len() != "aiEnabled"@.len());
        }
        assert("ai_model"@ != "ai_enabled"@) by {
            reveal_strlit("ai_model");
            reveal_strlit("ai_enabled");
            assert("ai_model"@.len() != "ai_enabled"@.len());
        }
        assert("ai_model"@ != "aiEndpoint"@) by {
            reveal_strlit("ai_model");
            reveal_strlit("aiEndpoint");
            assert("ai_model"@.len() != "aiEndpoint"@.len());
        }
        assert("ai_model"@ != "ai_endpoint"@) by {
            reveal_strlit("ai_model");
            reveal_strlit("ai_endpoint");
            assert("ai_model"@.len() != "ai_endpoint"@.len());
        }
        assert("ai_model"@ != "aiApiKey"@) by {
            reveal_strlit("ai_model");
            reveal_strlit("aiApiKey");
            assert("ai_model"@[2] != "aiApiKey"@[2]);
        }
        assert("ai_model"@ != "ai_api_key"@) by {
            reveal_strlit("ai_model");
            reveal_strlit("ai_api_key");
            assert("ai_model"@.len() != "ai_api_key"@.len());
        }
        assert("ai_model"@ != "aiAppKey"@) by {
            reveal_strlit("ai_model");
            reveal_strlit("aiAppKey");
            assert("ai_model"@[2] != "aiAppKey"@[2]);
        }
        assert("ai_model"@ != "ai_app_key"@) by {
            reveal_strlit("ai_model");
            reveal_strlit("ai_app_key");
            assert("ai_model"@.len() != "ai_app_key"@.len());
        }
        assert("ai_model"@ != "aiModel"@) by {
            reveal_strlit("ai_model");
            reveal_strlit("aiModel");
            assert("ai_model"@.len() != "aiModel"@.len());
        }
        assert("scheduler_interval"@ != "language"@) by {
            reveal_strlit("scheduler_interval");
            reveal_strlit("language");
            assert("scheduler_interval"@.len() != "language"@.len());
        }
        assert("scheduler_interval"@ != "theme"@) by {
            reveal_strlit("scheduler_interval");
            reveal_strlit("theme");
            assert("scheduler_interval"@.len() != "theme"@.len());
        }
        assert("scheduler_interval"@ != "aiEnabled"@) by {
            reveal_strlit("scheduler_interval");
            reveal_strlit("aiEnabled");
            assert("scheduler_interval"@.len() != "aiEnabled"@.len());
        }
        assert("scheduler_interval"@ != "ai_enabled"@) by {
            reveal_strlit("scheduler_interval");
            reveal_strlit("ai_enabled");
            assert("scheduler_interval"@.len() != "ai_enabled"@.len());
        }
        assert("scheduler_interval"@ != "aiEndpoint"@) by {
            reveal_strlit("scheduler_interval");
            reveal_strlit("aiEndpoint");
            assert("scheduler_interval"@.len() != "aiEndpoint"@.len());
        }
        assert("scheduler_interval"@ != "ai_endpoint"@) by {
            reveal_strlit("scheduler_interval");
            reveal_strlit("ai_endpoint");
            assert("scheduler_interval"@.len() != "ai_endpoint"@.len());
        }
        assert("scheduler_interval"@ != "aiApiKey"@) by {
            reveal_strlit("scheduler_interval");
            reveal_strlit("aiApiKey");
            assert("scheduler_interval"@.len() != "aiApiKey"@.len());
        }
        assert("scheduler_interval"@ != "ai_api_key"@) by {
            reveal_strlit("scheduler_interval");
            reveal_strlit("ai_api_key");
            assert("scheduler_interval"@.len() != "ai_api_key"@.len());
        }
        assert("scheduler_interval"@ != "aiAppKey"@) by {
            reveal_strlit("scheduler_interval");
            reveal_strlit("aiAppKey");
            assert("scheduler_interval"@.len() != "aiAppKey"@.len());
        }
        assert("scheduler_interval"@ != "ai_app_key"@) by {
            reveal_strlit("scheduler_interval");
            reveal_strlit("ai_app_key");
            assert("scheduler_interval"@.len() != "ai_app_key"@.len());
        }
        assert("scheduler_interval"@ != "aiModel"@) by {
            reveal_strlit("scheduler_interval");
            reveal_strlit("aiModel");
            assert("scheduler_interval"@.len() != "aiModel"@.len());
        }
        assert("scheduler_interval"@ != "ai_model"@) by {
            reveal_strlit("scheduler_interval");
            reveal_strlit("ai_model");
            assert("scheduler_interval"@.len() != "ai_model"@.len());
        }
        assert("scheduler_interval"@ != "aiConsentGiven"@) by {
            reveal_strlit("scheduler_interval");
            reveal_strlit("aiConsentGiven");
            assert("scheduler_interval"@.len() != "aiConsentGiven"@.len());
        }
        assert("scheduler_interval"@ != "ai_consent_given"@) by {
            reveal_strlit("scheduler_interval");
            reveal_strlit("ai_consent_given");
            assert("scheduler_interval"@.len() != "ai_consent_given"@.len());
        }
        assert("scheduler_interval"@ != "scheduler_enabled"@) by {
            reveal_strlit("scheduler_interval");
            reveal_strlit("scheduler_enabled");
            assert("scheduler_interval"@.len() != "scheduler_enabled"@.len());
        }
        assert("startup_mode"@ != "language"@) by {
            reveal_strlit("startup_mode");
            reveal_strlit("language");
            assert("startup_mode"@.len() != "language"@.len());
        }
        assert("startup_mode"@ != "theme"@) by {
            reveal_strlit("startup_mode");
            reveal_strlit("theme");
            assert("startup_mode"@.len() != "theme"@.len());
        }
        assert("startup_mode"@ != "aiEnabled"@) by {
            reveal_strlit("startup_mode");
            reveal_strlit("aiEnabled");
            assert("startup_mode"@.len() != "aiEnabled"@.len());
        }
        assert("startup_mode"@ != "ai_enabled"@) by {
            reveal_strlit("startup_mode");
            reveal_strlit("ai_enabled");
            assert("startup_mode"@.len() != "ai_enabled"@.len());
        }
        assert("startup_mode"@ != "aiEndpoint"@) by {
            reveal_strlit("startup_mode");
            reveal_strlit("aiEndpoint");
            assert("startup_mode"@.len() != "aiEndpoint"@.len());
        }
        assert("startup_mode"@ != "ai_endpoint"@) by {
            reveal_strlit("startup_mode");
            reveal_strlit("ai_endpoint");
            assert("startup_mode"@.len() != "ai_endpoint"@.len());
        }
        assert("startup_mode"@ != "aiApiKey"@) by {
            reveal_strlit("startup_mode");
            reveal_strlit("aiApiKey");
            assert("startup_mode"@.len() != "aiApiKey"@.len());
        }
        assert("startup_mode"@ != "ai_api_key"@) by {
            reveal_strlit("startup_mode");
            reveal_strlit("ai_api_key");
            assert("startup_mode"@.len() != "ai_api_key"@.len());
        }
        assert("startup_mode"@ != "aiAppKey"@) by {
            reveal_strlit("startup_mode");
            reveal_strlit("aiAppKey");
            assert("startup_mode"@.len() != "aiAppKey"@.len());
        }
        assert("startup_mode"@ != "ai_app_key"@) by {
            reveal_strlit("startup_mode");
            reveal_strlit("ai_app_key");
            assert("startup_mode"@.len() != "ai_app_key"@.len());
        }
        assert("startup_mode"@ != "aiModel"@) by {
            reveal_strlit("startup_mode");
            reveal_strlit("aiModel");
            assert("startup_mode"@.len() != "aiModel"@.len());
        }
        assert("startup_mode"@ != "ai_model"@) by {
            reveal_strlit("startup_mode");
            reveal_strlit("ai_model");
            assert("startup_mode"@.len() != "ai_model"@.len());
        }
        assert("startup_mode"@ != "aiConsentGiven"@) by {
            reveal_strlit("startup_mode");
            reveal_strlit("aiConsentGiven");
            assert("startup_mode"@.len() != "aiConsentGiven"@.len());
        }
        assert("startup_mode"@ != "ai_consent_given"@) by {
            reveal_strlit("startup_mode");
            reveal_strlit("ai_consent_given");
            assert("startup_mode"@.len() != "ai_consent_given"@.len());
        }
        assert("startup_mode"@ != "scheduler_enabled"@) by {
            reveal_strlit("startup_mode");
            reveal_strlit("scheduler_enabled");
            assert("startup_mode"@.len() != "scheduler_enabled"@.len());
        }
        assert("startup_mode"@ != "scheduler_interval"@) by {
            reveal_strlit("startup_mode");
            reveal_strlit("scheduler_interval");
            assert("startup_mode"@.len() != "scheduler_interval"@.len());
        }
        assert("startup_mode"@ != "auto_snapshot"@) by {
            reveal_strlit("startup_mode");
            reveal_strlit("auto_snapshot");
            assert("startup_mode"@.len() != "auto_snapshot"@.len());
        }
        assert("startup_mode"@ != "first_run"@) by {
            reveal_strlit("startup_mode");
            reveal_strlit("first_run");
            assert("startup_mode"@.len() != "first_run"@.len());
        }
        assert("backup_dir"@ != "language"@) by {
            reveal_strlit("backup_dir");
            reveal_strlit("language");
            assert("backup_dir"@.len() != "language"@.len());
        }
        assert("backup_dir"@ != "theme"@) by {
            reveal_strlit("backup_dir");
            reveal_strlit("theme");
            assert("backup_dir"@.len() != "theme"@.len());
        }
        assert("backup_dir"@ != "aiEnabled"@) by {
            reveal_strlit("backup_dir");
            reveal_strlit("aiEnabled");
            assert("backup_dir"@.len() != "aiEnabled"@.len());
        }
        assert("backup_dir"@ != "ai_enabled"@) by {
            reveal_strlit("backup_dir");
            reveal_strlit("ai_enabled");
            assert("backup_dir"@[0] != "ai_enabled"@[0]);
        }
        assert("backup_dir"@ != "aiEndpoint"@) by {
            reveal_strlit("backup_dir");
            reveal_strlit("aiEndpoint");
            assert("backup_dir"@[0] != "aiEndpoint"@[0]);
        }
        assert("backup_dir"@ != "ai_endpoint"@) by {
            reveal_strlit("backup_dir");
            reveal_strlit("ai_endpoint");
            assert("backup_dir"@.len() != "ai_endpoint"@.len());
        }
        assert("backup_dir"@ != "aiApiKey"@) by {
            reveal_strlit("backup_dir");
            reveal_strlit("aiApiKey");
            assert("backup_dir"@.len() != "aiApiKey"@.len());
        }
        assert("backup_dir"@ != "ai_api_key"@) by {
            reveal_strlit("backup_dir");
            reveal_strlit("ai_api_key");
            assert("backup_dir"@[0] != "ai_api_key"@[0]);
        }
        assert("backup_dir"@ != "aiAppKey"@) by {
            reveal_strlit("backup_dir");
            reveal_strlit("aiAppKey");
            assert("backup_dir"@.len() != "aiAppKey"@.len());
        }
        assert("backup_dir"@ != "ai_app_key"@) by {
            reveal_strlit("backup_dir");
            reveal_strlit("ai_app_key");
            assert("backup_dir"@[0] != "ai_app_key"@[0]);
        }
        assert("backup_dir"@ != "aiModel"@) by {
            reveal_strlit("backup_dir");
            reveal_strlit("aiModel");
            assert("backup_dir"@.len() != "aiModel"@.len());
        }
        assert("backup_dir"@ != "ai_model"@) by {
            reveal_strlit("backup_dir");
            reveal_strlit("ai_model");
            assert("backup_dir"@.len() != "ai_model"@.len());
        }
        assert("backup_dir"@ != "aiConsentGiven"@) by {
            reveal_strlit("backup_dir");
            reveal_strlit("aiConsentGiven");
            assert("backup_dir"@.len() != "aiConsentGiven"@.len());
        }
        assert("backup_dir"@ != "ai_consent_given"@) by {
            reveal_strlit("backup_dir");
            reveal_strlit("ai_consent_given");
            assert("backup_dir"@.len() != "ai_consent_given"@.len());
        }
        assert("backup_dir"@ != "scheduler_enabled"@) by {
            reveal_strlit("backup_dir");
            reveal_strlit("scheduler_enabled");
            assert("backup_dir"@.len() != "scheduler_enabled"@.len());
        }
        assert("backup_dir"@ != "scheduler_interval"@) by {
            reveal_strlit("backup_dir");
            reveal_strlit("scheduler_interval");
            assert("backup_dir"@.len() != "scheduler_interval"@.len());
        }
        assert("backup_dir"@ != "auto_snapshot"@) by {
            reveal_strlit("backup_dir");
            reveal_strlit("auto_snapshot");
            assert("backup_dir"@.len() != "auto_snapshot"@.len());
        }
        assert("backup_dir"@ != "first_run"@) by {
            reveal_strlit("backup_dir");
            reveal_strlit("first_run");
            assert("backup_dir"@.len() != "first_run"@.len());
        }
        assert("backup_dir"@ != "startup_mode"@) by {
            reveal_strlit("backup_dir");
            reveal_strlit("startup_mode");
            assert("backup_dir"@.len() != "startup_mode"@.len());
        }
        assert("backup_dir"@ != "tray_enabled"@) by {
            reveal_strlit("backup_dir");
            reveal_strlit("tray_enabled");
            assert("backup_dir"@.len() != "tray_enabled"@.len());
        }
        assert("backup_dir"@ != "telemetry_windows"@) by {
            reveal_strlit("backup_dir");
            reveal_strlit("telemetry_windows");
            assert("backup_dir"@.len() != "telemetry_windows"@.len());
        }
        assert("backup_dir"@ != "telemetry_office"@) by {
            reveal_strlit("backup_dir");
            reveal_strlit("telemetry_office");
            assert("backup_dir"@.len() != "telemetry_office"@.len());
        }
        assert("backup_dir"@ != "telemetry_vscode"@) by {
            reveal_strlit("backup_dir");
            reveal_strlit("telemetry_vscode");
            assert("backup_dir"@.len() != "telemetry_vscode"@.len());
        }
        assert("auto_clean_interval"@ != "language"@) by {
            reveal_strlit("auto_clean_interval");
            reveal_strlit("language");
            assert("auto_clean_interval"@.len() != "language"@.len());
        }
        assert("auto_clean_interval"@ != "theme"@) by {
            reveal_strlit("auto_clean_interval");
            reveal_strlit("theme");
            assert("auto_clean_interval"@.len() != "theme"@.len());
        }
        assert("auto_clean_interval"@ != "aiEnabled"@) by {
            reveal_strlit("auto_clean_interval");
            reveal_strlit("aiEnabled");
            assert("auto_clean_interval"@.len() != "aiEnabled"@.len());
        }
        assert("auto_clean_interval"@ != "ai_enabled"@) by {
            reveal_strlit("auto_clean_interval");
            reveal_strlit("ai_enabled");
            assert("auto_clean_interval"@.len() != "ai_enabled"@.len());
        }
        assert("auto_clean_interval"@ != "aiEndpoint"@) by {
            reveal_strlit("auto_clean_interval");
            reveal_strlit("aiEndpoint");
            assert("auto_clean_interval"@.len() != "aiEndpoint"@.len());
        }
        assert("auto_clean_interval"@ != "ai_endpoint"@) by {
            reveal_strlit("auto_clean_interval");
            reveal_strlit("ai_endpoint");
            assert("auto_clean_interval"@.len() != "ai_endpoint"@.len());
        }
        assert("auto_clean_interval"@ != "aiApiKey"@) by {
            reveal_strlit("auto_clean_interval");
            reveal_strlit("aiApiKey");
            assert("auto_clean_interval"@.len() != "aiApiKey"@.len());
        }
        assert("auto_clean_interval"@ != "ai_api_key"@) by {
            reveal_strlit("auto_clean_interval");
            reveal_strlit("ai_api_key");
            assert("auto_clean_interval"@.len() != "ai_api_key"@.len());
        }
        assert("auto_clean_interval"@ != "aiAppKey"@) by {
            reveal_strlit("auto_clean_interval");
            reveal_strlit("aiAppKey");
            assert("auto_clean_interval"@.len() != "aiAppKey"@.len());
        }
        assert("auto_clean_interval"@ != "ai_app_key"@) by {
            reveal_strlit("auto_clean_interval");
            reveal_strlit("ai_app_key");
            assert("auto_clean_interval"@.len() != "ai_app_key"@.len());
        }
        assert("auto_clean_interval"@ != "aiModel"@) by {
            reveal_strlit("auto_clean_interval");
            reveal_strlit("aiModel");
            assert("auto_clean_interval"@.len() != "aiModel"@.len());
        }
        assert("auto_clean_interval"@ != "ai_model"@) by {
            reveal_strlit("auto_clean_interval");
            reveal_strlit("ai_model");
            assert("auto_clean_interval"@.len() != "ai_model"@.len());
        }
        assert("auto_clean_interval"@ != "aiConsentGiven"@) by {
            reveal_strlit("auto_clean_interval");
            reveal_strlit("aiConsentGiven");
            assert("auto_clean_interval"@.len() != "aiConsentGiven"@.len());
        }
        assert("auto_clean_interval"@ != "ai_consent_given"@) by {
            reveal_strlit("auto_clean_interval");
            reveal_strlit("ai_consent_given");
            assert("auto_clean_interval"@.len() != "ai_consent_given"@.len());
        }
        assert("auto_clean_interval"@ != "scheduler_enabled"@) by {
            reveal_strlit("auto_clean_interval");
            reveal_strlit("scheduler_enabled");
            assert("auto_clean_interval"@.len() != "scheduler_enabled"@.len());
        }
        assert("auto_clean_interval"@ != "scheduler_interval"@) by {
            reveal_strlit("auto_clean_interval");
            reveal_strlit("scheduler_interval");
            assert("auto_clean_interval"@.len() != "scheduler_interval"@.len());
        }
        assert("auto_clean_interval"@ != "auto_snapshot"@) by {
            reveal_strlit("auto_clean_interval");
            reveal_strlit("auto_snapshot");
            assert("auto_clean_interval"@.len() != "auto_snapshot"@.len());
        }
        assert("auto_clean_interval"@ != "first_run"@) by {
            reveal_strlit("auto_clean_interval");
            reveal_strlit("first_run");
            assert("auto_clean_interval"@.len() != "first_run"@.len());
        }
        assert("auto_clean_interval"@ != "startup_mode"@) by {
            reveal_strlit("auto_clean_interval");
            reveal_strlit("startup_mode");
            assert("auto_clean_interval"@.len() != "startup_mode"@.len());
        }
        assert("auto_clean_interval"@ != "tray_enabled"@) by {
            reveal_strlit("auto_clean_interval");
            reveal_strlit("tray_enabled");
            assert("auto_clean_interval"@.len() != "tray_enabled"@.len());
        }
        assert("auto_clean_interval"@ != "telemetry_windows"@) by {
            reveal_strlit("auto_clean_interval");
            reveal_strlit("telemetry_windows");
            assert("auto_clean_interval"@.len() != "telemetry_windows"@.len());
        }
        assert("auto_clean_interval"@ != "telemetry_office"@) by {
            reveal_strlit("auto_clean_interval");
            reveal_strlit("telemetry_office");
            assert("auto_clean_interval"@.len() != "telemetry_office"@.len());
        }
        assert("auto_clean_interval"@ != "telemetry_vscode"@) by {
            reveal_strlit("auto_clean_interval");
            reveal_strlit("telemetry_vscode");
            assert("auto_clean_interval"@.len() != "telemetry_vscode"@.len());
        }
        assert("auto_clean_interval"@ != "backup_dir"@) by {
            reveal_strlit("auto_clean_interval");
            reveal_strlit("backup_dir");
            assert("auto_clean_interval"@.len() != "backup_dir"@.len());
        }
        assert("auto_clean_interval"@ != "close_to_tray"@) by {
            reveal_strlit("auto_clean_interval");
            reveal_strlit("close_to_tray");
            assert("auto_clean_interval"@.len() != "close_to_tray"@.len());
        }
        assert("auto_clean_interval"@ != "auto_clean_enabled"@) by {
            reveal_strlit("auto_clean_interval");
            reveal_strlit("auto_clean_enabled");
            assert("auto_clean_interval"@.len() != "auto_clean_enabled"@.len());
        }
}

/// Writing a flag under a key sets the setting of the same name to that flag
/// and leaves every other setting as it was; the AI settings also answer to
/// their camel-case names.
pub proof fn lemma_flag_keys_write_their_field(c: ConfigView, b: bool)
    ensures
        apply_setting(c, "aiEnabled"@, ConfigValue::Bool(b)) == Some((ConfigView { ai_enabled: b, ..c })),
        apply_setting(c, "ai_enabled"@, ConfigValue::Bool(b)) == Some((ConfigView { ai_enabled: b, ..c })),
        apply_setting(c, "aiConsentGiven"@, ConfigValue::Bool(b)) == Some((ConfigView { ai_consent_given: b, ..c })),
        apply_setting(c, "ai_consent_given"@, ConfigValue::Bool(b)) == Some((ConfigView { ai_consent_given: b, ..c })),
        apply_setting(c, "scheduler_enabled"@, ConfigValue::Bool(b)) == Some((ConfigView { scheduler_enabled: b, ..c })),
        apply_setting(c, "auto_snapshot"@, ConfigValue::Bool(b)) == Some((ConfigView { auto_snapshot: b, ..c })),
        apply_setting(c, "first_run"@, ConfigValue::Bool(b)) == Some((ConfigView { first_run: b, ..c })),
        apply_setting(c, "tray_enabled"@, ConfigValue::Bool(b)) == Some((ConfigView { tray_enabled: b, ..c })),
        apply_setting(c, "telemetry_windows"@, ConfigValue::Bool(b)) == Some((ConfigView { telemetry_windows: b, ..c })),
        apply_setting(c, "telemetry_office"@, ConfigValue::Bool(b)) == Some((ConfigView { telemetry_office: b, ..c })),
        apply_setting(c, "telemetry_vscode"@, ConfigValue::Bool(b)) == Some((ConfigView { telemetry_vscode: b, ..c })),
        apply_setting(c, "close_to_tray"@, ConfigValue::Bool(b)) == Some((ConfigView { close_to_tray: b, ..c })),
        apply_setting(c, "auto_clean_enabled"@, ConfigValue::Bool(b)) == Some((ConfigView { auto_clean_enabled: b, ..c })),
{
        assert("aiEnabled"@ != "language"@) by {
            reveal_strlit("aiEnabled");
            reveal_strlit("language");
            assert("aiEnabled"@.len() != "language"@.len());
        }
        assert("aiEnabled"@ != "theme"@) by {
            reveal_strlit("aiEnabled");
            reveal_strlit("theme");
            assert("aiEnabled"@.len() != "theme"@.len());
        }
        assert("ai_enabled"@ != "language"@) by {
            reveal_strlit("ai_enabled");
            reveal_strlit("language");
            assert("ai_enabled"@.len() != "language"@.len());
        }
        assert("ai_enabled"@ != "theme"@) by {
            reveal_strlit("ai_enabled");
            reveal_strlit("theme");
            assert("ai_enabled"@.len() != "theme"@.len());
        }
        assert("ai_enabled"@ != "aiEnabled"@) by {
            reveal_strlit("ai_enabled");
            reveal_strlit("aiEnabled");
            assert("ai_enabled"@.len() != "aiEnabled"@.len());
        }
        assert("aiConsentGiven"@ != "language"@) by {
            reveal_strlit("aiConsentGiven");
            reveal_strlit("language");
            assert("aiConsentGiven"@.len() != "language"@.len());
        }
        assert("aiConsentGiven"@ != "theme"@) by {
            reveal_strlit("aiConsentGiven");
            reveal_strlit("theme");
            assert("aiConsentGiven"@.len() != "theme"@.len());
        }
        assert("aiConsentGiven"@ != "aiEnabled"@) by {
            reveal_strlit("aiConsentGiven");
            reveal_strlit("aiEnabled");
            assert("aiConsentGiven"@.len() != "aiEnabled"@.len());
        }
        assert("aiConsentGiven"@ != "ai_enabled"@) by {
            reveal_strlit("aiConsentGiven");
            reveal_strlit("ai_enabled");
            assert("aiConsentGiven"@.len() != "ai_enabled"@.len());
        }
        assert("aiConsentGiven"@ != "aiEndpoint"@) by {
            reveal_strlit("aiConsentGiven");
            reveal_strlit("aiEndpoint");
            assert("aiConsentGiven"@.len() != "aiEndpoint"@.len());
        }
        assert("aiConsentGiven"@ != "ai_endpoint"@) by {
            reveal_strlit("aiConsentGiven");
            reveal_strlit("ai_endpoint");
            assert("aiConsentGiven"@.len() != "ai_endpoint"@.len());
        }
        assert("aiConsentGiven"@ != "aiApiKey"@) by {
            reveal_strlit("aiConsentGiven");
            reveal_strlit("aiApiKey");
            assert("aiConsentGiven"@.len() != "aiApiKey"@.len());
        }
        assert("aiConsentGiven"@ != "ai_api_key"@) by {
            reveal_strlit("aiConsentGiven");
            reveal_strlit("ai_api_key");
            assert("aiConsentGiven"@.len() != "ai_api_key"@.len());
        }
        assert("aiConsentGiven"@ != "aiAppKey"@) by {
            reveal_strlit("aiConsentGiven");
            reveal_strlit("aiAppKey");
            assert("aiConsentGiven"@.len() != "aiAppKey"@.len());
        }
        assert("aiConsentGiven"@ != "ai_app_key"@) by {
            reveal_strlit("aiConsentGiven");
            reveal_strlit("ai_app_key");
            assert("aiConsentGiven"@.len() != "ai_app_key"@.len());
        }
        assert("aiConsentGiven"@ != "aiModel"@) by {
            reveal_strlit("aiConsentGiven");
            reveal_strlit("aiModel");
            assert("aiConsentGiven"@.len() != "aiModel"@.len());
        }
        assert("aiConsentGiven"@ != "ai_model"@) by {
            reveal_strlit("aiConsentGiven");
            reveal_strlit("ai_model");
            assert("aiConsentGiven"@.len() != "ai_model"@.len());
        }
        assert("ai_consent_given"@ != "language"@) by {
            reveal_strlit("ai_consent_given");
            reveal_strlit("language");
            assert("ai_consent_given"@.len() != "language"@.len());
        }
        assert("ai_consent_given"@ != "theme"@) by {
            reveal_strlit("ai_consent_given");
            reveal_strlit("theme");
            assert("ai_consent_given"@.len() != "theme"@.len());
        }
        assert("ai_consent_given"@ != "aiEnabled"@) by {
            reveal_strlit("ai_consent_given");
            reveal_strlit("aiEnabled");
            assert("ai_consent_given"@.len() != "aiEnabled"@.len());
        }
        assert("ai_consent_given"@ != "ai_enabled"@) by {
            reveal_strlit("ai_consent_given");
            reveal_strlit("ai_enabled");
            assert("ai_consent_given"@.len() != "ai_enabled"@.len());
        }
        assert("ai_consent_given"@ != "aiEndpoint"@) by {
            reveal_strlit("ai_consent_given");
            reveal_strlit("aiEndpoint");
            assert("ai_consent_given"@.len() != "aiEndpoint"@.len());
        }
        assert("ai_consent_given"@ != "ai_endpoint"@) by {
            reveal_strlit("ai_consent_given");
            reveal_strlit("ai_endpoint");
            assert("ai_consent_given"@.len() != "ai_endpoint"@.len());
        }
        assert("ai_consent_given"@ != "aiApiKey"@) by {
            reveal_strlit("ai_consent_given");
            reveal_strlit("aiApiKey");
            assert("ai_consent_given"@.len() != "aiApiKey"@.len());
        }
        assert("ai_consent_given"@ != "ai_api_key"@) by {
            reveal_strlit("ai_consent_given");
            reveal_strlit("ai_api_key");
            assert("ai_consent_given"@.len() != "ai_api_key"@.len());
        }
        assert("ai_consent_given"@ != "aiAppKey"@) by {
            reveal_strlit("ai_consent_given");
            reveal_strlit("aiAppKey");
            assert("ai_consent_given"@.len() != "aiAppKey"@.len());
        }
        assert("ai_consent_given"@ != "ai_app_key"@) by {
            reveal_strlit("ai_consent_given");
            reveal_strlit("ai_app_key");
            assert("ai_consent_given"@.len() != "ai_app_key"@.len());
        }
        assert("ai_consent_given"@ != "aiModel"@) by {
            reveal_strlit("ai_consent_given");
            reveal_strlit("aiModel");
            assert("ai_consent_given"@.len() != "aiModel"@.len());
        }
        assert("ai_consent_given"@ != "ai_model"@) by {
            reveal_strlit("ai_consent_given");
            reveal_strlit("ai_model");
            assert("ai_consent_given"@.len() != "ai_model"@.len());
        }
        assert("ai_consent_given"@ != "aiConsentGiven"@) by {
            reveal_strlit("ai_consent_given");
            reveal_strlit("aiConsentGiven");
            assert("ai_consent_given"@.len() != "aiConsentGiven"@.len());
        }
        assert("scheduler_enabled"@ != "language"@) by {
            reveal_strlit("scheduler_enabled");
            reveal_strlit("language");
            assert("scheduler_enabled"@.len() != "language"@.len());
        }
        assert("scheduler_enabled"@ != "theme"@) by {
            reveal_strlit("scheduler_enabled");
            reveal_strlit("theme");
            assert("scheduler_enabled"@.len() != "theme"@.len());
        }
        assert("scheduler_enabled"@ != "aiEnabled"@) by {
            reveal_strlit("scheduler_enabled");
            reveal_strlit("aiEnabled");
            assert("scheduler_enabled"@.len() != "aiEnabled"@.len());
        }
        assert("scheduler_enabled"@ != "ai_enabled"@) by {
            reveal_strlit("scheduler_enabled");
            reveal_strlit("ai_enabled");
            assert("scheduler_enabled"@.len() != "ai_enabled"@.len());
        }
        assert("scheduler_enabled"@ != "aiEndpoint"@) by {
            reveal_strlit("scheduler_enabled");
            reveal_strlit("aiEndpoint");
            assert("scheduler_enabled"@.len() != "aiEndpoint"@.len());
        }
        assert("scheduler_enabled"@ != "ai_endpoint"@) by {
            reveal_strlit("scheduler_enabled");
            reveal_strlit("ai_endpoint");
            assert("scheduler_enabled"@.len() != "ai_endpoint"@.len());
        }
        assert("scheduler_enabled"@ != "aiApiKey"@) by {
            reveal_strlit("scheduler_enabled");
            reveal_strlit("aiApiKey");
            assert("scheduler_enabled"@.len() != "aiApiKey"@.len());
        }
        assert("scheduler_enabled"@ != "ai_api_key"@) by {
            reveal_strlit("scheduler_enabled");
            reveal_strlit("ai_api_key");
            assert("scheduler_enabled"@.len() != "ai_api_key"@.len());
        }
        assert("scheduler_enabled"@ != "aiAppKey"@) by {
            reveal_strlit("scheduler_enabled");
            reveal_strlit("aiAppKey");
            assert("scheduler_enabled"@.len() != "aiAppKey"@.len());
        }
        assert("scheduler_enabled"@ != "ai_app_key"@) by {
            reveal_strlit("scheduler_enabled");
            reveal_strlit("ai_app_key");
            assert("scheduler_enabled"@.len() != "ai_app_key"@.len());
        }
        assert("scheduler_enabled"@ != "aiModel"@) by {
            reveal_strlit("scheduler_enabled");
            reveal_strlit("aiModel");
            assert("scheduler_enabled"@.len() != "aiModel"@.len());
        }
        assert("scheduler_enabled"@ != "ai_model"@) by {
            reveal_strlit("scheduler_enabled");
            reveal_strlit("ai_model");
            assert("scheduler_enabled"@.len() != "ai_model"@.len());
        }
        assert("scheduler_enabled"@ != "aiConsentGiven"@) by {
            reveal_strlit("scheduler_enabled");
            reveal_strlit("aiConsentGiven");
            assert("scheduler_enabled"@.len() != "aiConsentGiven"@.len());
        }
        assert("scheduler_enabled"@ != "ai_consent_given"@) by {
            reveal_strlit("scheduler_enabled");
            reveal_strlit("ai_consent_given");
            assert("scheduler_enabled"@.len() != "ai_consent_given"@.len());
        }
        assert("auto_snapshot"@ != "language"@) by {
            reveal_strlit("auto_snapshot");
            reveal_strlit("language");
            assert("auto_snapshot"@.len() != "language"@.len());
        }
        assert("auto_snapshot"@ != "theme"@) by {
            reveal_strlit("auto_snapshot");
            reveal_strlit("theme");
            assert("auto_snapshot"@.len() != "theme"@.len());
        }
        assert("auto_snapshot"@ != "aiEnabled"@) by {
            reveal_strlit("auto_snapshot");
            reveal_strlit("aiEnabled");
            assert("auto_snapshot"@.len() != "aiEnabled"@.len());
        }
        assert("auto_snapshot"@ != "ai_enabled"@) by {
            reveal_strlit("auto_snapshot");
            reveal_strlit("ai_enabled");
            assert("auto_snapshot"@.len() != "ai_enabled"@.len());
        }
        assert("auto_snapshot"@ != "aiEndpoint"@) by {
            reveal_strlit("auto_snapshot");
            reveal_strlit("aiEndpoint");
            assert("auto_snapshot"@.len() != "aiEndpoint"@.len());
        }
        assert("auto_snapshot"@ != "ai_endpoint"@) by {
            reveal_strlit("auto_snapshot");
            reveal_strlit("ai_endpoint");
            assert("auto_snapshot"@.len() != "ai_endpoint"@.len());
        }
        assert("auto_snapshot"@ != "aiApiKey"@) by {
            reveal_strlit("auto_snapshot");
            reveal_strlit("aiApiKey");
            assert("auto_snapshot"@.len() != "aiApiKey"@.len());
        }
        assert("auto_snapshot"@ != "ai_api_key"@) by {
            reveal_strlit("auto_snapshot");
            reveal_strlit("ai_api_key");
            assert("auto_snapshot"@.len() != "ai_api_key"@.len());
        }
        assert("auto_snapshot"@ != "aiAppKey"@) by {
            reveal_strlit("auto_snapshot");
            reveal_strlit("aiAppKey");
            assert("auto_snapshot"@.len() != "aiAppKey"@.len());
        }
        assert("auto_snapshot"@ != "ai_app_key"@) by {
            reveal_strlit("auto_snapshot");
            reveal_strlit("ai_app_key");
            assert("auto_snapshot"@.len() != "ai_app_key"@.len());
        }
        assert("auto_snapshot"@ != "aiModel"@) by {
            reveal_strlit("auto_snapshot");
            reveal_strlit("aiModel");
            assert("auto_snapshot"@.len() != "aiModel"@.len());
        }
        assert("auto_snapshot"@ != "ai_model"@) by {
            reveal_strlit("auto_snapshot");
            reveal_strlit("ai_model");
            assert("auto_snapshot"@.len() != "ai_model"@.len());
        }
        assert("auto_snapshot"@ != "aiConsentGiven"@) by {
            reveal_strlit("auto_snapshot");
            reveal_strlit("aiConsentGiven");
            assert("auto_snapshot"@.len() != "aiConsentGiven"@.len());
        }
        assert("auto_snapshot"@ != "ai_consent_given"@) by {
            reveal_strlit("auto_snapshot");
            reveal_strlit("ai_consent_given");
            assert("auto_snapshot"@.len() != "ai_consent_given"@.len());
        }
        assert("auto_snapshot"@ != "scheduler_enabled"@) by {
            reveal_strlit("auto_snapshot");
            reveal_strlit("scheduler_enabled");
            assert("auto_snapshot"@.len() != "scheduler_enabled"@.len());
        }
        assert("auto_snapshot"@ != "scheduler_interval"@) by {
            reveal_strlit("auto_snapshot");
            reveal_strlit("scheduler_interval");
            assert("auto_snapshot"@.len() != "scheduler_interval"@.len());
        }
        assert("first_run"@ != "language"@) by {
            reveal_strlit("first_run");
            reveal_strlit("language");
            assert("first_run"@.len() != "language"@.len());
        }
        assert("first_run"@ != "theme"@) by {
            reveal_strlit("first_run");
            reveal_strlit("theme");
            assert("first_run"@.len() != "theme"@.len());
        }
        assert("first_run"@ != "aiEnabled"@) by {
            reveal_strlit("first_run");
            reveal_strlit("aiEnabled");
            assert("first_run"@[0] != "aiEnabled"@[0]);
        }
        assert("first_run"@ != "ai_enabled"@) by {
            reveal_strlit("first_run");
            reveal_strlit("ai_enabled");
            assert("first_run"@.len() != "ai_enabled"@.len());
        }
        assert("first_run"@ != "aiEndpoint"@) by {
            reveal_strlit("first_run");
            reveal_strlit("aiEndpoint");
            assert("first_run"@.len() != "aiEndpoint"@.len());
        }
        assert("first_run"@ != "ai_endpoint"@) by {
            reveal_strlit("first_run");
            reveal_strlit("ai_endpoint");
            assert("first_run"@.len() != "ai_endpoint"@.len());
        }
        assert("first_run"@ != "aiApiKey"@) by {
            reveal_strlit("first_run");
            reveal_strlit("aiApiKey");
            assert("first_run"@.len() != "aiApiKey"@.len());
        }
        assert("first_run"@ != "ai_api_key"@) by {
            reveal_strlit("first_run");
            reveal_strlit("ai_api_key");
            assert("first_run"@.len() != "ai_api_key"@.len());
        }
        assert("first_run"@ != "aiAppKey"@) by {
            reveal_strlit("first_run");
            reveal_strlit("aiAppKey");
            assert("first_run"@.len() != "aiAppKey"@.len());
        }
        assert("first_run"@ != "ai_app_key"@) by {
            reveal_strlit("first_run");
            reveal_strlit("ai_app_key");
            assert("first_run"@.len() != "ai_app_key"@.len());
        }
        assert("first_run"@ != "aiModel"@) by {
            reveal_strlit("first_run");
            reveal_strlit("aiModel");
            assert("first_run"@.len() != "aiModel"@.len());
        }
        assert("first_run"@ != "ai_model"@) by {
            reveal_strlit("first_run");
            reveal_strlit("ai_model");
            assert("first_run"@.len() != "ai_model"@.len());
        }
        assert("first_run"@ != "aiConsentGiven"@) by {
            reveal_strlit("first_run");
            reveal_strlit("aiConsentGiven");
            assert("first_run"@.len() != "aiConsentGiven"@.len());
        }
        assert("first_run"@ != "ai_consent_given"@) by {
            reveal_strlit("first_run");
            reveal_strlit("ai_consent_given");
            assert("first_run"@.len() != "ai_consent_given"@.len());
        }
        assert("first_run"@ != "scheduler_enabled"@) by {
            reveal_strlit("first_run");
            reveal_strlit("scheduler_enabled");
            assert("first_run"@.len() != "scheduler_enabled"@.len());
        }
        assert("first_run"@ != "scheduler_interval"@) by {
            reveal_strlit("first_run");
            reveal_strlit("scheduler_interval");
            assert("first_run"@.len() != "scheduler_interval"@.len());
        }
        assert("first_run"@ != "auto_snapshot"@) by {
            reveal_strlit("first_run");
            reveal_strlit("auto_snapshot");
            assert("first_run"@.len() != "auto_snapshot"@.len());
        }
        assert("tray_enabled"@ != "language"@) by {
            reveal_strlit("tray_enabled");
            reveal_strlit("language");
            assert("tray_enabled"@.len() != "language"@.len());
        }
        assert("tray_enabled"@ != "theme"@) by {
            reveal_strlit("tray_enabled");
            reveal_strlit("theme");
            assert("tray_enabled"@.len() != "theme"@.len());
        }
        assert("tray_enabled"@ != "aiEnabled"@) by {
            reveal_strlit("tray_enabled");
            reveal_strlit("aiEnabled");
            assert("tray_enabled"@.len() != "aiEnabled"@.len());
        }
        assert("tray_enabled"@ != "ai_enabled"@) by {
            reveal_strlit("tray_enabled");
            reveal_strlit("ai_enabled");
            assert("tray_enabled"@.len() != "ai_enabled"@.len());
        }
        assert("tray_enabled"@ != "aiEndpoint"@) by {
            reveal_strlit("tray_enabled");
            reveal_strlit("aiEndpoint");
            assert("tray_enabled"@.len() != "aiEndpoint"@.len());
        }
        assert("tray_enabled"@ != "ai_endpoint"@) by {
            reveal_strlit("tray_enabled");
            reveal_strlit("ai_endpoint");
            assert("tray_enabled"@.len() != "ai_endpoint"@.len());
        }
        assert("tray_enabled"@ != "aiApiKey"@) by {
            reveal_strlit("tray_enabled");
            reveal_strlit("aiApiKey");
            assert("tray_enabled"@.len() != "aiApiKey"@.len());
        }
        assert("tray_enabled"@ != "ai_api_key"@) by {
            reveal_strlit("tray_enabled");
            reveal_strlit("ai_api_key");
            assert("tray_enabled"@.len() != "ai_api_key"@.len());
        }
        assert("tray_enabled"@ != "aiAppKey"@) by {
            reveal_strlit("tray_enabled");
            reveal_strlit("aiAppKey");
            assert("tray_enabled"@.len() != "aiAppKey"@.len());
        }
        assert("tray_enabled"@ != "ai_app_key"@) by {
            reveal_strlit("tray_enabled");
            reveal_strlit("ai_app_key");
            assert("tray_enabled"@.len() != "ai_app_key"@.len());
        }
        assert("tray_enabled"@ != "aiModel"@) by {
            reveal_strlit("tray_enabled");
            reveal_strlit("aiModel");
            assert("tray_enabled"@.len() != "aiModel"@.len());
        }
        assert("tray_enabled"@ != "ai_model"@) by {
            reveal_strlit("tray_enabled");
            reveal_strlit("ai_model");
            assert("tray_enabled"@.len() != "ai_model"@.len());
        }
        assert("tray_enabled"@ != "aiConsentGiven"@) by {
            reveal_strlit("tray_enabled");
            reveal_strlit("aiConsentGiven");
            assert("tray_enabled"@.len() != "aiConsentGiven"@.len());
        }
        assert("tray_enabled"@ != "ai_consent_given"@) by {
            reveal_strlit("tray_enabled");
            reveal_strlit("ai_consent_given");
            assert("tray_enabled"@.len() != "ai_consent_given"@.len());
        }
        assert("tray_enabled"@ != "scheduler_enabled"@) by {
            reveal_strlit("tray_enabled");
            reveal_strlit("scheduler_enabled");
            assert("tray_enabled"@.len() != "scheduler_enabled"@.len());
        }
        assert("tray_enabled"@ != "scheduler_interval"@) by {
            reveal_strlit("tray_enabled");
            reveal_strlit("scheduler_interval");
            assert("tray_enabled"@.len() != "scheduler_interval"@.len());
        }
        assert("tray_enabled"@ != "auto_snapshot"@) by {
            reveal_strlit("tray_enabled");
            reveal_strlit("auto_snapshot");
            assert("tray_enabled"@.len() != "auto_snapshot"@.len());
        }
        assert("tray_enabled"@ != "first_run"@) by {
            reveal_strlit("tray_enabled");
            reveal_strlit("first_run");
            assert("tray_enabled"@.len() != "first_run"@.len());
        }
        assert("tray_enabled"@ != "startup_mode"@) by {
            reveal_strlit("tray_enabled");
            reveal_strlit("startup_mode");
            assert("tray_enabled"@[0] != "startup_mode"@[0]);
        }
        assert("telemetry_windows"@ != "language"@) by {
            reveal_strlit("telemetry_windows");
            reveal_strlit("language");
            assert("telemetry_windows"@.len() != "language"@.len());
        }
        assert("telemetry_windows"@ != "theme"@) by {
            reveal_strlit("telemetry_windows");
            reveal_strlit("theme");
            assert("telemetry_windows"@.len() != "theme"@.len());
        }
        assert("telemetry_windows"@ != "aiEnabled"@) by {
            reveal_strlit("telemetry_windows");
            reveal_strlit("aiEnabled");
            assert("telemetry_windows"@.len() != "aiEnabled"@.len());
        }
        assert("telemetry_windows"@ != "ai_enabled"@) by {
            reveal_strlit("telemetry_windows");
            reveal_strlit("ai_enabled");
            assert("telemetry_windows"@.len() != "ai_enabled"@.len());
        }
        assert("telemetry_windows"@ != "aiEndpoint"@) by {
            reveal_strlit("telemetry_windows");
            reveal_strlit("aiEndpoint");
            assert("telemetry_windows"@.len() != "aiEndpoint"@.len());
        }
        assert("telemetry_windows"@ != "ai_endpoint"@) by {
            reveal_strlit("telemetry_windows");
            reveal_strlit("ai_endpoint");
            assert("telemetry_windows"@.len() != "ai_endpoint"@.len());
        }
        assert("telemetry_windows"@ != "aiApiKey"@) by {
            reveal_strlit("telemetry_windows");
            reveal_strlit("aiApiKey");
            assert("telemetry_windows"@.len() != "aiApiKey"@.len());
        }
        assert("telemetry_windows"@ != "ai_api_key"@) by {
            reveal_strlit("telemetry_windows");
            reveal_strlit("ai_api_key");
            assert("telemetry_windows"@.len() != "ai_api_key"@.len());
        }
        assert("telemetry_windows"@ != "aiAppKey"@) by {
            reveal_strlit("telemetry_windows");
            reveal_strlit("aiAppKey");
            assert("telemetry_windows"@.len() != "aiAppKey"@.len());
        }
        assert("telemetry_windows"@ != "ai_app_key"@) by {
            reveal_strlit("telemetry_windows");
            reveal_strlit("ai_app_key");
            assert("telemetry_windows"@.len() != "ai_app_key"@.len());
        }
        assert("telemetry_windows"@ != "aiModel"@) by {
            reveal_strlit("telemetry_windows");
            reveal_strlit("aiModel");
            assert("telemetry_windows"@.len() != "aiModel"@.len());
        }
        assert("telemetry_windows"@ != "ai_model"@) by {
            reveal_strlit("telemetry_windows");
            reveal_strlit("ai_model");
            assert("telemetry_windows"@.len() != "ai_model"@.len());
        }
        assert("telemetry_windows"@ != "aiConsentGiven"@) by {
            reveal_strlit("telemetry_windows");
            reveal_strlit("aiConsentGiven");
            assert("telemetry_windows"@.len() != "aiConsentGiven"@.len());
        }
        assert("telemetry_windows"@ != "ai_consent_given"@) by {
            reveal_strlit("telemetry_windows");
            reveal_strlit("ai_consent_given");
            assert("telemetry_windows"@.len() != "ai_consent_given"@.len());
        }
        assert("telemetry_windows"@ != "scheduler_enabled"@) by {
            reveal_strlit("telemetry_windows");
            reveal_strlit("scheduler_enabled");
            assert("telemetry_windows"@[0] != "scheduler_enabled"@[0]);
        }
        assert("telemetry_windows"@ != "scheduler_interval"@) by {
            reveal_strlit("telemetry_windows");
            reveal_strlit("scheduler_interval");
            assert("telemetry_windows"@.len() != "scheduler_interval"@.len());
        }
        assert("telemetry_windows"@ != "auto_snapshot"@) by {
            reveal_strlit("telemetry_windows");
            reveal_strlit("auto_snapshot");
            assert("telemetry_windows"@.len() != "auto_snapshot"@.len());
        }
        assert("telemetry_windows"@ != "first_run"@) by {
            reveal_strlit("telemetry_windows");
            reveal_strlit("first_run");
            assert("telemetry_windows"@.len() != "first_run"@.len());
        }
        assert("telemetry_windows"@ != "startup_mode"@) by {
            reveal_strlit("telemetry_windows");
            reveal_strlit("startup_mode");
            assert("telemetry_windows"@.len() != "startup_mode"@.len());
        }
        assert("telemetry_windows"@ != "tray_enabled"@) by {
            reveal_strlit("telemetry_windows");
            reveal_strlit("tray_enabled");
            assert("telemetry_windows"@.len() != "tray_enabled"@.len());
        }
        assert("telemetry_office"@ != "language"@) by {
            reveal_strlit("telemetry_office");
            reveal_strlit("language");
            assert("telemetry_office"@.len() != "language"@.len());
        }
        assert("telemetry_office"@ != "theme"@) by {
            reveal_strlit("telemetry_office");
            reveal_strlit("theme");
            assert("telemetry_office"@.len() != "theme"@.len());
        }
        assert("telemetry_office"@ != "aiEnabled"@) by {
            reveal_strlit("telemetry_office");
            reveal_strlit("aiEnabled");
            assert("telemetry_office"@.len() != "aiEnabled"@.len());
        }
        assert("telemetry_office"@ != "ai_enabled"@) by {
            reveal_strlit("telemetry_office");
            reveal_strlit("ai_enabled");
            assert("telemetry_office"@.len() != "ai_enabled"@.len());
        }
        assert("telemetry_office"@ != "aiEndpoint"@) by {
            reveal_strlit("telemetry_office");
            reveal_strlit("aiEndpoint");
            assert("telemetry_office"@.len() != "aiEndpoint"@.len());
        }
        assert("telemetry_office"@ != "ai_endpoint"@) by {
            reveal_strlit("telemetry_office");
            reveal_strlit("ai_endpoint");
            assert("telemetry_office"@.len() != "ai_endpoint"@.len());
        }
        assert("telemetry_office"@ != "aiApiKey"@) by {
            reveal_strlit("telemetry_office");
            reveal_strlit("aiApiKey");
            assert("telemetry_office"@.len() != "aiApiKey"@.len());
        }
        assert("telemetry_office"@ != "ai_api_key"@) by {
            reveal_strlit("telemetry_office");
            reveal_strlit("ai_api_key");
            assert("telemetry_office"@.len() != "ai_api_key"@.len());
        }
        assert("telemetry_office"@ != "aiAppKey"@) by {
            reveal_strlit("telemetry_office");
            reveal_strlit("aiAppKey");
            assert("telemetry_office"@.len() != "aiAppKey"@.len());
        }
        assert("telemetry_office"@ != "ai_app_key"@) by {
            reveal_strlit("telemetry_office");
            reveal_strlit("ai_app_key");
            assert("telemetry_office"@.len() != "ai_app_key"@.len());
        }
        assert("telemetry_office"@ != "aiModel"@) by {
            reveal_strlit("telemetry_office");
            reveal_strlit("aiModel");
            assert("telemetry_office"@.len() != "aiModel"@.len());
        }
        assert("telemetry_office"@ != "ai_model"@) by {
            reveal_strlit("telemetry_office");
            reveal_strlit("ai_model");
            assert("telemetry_office"@.len() != "ai_model"@.len());
        }
        assert("telemetry_office"@ != "aiConsentGiven"@) by {
            reveal_strlit("telemetry_office");
            reveal_strlit("aiConsentGiven");
            assert("telemetry_office"@.len() != "aiConsentGiven"@.len());
        }
        assert("telemetry_office"@ != "ai_consent_given"@) by {
            reveal_strlit("telemetry_office");
            reveal_strlit("ai_consent_given");
            assert("telemetry_office"@[0] != "ai_consent_given"@[0]);
        }
        assert("telemetry_office"@ != "scheduler_enabled"@) by {
            reveal_strlit("telemetry_office");
            reveal_strlit("scheduler_enabled");
            assert("telemetry_office"@.len() != "scheduler_enabled"@.len());
        }
        assert("telemetry_office"@ != "scheduler_interval"@) by {
            reveal_strlit("telemetry_office");
            reveal_strlit("scheduler_interval");
            assert("telemetry_office"@.len() != "scheduler_interval"@.len());
        }
        assert("telemetry_office"@ != "auto_snapshot"@) by {
            reveal_strlit("telemetry_office");
            reveal_strlit("auto_snapshot");
            assert("telemetry_office"@.len() != "auto_snapshot"@.len());
        }
        assert("telemetry_office"@ != "first_run"@) by {
            reveal_strlit("telemetry_office");
            reveal_strlit("first_run");
            assert("telemetry_office"@.len() != "first_run"@.len());
        }
        assert("telemetry_office"@ != "startup_mode"@) by {
            reveal_strlit("telemetry_office");
            reveal_strlit("startup_mode");
            assert("telemetry_office"@.len() != "startup_mode"@.len());
        }
        assert("telemetry_office"@ != "tray_enabled"@) by {
            reveal_strlit("telemetry_office");
            reveal_strlit("tray_enabled");
            assert("telemetry_office"@.len() != "tray_enabled"@.len());
        }
        assert("telemetry_office"@ != "telemetry_windows"@) by {
            reveal_strlit("telemetry_office");
            reveal_strlit("telemetry_windows");
            assert("telemetry_office"@.len() != "telemetry_windows"@.len());
        }
        assert("telemetry_vscode"@ != "language"@) by {
            reveal_strlit("telemetry_vscode");
            reveal_strlit("language");
            assert("telemetry_vscode"@.len() != "language"@.len());
        }
        assert("telemetry_vscode"@ != "theme"@) by {
            reveal_strlit("telemetry_vscode");
            reveal_strlit("theme");
            assert("telemetry_vscode"@.len() != "theme"@.len());
        }
        assert("telemetry_vscode"@ != "aiEnabled"@) by {
            reveal_strlit("telemetry_vscode");
            reveal_strlit("aiEnabled");
            assert("telemetry_vscode"@.len() != "aiEnabled"@.len());
        }
        assert("telemetry_vscode"@ != "ai_enabled"@) by {
            reveal_strlit("telemetry_vscode");
            reveal_strlit("ai_enabled");
            assert("telemetry_vscode"@.len() != "ai_enabled"@.len());
        }
        assert("telemetry_vscode"@ != "aiEndpoint"@) by {
            reveal_strlit("telemetry_vscode");
            reveal_strlit("aiEndpoint");
            assert("telemetry_vscode"@.len() != "aiEndpoint"@.len());
        }
        assert("telemetry_vscode"@ != "ai_endpoint"@) by {
            reveal_strlit("telemetry_vscode");
            reveal_strlit("ai_endpoint");
            assert("telemetry_vscode"@.len() != "ai_endpoint"@.len());
        }
        assert("telemetry_vscode"@ != "aiApiKey"@) by {
            reveal_strlit("telemetry_vscode");
            reveal_strlit("aiApiKey");
            assert("telemetry_vscode"@.len() != "aiApiKey"@.len());
        }
        assert("telemetry_vscode"@ != "ai_api_key"@) by {
            reveal_strlit("telemetry_vscode");
            reveal_strlit("ai_api_key");
            assert("telemetry_vscode"@.len() != "ai_api_key"@.len());
        }
        assert("telemetry_vscode"@ != "aiAppKey"@) by {
            reveal_strlit("telemetry_vscode");
            reveal_strlit("aiAppKey");
            assert("telemetry_vscode"@.len() != "aiAppKey"@.len());
        }
        assert("telemetry_vscode"@ != "ai_app_key"@) by {
            reveal_strlit("telemetry_vscode");
            reveal_strlit("ai_app_key");
            assert("telemetry_vscode"@.len() != "ai_app_key"@.len());
        }
        assert("telemetry_vscode"@ != "aiModel"@) by {
            reveal_strlit("telemetry_vscode");
            reveal_strlit("aiModel");
            assert("telemetry_vscode"@.len() != "aiModel"@.len());
        }
        assert("telemetry_vscode"@ != "ai_model"@) by {
            reveal_strlit("telemetry_vscode");
            reveal_strlit("ai_model");
            assert("telemetry_vscode"@.len() != "ai_model"@.len());
        }
        assert("telemetry_vscode"@ != "aiConsentGiven"@) by {
            reveal_strlit("telemetry_vscode");
            reveal_strlit("aiConsentGiven");
            assert("telemetry_vscode"@.len() != "aiConsentGiven"@.len());
        }
        assert("telemetry_vscode"@ != "ai_consent_given"@) by {
            reveal_strlit("telemetry_vscode");
            reveal_strlit("ai_consent_given");
            assert("telemetry_vscode"@[0] != "ai_consent_given"@[0]);
        }
        assert("telemetry_vscode"@ != "scheduler_enabled"@) by {
            reveal_strlit("telemetry_vscode");
            reveal_strlit("scheduler_enabled");
            assert("telemetry_vscode"@.len() != "scheduler_enabled"@.len());
        }
        assert("telemetry_vscode"@ != "scheduler_interval"@) by {
            reveal_strlit("telemetry_vscode");
            reveal_strlit("scheduler_interval");
            assert("telemetry_vscode"@.len() != "scheduler_interval"@.len());
        }
        assert("telemetry_vscode"@ != "auto_snapshot"@) by {
            reveal_strlit("telemetry_vscode");
            reveal_strlit("auto_snapshot");
            assert("telemetry_vscode"@.len() != "auto_snapshot"@.len());
        }
        assert("telemetry_vscode"@ != "first_run"@) by {
            reveal_strlit("telemetry_vscode");
            reveal_strlit("first_run");
            assert("telemetry_vscode"@.len() != "first_run"@.len());
        }
        assert("telemetry_vscode"@ != "startup_mode"@) by {
            reveal_strlit("telemetry_vscode");
            reveal_strlit("startup_mode");
            assert("telemetry_vscode"@.len() != "startup_mode"@.len());
        }
        assert("telemetry_vscode"@ != "tray_enabled"@) by {
            reveal_strlit("telemetry_vscode");
            reveal_strlit("tray_enabled");
            assert("telemetry_vscode"@.len() != "tray_enabled"@.len());
        }
        assert("telemetry_vscode"@ != "telemetry_windows"@) by {
            reveal_strlit("telemetry_vscode");
            reveal_strlit("telemetry_windows");
            assert("telemetry_vscode"@.len() != "telemetry_windows"@.len());
        }
        assert("telemetry_vscode"@ != "telemetry_office"@) by {
            reveal_strlit("telemetry_vscode");
            reveal_strlit("telemetry_office");
            assert("telemetry_vscode"@[10] != "telemetry_office"@[10]);
        }
        assert("close_to_tray"@ != "language"@) by {
            reveal_strlit("close_to_tray");
            reveal_strlit("language");
            assert("close_to_tray"@.len() != "language"@.len());
        }
        assert("close_to_tray"@ != "theme"@) by {
            reveal_strlit("close_to_tray");
            reveal_strlit("theme");
            assert("close_to_tray"@.len() != "theme"@.len());
        }
        assert("close_to_tray"@ != "aiEnabled"@) by {
            reveal_strlit("close_to_tray");
            reveal_strlit("aiEnabled");
            assert("close_to_tray"@.len() != "aiEnabled"@.len());
        }
        assert("close_to_tray"@ != "ai_enabled"@) by {
            reveal_strlit("close_to_tray");
            reveal_strlit("ai_enabled");
            assert("close_to_tray"@.len() != "ai_enabled"@.len());
        }
        assert("close_to_tray"@ != "aiEndpoint"@) by {
            reveal_strlit("close_to_tray");
            reveal_strlit("aiEndpoint");
            assert("close_to_tray"@.len() != "aiEndpoint"@.len());
        }
        assert("close_to_tray"@ != "ai_endpoint"@) by {
            reveal_strlit("close_to_tray");
            reveal_strlit("ai_endpoint");
            assert("close_to_tray"@.len() != "ai_endpoint"@.len());
        }
        assert("close_to_tray"@ != "aiApiKey"@) by {
            reveal_strlit("close_to_tray");
            reveal_strlit("aiApiKey");
            assert("close_to_tray"@.len() != "aiApiKey"@.len());
        }
        assert("close_to_tray"@ != "ai_api_key"@) by {
            reveal_strlit("close_to_tray");
            reveal_strlit("ai_api_key");
            assert("close_to_tray"@.len() != "ai_api_key"@.len());
        }
        assert("close_to_tray"@ != "aiAppKey"@) by {
            reveal_strlit("close_to_tray");
            reveal_strlit("aiAppKey");
            assert("close_to_tray"@.len() != "aiAppKey"@.len());
        }
        assert("close_to_tray"@ != "ai_app_key"@) by {
            reveal_strlit("close_to_tray");
            reveal_strlit("ai_app_key");
            assert("close_to_tray"@.len() != "ai_app_key"@.len());
        }
        assert("close_to_tray"@ != "aiModel"@) by {
            reveal_strlit("close_to_tray");
            reveal_strlit("aiModel");
            assert("close_to_tray"@.len() != "aiModel"@.len());
        }
        assert("close_to_tray"@ != "ai_model"@) by {
            reveal_strlit("close_to_tray");
            reveal_strlit("ai_model");
            assert("close_to_tray"@.len() != "ai_model"@.len());
        }
        assert("close_to_tray"@ != "aiConsentGiven"@) by {
            reveal_strlit("close_to_tray");
            reveal_strlit("aiConsentGiven");
            assert("close_to_tray"@.len() != "aiConsentGiven"@.len());
        }
        assert("close_to_tray"@ != "ai_consent_given"@) by {
            reveal_strlit("close_to_tray");
            reveal_strlit("ai_consent_given");
            assert("close_to_tray"@.len() != "ai_consent_given"@.len());
        }
        assert("close_to_tray"@ != "scheduler_enabled"@) by {
            reveal_strlit("close_to_tray");
            reveal_strlit("scheduler_enabled");
            assert("close_to_tray"@.len() != "scheduler_enabled"@.len());
        }
        assert("close_to_tray"@ != "scheduler_interval"@) by {
            reveal_strlit("close_to_tray");
            reveal_strlit("scheduler_interval");
            assert("close_to_tray"@.len() != "scheduler_interval"@.len());
        }
        assert("close_to_tray"@ != "auto_snapshot"@) by {
            reveal_strlit("close_to_tray");
            reveal_strlit("auto_snapshot");
            assert("close_to_tray"@[0] != "auto_snapshot"@[0]);
        }
        assert("close_to_tray"@ != "first_run"@) by {
            reveal_strlit("close_to_tray");
            reveal_strlit("first_run");
            assert("close_to_tray"@.len() != "first_run"@.len());
        }
        assert("close_to_tray"@ != "startup_mode"@) by {
            reveal_strlit("close_to_tray");
            reveal_strlit("startup_mode");
            assert("close_to_tray"@.len() != "startup_mode"@.len());
        }
        assert("close_to_tray"@ != "tray_enabled"@) by {
            reveal_strlit("close_to_tray");
            reveal_strlit("tray_enabled");
            assert("close_to_tray"@.len() != "tray_enabled"@.len());
        }
        assert("close_to_tray"@ != "telemetry_windows"@) by {
            reveal_strlit("close_to_tray");
            reveal_strlit("telemetry_windows");
            assert("close_to_tray"@.len() != "telemetry_windows"@.len());
        }
        assert("close_to_tray"@ != "telemetry_office"@) by {
            reveal_strlit("close_to_tray");
            reveal_strlit("telemetry_office");
            assert("close_to_tray"@.len() != "telemetry_office"@.len());
        }
        assert("close_to_tray"@ != "telemetry_vscode"@) by {
            reveal_strlit("close_to_tray");
            reveal_strlit("telemetry_vscode");
            assert("close_to_tray"@.len() != "telemetry_vscode"@.len());
        }
        assert("close_to_tray"@ != "backup_dir"@) by {
            reveal_strlit("close_to_tray");
            reveal_strlit("backup_dir");
            assert("close_to_tray"@.len() != "backup_dir"@.len());
        }
        assert("auto_clean_enabled"@ != "language"@) by {
            reveal_strlit("auto_clean_enabled");
            reveal_strlit("language");
            assert("auto_clean_enabled"@.len() != "language"@.len());
        }
        assert("auto_clean_enabled"@ != "theme"@) by {
            reveal_strlit("auto_clean_enabled");
            reveal_strlit("theme");
            assert("auto_clean_enabled"@.len() != "theme"@.len());
        }
        assert("auto_clean_enabled"@ != "aiEnabled"@) by {
            reveal_strlit("auto_clean_enabled");
            reveal_strlit("aiEnabled");
            assert("auto_clean_enabled"@.len() != "aiEnabled"@.len());
        }
        assert("auto_clean_enabled"@ != "ai_enabled"@) by {
            reveal_strlit("auto_clean_enabled");
            reveal_strlit("ai_enabled");
            assert("auto_clean_enabled"@.len() != "ai_enabled"@.len());
        }
        assert("auto_clean_enabled"@ != "aiEndpoint"@) by {
            reveal_strlit("auto_clean_enabled");
            reveal_strlit("aiEndpoint");
            assert("auto_clean_enabled"@.len() != "aiEndpoint"@.len());
        }
        assert("auto_clean_enabled"@ != "ai_endpoint"@) by {
            reveal_strlit("auto_clean_enabled");
            reveal_strlit("ai_endpoint");
            assert("auto_clean_enabled"@.len() != "ai_endpoint"@.len());
        }
        assert("auto_clean_enabled"@ != "aiApiKey"@) by {
            reveal_strlit("auto_clean_enabled");
            reveal_strlit("aiApiKey");
            assert("auto_clean_enabled"@.len() != "aiApiKey"@.len());
        }
        assert("auto_clean_enabled"@ != "ai_api_key"@) by {
            reveal_strlit("auto_clean_enabled");
            reveal_strlit("ai_api_key");
            assert("auto_clean_enabled"@.len() != "ai_api_key"@.len());
        }
        assert("auto_clean_enabled"@ != "aiAppKey"@) by {
            reveal_strlit("auto_clean_enabled");
            reveal_strlit("aiAppKey");
            assert("auto_clean_enabled"@.len() != "aiAppKey"@.len());
        }
        assert("auto_clean_enabled"@ != "ai_app_key"@) by {
            reveal_strlit("auto_clean_enabled");
            reveal_strlit("ai_app_key");
            assert("auto_clean_enabled"@.len() != "ai_app_key"@.len());
        }
        assert("auto_clean_enabled"@ != "aiModel"@) by {
            reveal_strlit("auto_clean_enabled");
            reveal_strlit("aiModel");
            assert("auto_clean_enabled"@.len() != "aiModel"@.len());
        }
        assert("auto_clean_enabled"@ != "ai_model"@) by {
            reveal_strlit("auto_clean_enabled");
            reveal_strlit("ai_model");
            assert("auto_clean_enabled"@.len() != "ai_model"@.len());
        }
        assert("auto_clean_enabled"@ != "aiConsentGiven"@) by {
            reveal_strlit("auto_clean_enabled");
            reveal_strlit("aiConsentGiven");
            assert("auto_clean_enabled"@.len() != "aiConsentGiven"@.len());
        }
        assert("auto_clean_enabled"@ != "ai_consent_given"@) by {
            reveal_strlit("auto_clean_enabled");
            reveal_strlit("ai_consent_given");
            assert("auto_clean_enabled"@.len() != "ai_consent_given"@.len());
        }
        assert("auto_clean_enabled"@ != "scheduler_enabled"@) by {
            reveal_strlit("auto_clean_enabled");
            reveal_strlit("scheduler_enabled");
            assert("auto_clean_enabled"@.len() != "scheduler_enabled"@.len());
        }
        assert("auto_clean_enabled"@ != "scheduler_interval"@) by {
            reveal_strlit("auto_clean_enabled");
            reveal_strlit("scheduler_interval");
            assert("auto_clean_enabled"@[0] != "scheduler_interval"@[0]);
        }
        assert("auto_clean_enabled"@ != "auto_snapshot"@) by {
            reveal_strlit("auto_clean_enabled");
            reveal_strlit("auto_snapshot");
            assert("auto_clean_enabled"@.len() != "auto_snapshot"@.len());
        }
        assert("auto_clean_enabled"@ != "first_run"@) by {
            reveal_strlit("auto_clean_enabled");
            reveal_strlit("first_run");
            assert("auto_clean_enabled"@.len() != "first_run"@.len());
        }
        assert("auto_clean_enabled"@ != "startup_mode"@) by {
            reveal_strlit("auto_clean_enabled");
            reveal_strlit("startup_mode");
            assert("auto_clean_enabled"@.len() != "startup_mode"@.len());
        }
        assert("auto_clean_enabled"@ != "tray_enabled"@) by {
            reveal_strlit("auto_clean_enabled");
            reveal_strlit("tray_enabled");
            assert("auto_clean_enabled"@.len() != "tray_enabled"@.len());
        }
        assert("auto_clean_enabled"@ != "telemetry_windows"@) by {
            reveal_strlit("auto_clean_enabled");
            reveal_strlit("telemetry_windows");
            assert("auto_clean_enabled"@.len() != "telemetry_windows"@.len());
        }
        assert("auto_clean_enabled"@ != "telemetry_office"@) by {
            reveal_strlit("auto_clean_enabled");
            reveal_strlit("telemetry_office");
            assert("auto_clean_enabled"@.len() != "telemetry_office"@.len());
        }
        assert("auto_clean_enabled"@ != "telemetry_vscode"@) by {
            reveal_strlit("auto_clean_enabled");
            reveal_strlit("telemetry_vscode");
            assert("auto_clean_enabled"@.len() != "telemetry_vscode"@.len());
        }
        assert("auto_clean_enabled"@ != "backup_dir"@) by {
            reveal_strlit("auto_clean_enabled");
            reveal_strlit("backup_dir");
            assert("auto_clean_enabled"@.len() != "backup_dir"@.len());
        }
        assert("auto_clean_enabled"@ != "close_to_tray"@) by {
            reveal_strlit("auto_clean_enabled");
            reveal_strlit("close_to_tray");
            assert("auto_clean_enabled"@.len() != "close_to_tray"@.len());
        }
}

// ─────────────────────────── cleanup history ──────────────────────────────

/// Number of cleanups the history remembers.
pub open spec fn history_cap() -> nat {
    10
}

/// The history after recording one cleanup: the freed amount is appended and
/// only the ten most recent entries are kept.
pub open spec fn recorded(h: Seq<u64>, freed: u64) -> Seq<u64> {
    let n = h.push(freed);
    if n.len() > 10 {
        n.subrange(n.len() - 10, n.len() as int)
    } else {
        n
    }
}

/// Records the amount a cleanup freed.
pub fn record_cleanup(history: &mut Vec<u64>, freed: u64)
    ensures
        final(history)@ == recorded(old(history)@, freed),
{
    history.push(freed);
    if history.len() > 10 {
        let excess = history.len() - 10;
        let mut kept: Vec<u64> = Vec::new();
        let mut i = excess;
        while i < history.len()
            invariant
                excess <= i <= history@.len(),
                kept@ == history@.subrange(excess as int, i as int),
            decreases history@.len() - i,
        {
            kept.push(history[i]);
            assert(kept@ =~= history@.subrange(excess as int, i + 1));
            i = i + 1;
        }
        *history = kept;
    }
}

/// Sum of a list of amounts.
pub open spec fn total(s: Seq<u64>) -> int
    decreases s.len(),
{
    if s.len() == 0 {
        0
    } else {
        total(s.drop_last()) + s.last()
    }
}

/// The most recent (at most ten) entries of a history.
pub open spec fn recent(h: Seq<u64>) -> Seq<u64> {
    if h.len() > 10 {
        h.subrange(h.len() - 10, h.len() as int)
    } else {
        h
    }
}

/// Predicted gain of the next cleanup: the mean of the ten most recent ones
/// (rounded down), 0 without history.
pub open spec fn predicted_gain(h: Seq<u64>) -> int {
    if h.len() == 0 {
        0
    } else {
        total(recent(h)) / (recent(h).len() as int)
    }
}

proof fn lemma_total_bound(s: Seq<u64>)
    ensures
        0 <= total(s) <= s.len() * (u64::MAX as int),
    decreases s.len(),
{
    if s.len() > 0 {
        lemma_total_bound(s.drop_last());
    }
}

/// Predicts the next cleanup gain from the history.
pub fn get_predicted_cleanup_gain(history: &Vec<u64>) -> (g: u64)
    requires
        total(recent(history@)) <= u64::MAX,
    ensures
        g == predicted_gain(history@),
{
    let n = history.len();
    if n == 0 {
        return 0;
    }
    let start = if n > 10 {
        n - 10
    } else {
        0
    };
    let ghost r = history@.subrange(start as int, n as int);
    assert(r =~= recent(history@));
    let mut sum: u64 = 0;
    let mut i = start;
    while i < n
        invariant
            start <= i <= n,
            n == history@.len(),
            r == history@.subrange(start as int, n as int),
            total(r) <= u64::MAX,
            sum == total(history@.subrange(start as int, i as int)),
        decreases n - i,
    {
        assert(history@.subrange(start as int, i + 1).drop_last() =~= history@.subrange(
            start as int,
            i as int,
        ));
        proof {
            lemma_total_prefix(r, (i - start) as int);
            assert(r.subrange(0, i + 1 - start) =~= history@.subrange(start as int, i + 1));
        }
        sum = sum + history[i];
        i = i + 1;
    }
    assert(history@.subrange(start as int, n as int) =~= r);
    sum / ((n - start) as u64)
}

proof fn lemma_total_prefix(s: Seq<u64>, k: int)
    requires
        0 <= k < s.len(),
    ensures
        total(s.subrange(0, k + 1)) <= total(s),
    decreases s.len(),
{
    if k + 1 < s.len() {
        lemma_total_prefix(s.drop_last(), k);
        assert(s.drop_last().subrange(0, k + 1) =~= s.subrange(0, k + 1));
    } else {
        assert(s.subrange(0, k + 1) =~= s);
    }
}

/// Recording a cleanup keeps at most ten entries, the newest last, the ones
/// before it in their order.
pub proof fn lemma_recorded_history(h: Seq<u64>, freed: u64)
    ensures
        recorded(h, freed).len() <= history_cap(),
        recorded(h, freed).len() == if h.len() + 1 > 10 { 10 } else { h.len() + 1 },
        recorded(h, freed).last() == freed,
        recorded(h, freed).drop_last() == recent(h).subrange(
            recent(h).len() - (recorded(h, freed).len() - 1),
            recent(h).len() as int,
        ),
{
    let n = h.push(freed);
    let r = recorded(h, freed);
    if n.len() > 10 {
        assert(r.drop_last() =~= recent(h).subrange(recent(h).len() - (r.len() - 1), recent(h).len() as int));
    } else {
        assert(r.drop_last() =~= h);
        assert(recent(h) == h);
        assert(h.subrange(0, h.len() as int) =~= h);
    }
}

/// The prediction never exceeds the largest remembered gain and is 0 only
/// without history or when the remembered gains are small.
pub proof fn lemma_prediction_bounded(h: Seq<u64>, m: u64)
    requires
        forall|i: int| 0 <= i < recent(h).len() ==> recent(h)[i] <= m,
    ensures
        0 <= predicted_gain(h) <= m,
{
    if h.len() > 0 {
        lemma_total_le(recent(h), m);
        let n = recent(h).len() as int;
        let t = total(recent(h));
        assert(t / n <= m) by (nonlinear_arith)
            requires
                0 <= t <= n * m,
                n > 0,
        ;
        assert(t / n >= 0) by (nonlinear_arith)
            requires
                0 <= t,
                n > 0,
        ;
    }
}

proof fn lemma_total_le(s: Seq<u64>, m: u64)
    requires
        forall|i: int| 0 <= i < s.len() ==> s[i] <= m,
    ensures
        0 <= total(s) <= s.len() * m,
    decreases s.len(),
{
    if s.len() > 0 {
        lemma_total_le(s.drop_last(), m);
        assert(s.drop_last().len() * m + m == s.len() * m) by (nonlinear_arith)
            requires
                s.drop_last().len() + 1 == s.len(),
        ;
    }
}

// ───────────────────────────── turbo profiles ─────────────────────────────

/// Index of the first profile whose name equals `name` up to ASCII case.
pub open spec fn profile_index(ps: Seq<ProfileView>, name: Seq<char>) -> Option<int> {
    if exists|k: int| 0 <= k < ps.len() && eq_ignore_ascii_case(ps[k].name, name) {
        Some(
            choose|k: int|
                0 <= k < ps.len() && eq_ignore_ascii_case(ps[k].name, name) && forall|j: int|
                    0 <= j < k ==> !eq_ignore_ascii_case(ps[j].name, name),
        )
    } else {
        None
    }
}

proof fn lemma_profile_index_at(ps: Seq<ProfileView>, name: Seq<char>, k: int)
    requires
        0 <= k < ps.len(),
        eq_ignore_ascii_case(ps[k].name, name),
        forall|j: int| 0 <= j < k ==> !eq_ignore_ascii_case(#[trigger] ps[j].name, name),
    ensures
        profile_index(ps, name) == Some(k),
{
    let c = choose|c: int|
        0 <= c < ps.len() && eq_ignore_ascii_case(ps[c].name, name) && forall|j: int|
            0 <= j < c ==> !eq_ignore_ascii_case(ps[j].name, name);
    assert(0 <= c < ps.len() && eq_ignore_ascii_case(ps[c].name, name) && forall|j: int|
            0 <= j < c ==> !eq_ignore_ascii_case(ps[j].name, name));
    if c < k {
        assert(!eq_ignore_ascii_case(ps[c].name, name));
    } else if c > k {
        assert(!eq_ignore_ascii_case(ps[k].name, name));
    }
}

proof fn lemma_first_match_exists(ps: Seq<ProfileView>, name: Seq<char>, k: int)
    requires
        0 <= k < ps.len(),
        eq_ignore_ascii_case(ps[k].name, name),
    ensures
        exists|c: int|
            0 <= c < ps.len() && eq_ignore_ascii_case(ps[c].name, name) && forall|j: int|
                0 <= j < c ==> !eq_ignore_ascii_case(#[trigger] ps[j].name, name),
    decreases k,
{
    if exists|j: int| 0 <= j < k && eq_ignore_ascii_case(#[trigger] ps[j].name, name) {
        let j = choose|j: int| 0 <= j < k && eq_ignore_ascii_case(#[trigger] ps[j].name, name);
        lemma_first_match_exists(ps, name, j);
    } else {
        assert(forall|j: int| 0 <= j < k ==> !eq_ignore_ascii_case(#[trigger] ps[j].name, name));
    }
}

/// What `profile_index` gives: the first match, or `None` when no name matches.
pub proof fn lemma_profile_index(ps: Seq<ProfileView>, name: Seq<char>)
    ensures
        match profile_index(ps, name) {
            Some(k) => 0 <= k < ps.len() && eq_ignore_ascii_case(ps[k].name, name) && forall|j: int|
                0 <= j < k ==> !eq_ignore_ascii_case(#[trigger] ps[j].name, name),
            None => forall|j: int| 0 <= j < ps.len() ==> !eq_ignore_ascii_case(#[trigger] ps[j].name, name),
        },
{
    if exists|k: int| 0 <= k < ps.len() && eq_ignore_ascii_case(ps[k].name, name) {
        let k = choose|k: int| 0 <= k < ps.len() && eq_ignore_ascii_case(ps[k].name, name);
        lemma_first_match_exists(ps, name, k);
    }
}

fn find_profile(ps: &Vec<TurboProfile>, name: &str) -> (r: Option<usize>)
    ensures
        match r {
            Some(k) => k < ps@.len() && profile_index(profile_views(ps@), name@) == Some(k as int),
            None => profile_index(profile_views(ps@), name@) is None,
        },
{
    let nv = chars_of(name);
    let ghost pv = profile_views(ps@);
    let mut i: usize = 0;
    while i < ps.len()
        invariant
            i <= ps@.len(),
            pv == profile_views(ps@),
            nv@ == name@,
            forall|j: int| 0 <= j < i ==> !eq_ignore_ascii_case(pv[j].name, name@),
        decreases ps@.len() - i,
    {
        let pn = chars_of(ps[i].name.as_str());
        if eq_ascii_case(pn.as_slice(), nv.as_slice()) {
            proof {
                assert(pv[i as int].name == ps@[i as int].name@);
                let c = choose|k: int|
                    0 <= k < pv.len() && eq_ignore_ascii_case(pv[k].name, name@) && forall|j: int|
                        0 <= j < k ==> !eq_ignore_ascii_case(pv[j].name, name@);
                if c < i {
                } else if c > i {
                }
            }
            return Some(i);
        }
        i = i + 1;
    }
    None
}

/// The settings after saving a profile: it replaces the first profile of the
/// same name (up to ASCII case) or is appended, and becomes the active one when
/// none is active yet.
pub open spec fn saved_profile(c: ConfigView, p: ProfileView) -> ConfigView {
    let ps = upserted(c.turbo_profiles, p);
    let active = if trim(c.active_turbo_profile).len() == 0 {
        p.name
    } else {
        c.active_turbo_profile
    };
    ConfigView { turbo_profiles: ps, active_turbo_profile: active, ..c }
}

/// The profiles after saving one: it replaces the first profile of the same
/// name (up to ASCII case) or is appended.
pub open spec fn upserted(ps: Seq<ProfileView>, p: ProfileView) -> Seq<ProfileView> {
    match profile_index(ps, p.name) {
        Some(k) => ps.update(k, p),
        None => ps.push(p),
    }
}

fn upsert_profile(ps: &mut Vec<TurboProfile>, profile: TurboProfile)
    ensures
        profile_views(final(ps)@) == upserted(profile_views(old(ps)@), profile@),
{
    let ghost pv = profile@;
    let ghost ps0 = profile_views(ps@);
    match find_profile(ps, profile.name.as_str()) {
        Some(k) => {
            ps.set(k, profile);
            assert(profile_views(ps@) =~= ps0.update(k as int, pv));
        },
        None => {
            ps.push(profile);
            assert(profile_views(ps@) =~= ps0.push(pv));
        },
    }
}

/// After saving a named profile, looking its name up finds exactly it, the
/// list grows by at most one, and saving the same profile again changes nothing.
pub proof fn lemma_saved_profile_found(ps: Seq<ProfileView>, p: ProfileView)
    ensures
        profile_index(upserted(ps, p), p.name) matches Some(k) && 0 <= k < upserted(ps, p).len()
            && upserted(ps, p)[k] == p,
        upserted(ps, p).len() == ps.len() || upserted(ps, p).len() == ps.len() + 1,
        upserted(upserted(ps, p), p) == upserted(ps, p),
{
    let q = upserted(ps, p);
    lemma_profile_index(ps, p.name);
    match profile_index(ps, p.name) {
        Some(k) => {
            lemma_profile_index_at(ps, p.name, k);
            assert(q[k] == p);
            assert forall|j: int| 0 <= j < k implies !eq_ignore_ascii_case(#[trigger] q[j].name, p.name) by {
                assert(q[j] == ps[j]);
            }
            lemma_profile_index_at(q, p.name, k);
            assert(upserted(q, p) =~= q);
        },
        None => {
            let k = ps.len() as int;
            assert(q[k] == p);
            assert forall|j: int| 0 <= j < k implies !eq_ignore_ascii_case(#[trigger] q[j].name, p.name) by {
                assert(q[j] == ps[j]);
            }
            lemma_profile_index_at(q, p.name, k);
            assert(upserted(q, p) =~= q);
        },
    }
}

/// Saves a turbo profile; a profile without a name is refused.
pub fn save_turbo_profile(cfg: &mut Config, profile: TurboProfile) -> (r: Result<bool, String>)
    ensures
        trim(profile@.name).len() == 0 ==> (r matches Err(e) && e@ == "Le nom du profil est requis"@)
            && final(cfg)@ == old(cfg)@,
        trim(profile@.name).len() > 0 ==> r == Ok::<bool, String>(true) && final(cfg)@
            == saved_profile(old(cfg)@, profile@),
{
    let nv = chars_of(profile.name.as_str());
    let t = trim_chars(nv.as_slice());
    if t.len() == 0 {
        return Err(owned("Le nom du profil est requis"));
    }
    let name = profile.name.clone();
    upsert_profile(&mut cfg.turbo_profiles, profile);
    let av = chars_of(cfg.active_turbo_profile.as_str());
    let at = trim_chars(av.as_slice());
    if at.len() == 0 {
        cfg.active_turbo_profile = name;
    }
    Ok(true)
}

/// Makes a saved profile the active one; an
/// unknown name is refused and nothing changes.
pub fn set_active_turbo_profile(cfg: &mut Config, name: String) -> (r: Result<bool, String>)
    ensures
        (profile_index(old(cfg)@.turbo_profiles, name@) is None) ==> (r matches Err(e) && e@
            == "Profil introuvable"@) && final(cfg)@ == old(cfg)@,
        (profile_index(old(cfg)@.turbo_profiles, name@) is Some) ==> r == Ok::<bool, String>(true)
            && final(cfg)@ == (ConfigView { active_turbo_profile: name@, ..old(cfg)@ }),
{
    match find_profile(&cfg.turbo_profiles, name.as_str()) {
        None => Err(owned("Profil introuvable")),
        Some(_) => {
            cfg.active_turbo_profile = name;
            Ok(true)
        },
    }
}

/// The profile the turbo mode uses: the active one, else the first one.
pub open spec fn chosen_profile(ps: Seq<ProfileView>, active: Seq<char>) -> Option<int> {
    match profile_index(ps, active) {
        Some(k) => Some(k),
        None => if ps.len() > 0 {
            Some(0)
        } else {
            None
        },
    }
}

/// Index of the profile the turbo mode applies.
pub fn select_turbo_profile(cfg: &Config) -> (r: Option<usize>)
    ensures
        match r {
            Some(k) => chosen_profile(cfg@.turbo_profiles, cfg@.active_turbo_profile) == Some(
                k as int,
            ),
            None => chosen_profile(cfg@.turbo_profiles, cfg@.active_turbo_profile) is None,
        },
{
    match find_profile(&cfg.turbo_profiles, cfg.active_turbo_profile.as_str()) {
        Some(k) => Some(k),
        None => if cfg.turbo_profiles.len() > 0 {
            Some(0)
        } else {
            None
        },
    }
}

// ──────────────────────────────── AI ──────────────────────────────────────

/// An endpoint on this machine.
pub open spec fn is_local_endpoint(e: Seq<char>) -> bool {
    contains_seq(e, "localhost"@) || contains_seq(e, "127.0.0.1"@)
}

/// The AI assistant may be used: enabled, consented to, and either local or
/// given an API key.
pub open spec fn ai_available(c: ConfigView) -> bool {
    c.ai_enabled && c.ai_consent_given && (is_local_endpoint(c.ai_endpoint) || c.ai_api_key.len()
        > 0)
}

/// Whether an endpoint is on this machine.
pub fn is_local(endpoint: &str) -> (b: bool)
    ensures
        b == is_local_endpoint(endpoint@),
{
    let e = chars_of(endpoint);
    let a = chars_of("localhost");
    let b = chars_of("127.0.0.1");
    contains(e.as_slice(), a.as_slice()) || contains(e.as_slice(), b.as_slice())
}

/// Whether the AI assistant may be used.
pub fn ai_is_available(cfg: &Config) -> (b: bool)
    ensures
        b == ai_available(cfg@),
{
    let key = chars_of(cfg.ai_api_key.as_str());
    cfg.ai_enabled && cfg.ai_consent_given && (is_local(cfg.ai_endpoint.as_str()) || key.len() > 0)
}

/// The settings after `configure_ai`.
pub fn configure_ai(
    cfg: &mut Config,
    enabled: bool,
    endpoint: String,
    api_key: String,
    consent_given: bool,
)
    ensures
        final(cfg)@ == (ConfigView {
            ai_enabled: enabled,
            ai_endpoint: endpoint@,
            ai_api_key: api_key@,
            ai_consent_given: consent_given,
            ..old(cfg)@
        }),
{
    cfg.ai_enabled = enabled;
    cfg.ai_endpoint = endpoint;
    cfg.ai_api_key = api_key;
    cfg.ai_consent_given = consent_given;
}

/// The schedule settings.
pub fn get_schedule(cfg: &Config) -> (r: (bool, String))
    ensures
        r.0 == cfg@.scheduler_enabled,
        r.1@ == cfg@.scheduler_interval,
{
    (cfg.scheduler_enabled, cfg.scheduler_interval.clone())
}

/// The application's version.
pub fn get_app_version() -> (r: String)
    ensures
        r@ == "2.2.7"@,
{
    owned("2.2.7")
}

/// The locale file of the interface texts for a language: English for `en`,
/// French for any other.
pub fn translation_file(lang: &str) -> (r: String)
    ensures
        lang@ == "en"@ ==> r@ == "en.json"@,
        lang@ != "en"@ ==> r@ == "fr.json"@,
{
    if text_eq(lang, "en") {
        owned("en.json")
    } else {
        owned("fr.json")
    }
}

} // verus!
