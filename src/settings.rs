use vstd::prelude::*;

verus! {

/// Preferences of the application as a whole.
#[derive(Debug, Clone)]
pub struct AppSettings {
    pub default_timeout_ms: u64,
    pub theme: ThemePreference,
    pub log_level: LogLevel,
}

impl Default for AppSettings {
    fn default() -> (r: AppSettings)
        ensures
            r.default_timeout_ms == 30_000,
            r.theme == ThemePreference::System,
            r.log_level == LogLevel::Info,
    {
        AppSettings {
            default_timeout_ms: 30_000,
            theme: ThemePreference::System,
            log_level: LogLevel::Info,
        }
    }
}

#[derive(Debug, Clone, Copy, PartialEq, Eq, Structural)]
pub enum ThemePreference {
    System,
    Light,
    Dark,
}

#[derive(Debug, Clone, Copy, PartialEq, Eq, Structural)]
pub enum LogLevel {
    Error,
    Warn,
    Info,
    Debug,
    Trace,
}

/// Where the settings are kept between runs.
pub trait SettingsStore {
    fn load(&self) -> Result<AppSettings, anyhow::Error>;

    fn save(&self, settings: &AppSettings) -> Result<(), anyhow::Error>;
}

} // verus!
