use vstd::prelude::*;
use crate::config::AppConfig;

verus! {

/// Settings as the settings page shows them.
pub struct SettingsDto {
    pub server_url: String,
    pub watch_paths: Vec<String>,
    pub sync_enabled: bool,
    pub minimize_to_tray: bool,
    pub has_api_key: bool,
}

/// Settings as the settings page saves them.
pub struct SaveSettingsInput {
    pub server_url: String,
    pub watch_paths: Vec<String>,
    pub sync_enabled: bool,
    pub minimize_to_tray: bool,
}

/// A connection test request.
pub struct TestConnectionInput {
    pub server_url: String,
    /// When set (e.g. from the form), test with this key instead of the saved one.
    pub api_key: Option<String>,
}

/// The settings page's view of `c`, with whether a key is saved.
pub fn settings_dto(c: AppConfig, has_api_key: bool) -> (r: SettingsDto)
    ensures
        r.server_url == c.server_url,
        r.watch_paths == c.watch_paths,
        r.sync_enabled == c.sync_enabled,
        r.minimize_to_tray == c.minimize_to_tray,
        r.has_api_key == has_api_key,
{
    SettingsDto {
        server_url: c.server_url,
        watch_paths: c.watch_paths,
        sync_enabled: c.sync_enabled,
        minimize_to_tray: c.minimize_to_tray,
        has_api_key,
    }
}

/// The settings that a save stores.
pub fn config_from_input(input: SaveSettingsInput) -> (c: AppConfig)
    ensures
        c.server_url == input.server_url,
        c.watch_paths == input.watch_paths,
        c.sync_enabled == input.sync_enabled,
        c.minimize_to_tray == input.minimize_to_tray,
{
    AppConfig {
        server_url: input.server_url,
        watch_paths: input.watch_paths,
        sync_enabled: input.sync_enabled,
        minimize_to_tray: input.minimize_to_tray,
    }
}

} // verus!
