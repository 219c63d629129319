use vstd::prelude::*;

verus! {

/// Version of the configuration layout this program reads and writes.
pub const CONFIG_VERSION: i32 = 3;

/// Where the search index is and how to reach it.
pub struct Meili {
    pub url: String,
    pub key: String,
}

impl Default for Meili {
    fn default() -> (r: Meili)
        ensures
            r.url@.len() == 0,
            r.key@.len() == 0,
    {
        Meili { url: String::new(), key: String::new() }
    }
}

/// The persisted configuration: upstream account and tokens, crawl cursor,
/// index endpoint and archive directory.
pub struct Configuration {
    pub version: i32,
    pub osu_username: String,
    pub osu_password: String,
    pub osu_access_token: String,
    pub osu_refresh_token: String,
    /// Seconds since the epoch at which the access token stops being valid.
    pub osu_token_expires_at: i64,
    pub cursor: String,
    pub meilisearch: Meili,
    pub beatmaps_folder: String,
}

impl Default for Configuration {
    fn default() -> (r: Configuration)
        ensures
            r.version == CONFIG_VERSION,
            r.osu_username@.len() == 0,
            r.osu_password@.len() == 0,
            r.osu_access_token@.len() == 0,
            r.osu_refresh_token@.len() == 0,
            r.osu_token_expires_at == 0,
            r.cursor@.len() == 0,
            r.meilisearch.url@.len() == 0,
            r.meilisearch.key@.len() == 0,
            r.beatmaps_folder@.len() == 0,
    {
        Configuration {
            version: CONFIG_VERSION,
            osu_username: String::new(),
            osu_password: String::new(),
            osu_access_token: String::new(),
            osu_refresh_token: String::new(),
            osu_token_expires_at: 0,
            cursor: String::new(),
            meilisearch: Meili::default(),
            beatmaps_folder: String::new(),
        }
    }
}

impl Configuration {
    /// Whether tokens are stored, so that no password login is needed.
    pub fn has_authorization(&self) -> (r: bool)
        ensures
            r == (self.osu_access_token@.len() > 0 && self.osu_refresh_token@.len() > 0),
    {
        !self.osu_access_token.as_str().is_empty() && !self.osu_refresh_token.as_str().is_empty()
    }
}

/// What to do with a configuration that was loaded.
#[derive(Clone, Copy, Debug, PartialEq, Eq, Structural)]
pub enum VersionAction {
    /// The layout matches: use it.
    Use,
    /// The layout is older or newer: keep a backup and store the default.
    BackUpAndReset,
}

/// The policy on a loaded configuration's version.
pub fn version_action(version: i32) -> (r: VersionAction)
    ensures
        r == (if version == CONFIG_VERSION { VersionAction::Use } else { VersionAction::BackUpAndReset }),
{
    if version == CONFIG_VERSION {
        VersionAction::Use
    } else {
        VersionAction::BackUpAndReset
    }
}

/// Settings taken from the command line or the environment.
pub struct Config {
    /// Which part runs: `crawler` or `api`.
    pub app_component: String,
}

/// The part of the program to run.
#[derive(Clone, Copy, Debug, PartialEq, Eq, Structural)]
pub enum Component {
    Crawler,
    Api,
    Unknown,
}

impl Config {
    /// The part named by `app_component`.
    pub fn component(&self) -> (r: Component)
        ensures
            r == (if self.app_component@ == "crawler"@ {
                Component::Crawler
            } else if self.app_component@ == "api"@ {
                Component::Api
            } else {
                Component::Unknown
            }),
    {
        if self.app_component == String::from_str("crawler") {
            Component::Crawler
        } else if self.app_component == String::from_str("api") {
            Component::Api
        } else {
            Component::Unknown
        }
    }
}

} // verus!
