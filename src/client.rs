use vstd::prelude::*;
use crate::config::Configuration;

verus! {

/// Answer of the upstream token endpoint.
pub struct TokenResponse {
    pub access_token: String,
    /// Seconds the new access token stays valid.
    pub expires_in: i64,
    pub refresh_token: String,
}

/// The upstream account the tokens belong to.
pub struct UserResponse {
    pub username: String,
    pub id: i32,
}

/// A credential as plain values.
pub struct CredentialModel {
    pub access: Seq<char>,
    pub refresh: Seq<char>,
    pub expires_at: int,
}

/// The credential held in a configuration.
pub open spec fn stored_credential(c: Configuration) -> CredentialModel {
    CredentialModel {
        access: c.osu_access_token@,
        refresh: c.osu_refresh_token@,
        expires_at: c.osu_token_expires_at as int,
    }
}

/// Upstream credential: access token, refresh token and expiry.
pub struct OsuClient {
    access_token: String,
    refresh_token: String,
    token_expires_at: i64,
}

/// Expiry of a token issued at `now` that lasts `expires_in` seconds, when
/// that is later than `previous` and fits.
pub open spec fn next_expiry(now: i64, expires_in: i64, previous: int) -> Option<i64> {
    if expires_in > 0 && now + expires_in <= i64::MAX && now + expires_in > previous {
        Some((now + expires_in) as i64)
    } else {
        None
    }
}

/// Expiry of a token issued at `now` that lasts `expires_in` seconds; `None`
/// unless it is later than `previous` and fits.
pub fn expiry_after(now: i64, expires_in: i64, previous: i64) -> (r: Option<i64>)
    ensures
        r == next_expiry(now, expires_in, previous as int),
{
    if expires_in <= 0 {
        return None;
    }
    if now > i64::MAX - expires_in {
        return None;
    }
    let at = now + expires_in;
    if at > previous {
        Some(at)
    } else {
        None
    }
}

/// `now + expires_in`, when it fits an `i64`.
fn login_expiry(now: i64, expires_in: i64) -> (r: Option<i64>)
    ensures
        r is Some <==> i64::MIN <= now + expires_in <= i64::MAX,
        r is Some ==> r->0 == now + expires_in,
{
    if expires_in > 0 && now > i64::MAX - expires_in {
        None
    } else if expires_in < 0 && now < i64::MIN - expires_in {
        None
    } else {
        Some(now + expires_in)
    }
}

impl View for OsuClient {
    type V = CredentialModel;

    closed spec fn view(&self) -> CredentialModel {
        CredentialModel {
            access: self.access_token@,
            refresh: self.refresh_token@,
            expires_at: self.token_expires_at as int,
        }
    }
}

impl OsuClient {
    /// A credential from its parts.
    pub fn new(access_token: String, refresh_token: String, token_expires_at: i64) -> (r: OsuClient)
        ensures
            r@ == (CredentialModel {
                access: access_token@,
                refresh: refresh_token@,
                expires_at: token_expires_at as int,
            }),
    {
        OsuClient { access_token, refresh_token, token_expires_at }
    }

    /// The tokens given, with the expiry recorded in `config`.
    pub fn from_tokens(config: &Configuration, access_token: String, refresh_token: String) -> (r: OsuClient)
        ensures
            r@ == (CredentialModel {
                access: access_token@,
                refresh: refresh_token@,
                expires_at: config.osu_token_expires_at as int,
            }),
    {
        OsuClient { access_token, refresh_token, token_expires_at: config.osu_token_expires_at }
    }

    /// The credential stored in `config`.
    pub fn from_config(config: &Configuration) -> (r: OsuClient)
        ensures
            r@ == stored_credential(*config),
    {
        OsuClient {
            access_token: config.osu_access_token.clone(),
            refresh_token: config.osu_refresh_token.clone(),
            token_expires_at: config.osu_token_expires_at,
        }
    }

    pub fn access_token(&self) -> (r: &String)
        ensures
            r@ == self@.access,
    {
        &self.access_token
    }

    pub fn refresh_token(&self) -> (r: &String)
        ensures
            r@ == self@.refresh,
    {
        &self.refresh_token
    }

    pub fn token_expires_at(&self) -> (r: i64)
        ensures
            r == self@.expires_at,
    {
        self.token_expires_at
    }

    /// The same credential.
    pub fn copy(&self) -> (r: OsuClient)
        ensures
            r@ == self@,
    {
        OsuClient {
            access_token: self.access_token.clone(),
            refresh_token: self.refresh_token.clone(),
            token_expires_at: self.token_expires_at,
        }
    }

    /// Whether the credential has expired at `now`; no margin is added.
    pub fn is_expired(&self, now: i64) -> (r: bool)
        ensures
            r == (now > self@.expires_at),
    {
        now > self.token_expires_at
    }

    /// Takes over the credential stored in `config`.
    pub fn load_config(&mut self, config: &Configuration)
        ensures
            final(self)@ == stored_credential(*config),
    {
        self.access_token = config.osu_access_token.clone();
        self.refresh_token = config.osu_refresh_token.clone();
        self.token_expires_at = config.osu_token_expires_at;
    }

    /// Takes the tokens of a refresh answered at `now`. Refused, leaving the
    /// credential as it was, when the new expiry would not be later than the
    /// current one.
    pub fn refresh_with(&mut self, response: TokenResponse, now: i64) -> (r: bool)
        ensures
            r == (next_expiry(now, response.expires_in, old(self)@.expires_at) is Some),
            r ==> final(self)@ == (CredentialModel {
                access: response.access_token@,
                refresh: response.refresh_token@,
                expires_at: now + response.expires_in,
            }),
            !r ==> final(self)@ == old(self)@,
    {
        match expiry_after(now, response.expires_in, self.token_expires_at) {
            Some(at) => {
                self.access_token = response.access_token;
                self.refresh_token = response.refresh_token;
                self.token_expires_at = at;
                true
            },
            None => false,
        }
    }
}

impl Configuration {
    /// This configuration with the tokens of a login answered at `now`,
    /// expiring `expires_in` seconds later; `None` only when that instant
    /// does not fit an `i64`.
    pub fn with_tokens(&self, response: &TokenResponse, now: i64) -> (r: Option<Configuration>)
        ensures
            r is Some <==> i64::MIN <= now + response.expires_in <= i64::MAX,
            r is Some ==> {
                let c = r->0;
                &&& c.osu_access_token@ == response.access_token@
                &&& c.osu_refresh_token@ == response.refresh_token@
                &&& c.osu_token_expires_at == now + response.expires_in
                &&& c.version == self.version
                &&& c.osu_username@ == self.osu_username@
                &&& c.osu_password@ == self.osu_password@
                &&& c.cursor@ == self.cursor@
                &&& c.meilisearch.url@ == self.meilisearch.url@
                &&& c.meilisearch.key@ == self.meilisearch.key@
                &&& c.beatmaps_folder@ == self.beatmaps_folder@
            },
    {
        match login_expiry(now, response.expires_in) {
            Some(at) => Some(Configuration {
                version: self.version,
                osu_username: self.osu_username.clone(),
                osu_password: self.osu_password.clone(),
                osu_access_token: response.access_token.clone(),
                osu_refresh_token: response.refresh_token.clone(),
                osu_token_expires_at: at,
                cursor: self.cursor.clone(),
                meilisearch: crate::config::Meili {
                    url: self.meilisearch.url.clone(),
                    key: self.meilisearch.key.clone(),
                },
                beatmaps_folder: self.beatmaps_folder.clone(),
            }),
            None => None,
        }
    }

    /// This configuration with the crawl cursor replaced.
    pub fn with_cursor(&self, cursor: &String) -> (r: Configuration)
        ensures
            r.cursor@ == cursor@,
            r.version == self.version,
            r.osu_username@ == self.osu_username@,
            r.osu_password@ == self.osu_password@,
            r.osu_access_token@ == self.osu_access_token@,
            r.osu_refresh_token@ == self.osu_refresh_token@,
            r.osu_token_expires_at == self.osu_token_expires_at,
            r.meilisearch.url@ == self.meilisearch.url@,
            r.meilisearch.key@ == self.meilisearch.key@,
            r.beatmaps_folder@ == self.beatmaps_folder@,
    {
        Configuration {
            version: self.version,
            osu_username: self.osu_username.clone(),
            osu_password: self.osu_password.clone(),
            osu_access_token: self.osu_access_token.clone(),
            osu_refresh_token: self.osu_refresh_token.clone(),
            osu_token_expires_at: self.osu_token_expires_at,
            cursor: cursor.clone(),
            meilisearch: crate::config::Meili {
                url: self.meilisearch.url.clone(),
                key: self.meilisearch.key.clone(),
            },
            beatmaps_folder: self.beatmaps_folder.clone(),
        }
    }
}

} // verus!
