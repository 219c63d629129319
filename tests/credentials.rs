use mirria::client::{expiry_after, OsuClient, TokenResponse};
use mirria::config::Configuration;
use mirria::credentials::{AuthError, CredentialStore, Ensure};

fn stored(access: &str, refresh: &str, expires_at: i64) -> Configuration {
    let mut c = Configuration::default();
    c.osu_access_token = access.to_string();
    c.osu_refresh_token = refresh.to_string();
    c.osu_token_expires_at = expires_at;
    c.cursor = "cur".to_string();
    c
}

fn response(access: &str, refresh: &str, expires_in: i64) -> TokenResponse {
    TokenResponse {
        access_token: access.to_string(),
        expires_in,
        refresh_token: refresh.to_string(),
    }
}

#[test]
fn concurrent_checks_share_one_refresh() {
    let config = stored("a1", "r1", 100);
    let mut store = CredentialStore::new(OsuClient::from_config(&config));
    let now = 200;
    let mut refreshes = 0;
    let mut waits = 0;
    for _ in 0..8 {
        match store.ensure_valid(&config, now) {
            Ensure::Refresh(token) => {
                assert_eq!(token, "r1");
                refreshes += 1;
            }
            Ensure::Wait => waits += 1,
            Ensure::Ready(_) => panic!("an expired credential was handed out"),
        }
    }
    assert_eq!(refreshes, 1);
    assert_eq!(waits, 7);
    let to_store = store.refresh_succeeded(response("a2", "r2", 3600), &config, now).unwrap();
    assert_eq!(to_store.osu_access_token, "a2");
    assert_eq!(to_store.osu_refresh_token, "r2");
    assert_eq!(to_store.osu_token_expires_at, 3800);
    assert_eq!(to_store.cursor, "cur");
    // not handed out before it is stored
    assert!(matches!(store.ensure_valid(&config, now), Ensure::Wait));
    let handed = store.persist_finished(true).unwrap();
    assert_eq!(handed.access_token(), "a2");
    for _ in 0..8 {
        match store.ensure_valid(&to_store, now + 1) {
            Ensure::Ready(c) => {
                assert_eq!(c.access_token(), "a2");
                assert_eq!(c.refresh_token(), "r2");
                assert_eq!(c.token_expires_at(), 3800);
            }
            _ => panic!("expected the refreshed credential"),
        }
    }
    assert_eq!(store.client().token_expires_at(), 3800);
}

#[test]
fn valid_credential_needs_no_refresh() {
    let config = stored("a1", "r1", 100);
    let mut store = CredentialStore::new(OsuClient::from_config(&config));
    // no forward margin: valid up to and including the expiry instant
    match store.ensure_valid(&config, 100) {
        Ensure::Ready(c) => assert_eq!(c.access_token(), "a1"),
        _ => panic!("expected the current credential"),
    }
    assert!(!store.is_refreshing());
}

#[test]
fn stored_expiry_decides() {
    // same tokens, but the stored expiry was moved: the stored one counts
    let memory = stored("a1", "r1", 100);
    let later = stored("a1", "r1", 500);
    let mut store = CredentialStore::new(OsuClient::from_config(&memory));
    match store.ensure_valid(&later, 200) {
        Ensure::Ready(c) => assert_eq!(c.token_expires_at(), 500),
        _ => panic!("valid by the stored expiry"),
    }
    let earlier = stored("a1", "r1", 50);
    match store.ensure_valid(&earlier, 200) {
        Ensure::Refresh(token) => assert_eq!(token, "r1"),
        _ => panic!("expired by the stored expiry"),
    }
}

#[test]
fn credential_replaced_elsewhere_is_adopted() {
    let mine = stored("a1", "r1", 100);
    let theirs = stored("b1", "s1", 500);
    let mut store = CredentialStore::new(OsuClient::from_config(&mine));
    match store.ensure_valid(&theirs, 200) {
        Ensure::Ready(c) => assert_eq!(c.access_token(), "b1"),
        _ => panic!("expected the stored credential"),
    }
    assert_eq!(store.client().refresh_token(), "s1");
}

#[test]
fn refresh_refused_reports_auth_error() {
    let config = stored("a1", "r1", 100);
    let mut store = CredentialStore::new(OsuClient::from_config(&config));
    assert!(matches!(store.ensure_valid(&config, 101), Ensure::Refresh(_)));
    assert_eq!(store.refresh_failed(), AuthError::RefreshRefused);
    assert!(!store.is_refreshing());
    // the next check tries again
    assert!(matches!(store.ensure_valid(&config, 102), Ensure::Refresh(_)));
}

#[test]
fn refresh_with_bad_expiry_is_refused() {
    let config = stored("a1", "r1", 100);
    let mut store = CredentialStore::new(OsuClient::from_config(&config));
    store.ensure_valid(&config, 101);
    let r = store.refresh_succeeded(response("a2", "r2", 0), &config, 101);
    assert_eq!(r.err(), Some(AuthError::BadExpiry));
    assert_eq!(store.client().access_token(), "a1");
}

#[test]
fn refresh_not_persisted_is_not_handed_out() {
    let config = stored("a1", "r1", 100);
    let mut store = CredentialStore::new(OsuClient::from_config(&config));
    store.ensure_valid(&config, 101);
    store.refresh_succeeded(response("a2", "r2", 60), &config, 101).unwrap();
    assert_eq!(store.persist_finished(false).err(), Some(AuthError::NotPersisted));
    assert_eq!(store.client().access_token(), "a1");
}

#[test]
fn expiry_has_no_margin() {
    let client = OsuClient::new("a1".to_string(), "r1".to_string(), 100);
    assert!(client.is_expired(101));
    assert!(!client.is_expired(100));
    let copy = client.copy();
    assert_eq!(copy.access_token(), "a1");
    assert_eq!(copy.token_expires_at(), 100);
}

#[test]
fn refresh_with_moves_expiry_forward() {
    let mut client = OsuClient::new("a1".to_string(), "r1".to_string(), 100);
    assert!(client.refresh_with(response("a2", "r2", 86400), 150));
    assert_eq!(client.access_token(), "a2");
    assert_eq!(client.refresh_token(), "r2");
    assert_eq!(client.token_expires_at(), 86550);
    assert!(!client.refresh_with(response("a3", "r3", 10), 150));
    assert_eq!(client.access_token(), "a2");
}

#[test]
fn expiry_after_checks_bounds() {
    assert_eq!(expiry_after(1000, 3600, 0), Some(4600));
    assert_eq!(expiry_after(1000, -5, 0), None);
    assert_eq!(expiry_after(i64::MAX - 1, 2, 0), None);
    assert_eq!(expiry_after(1000, 10, 1010), None);
}

#[test]
fn login_tokens_update_configuration() {
    let mut base = stored("", "", 0);
    base.osu_username = "user".to_string();
    let updated = base.with_tokens(&response("tok", "ref", 86400), 1_700_000_000).unwrap();
    assert_eq!(updated.osu_access_token, "tok");
    assert_eq!(updated.osu_refresh_token, "ref");
    assert_eq!(updated.osu_token_expires_at, 1_700_086_400);
    assert_eq!(updated.osu_username, "user");
    assert!(updated.has_authorization());
    // any expiry is stored as answered, as long as it fits
    assert_eq!(base.with_tokens(&response("tok", "ref", 0), 5).unwrap().osu_token_expires_at, 5);
    assert_eq!(base.with_tokens(&response("tok", "ref", -10), 5).unwrap().osu_token_expires_at, -5);
    assert!(base.with_tokens(&response("tok", "ref", 10), i64::MAX - 5).is_none());
}

#[test]
fn from_tokens_takes_expiry_from_configuration() {
    let config = stored("x", "y", 4242);
    let client = OsuClient::from_tokens(&config, "p".to_string(), "q".to_string());
    assert_eq!(client.access_token(), "p");
    assert_eq!(client.refresh_token(), "q");
    assert_eq!(client.token_expires_at(), 4242);
}
