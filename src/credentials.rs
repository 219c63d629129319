use vstd::prelude::*;
use crate::client::{next_expiry, stored_credential, CredentialModel, OsuClient, TokenResponse};
use crate::config::Configuration;

verus! {

/// Why no valid credential could be handed out.
#[derive(Clone, Copy, Debug, PartialEq, Eq, Structural)]
pub enum AuthError {
    /// Upstream refused the refresh, or could not be reached.
    RefreshRefused,
    /// The refresh answer carried an expiry that is not later than the old one.
    BadExpiry,
    /// The refreshed credential could not be stored durably.
    NotPersisted,
}

/// Where a refresh stands.
pub enum RefreshPhase {
    /// No refresh is in flight.
    Idle,
    /// A refresh call is out; other callers wait for it.
    Refreshing,
    /// The refreshed credential is being stored; it is not handed out yet.
    Persisting(OsuClient),
}

/// Refresh phase as plain values.
pub enum PhaseModel {
    Idle,
    Refreshing,
    Persisting(CredentialModel),
}

/// Credential store as plain values.
pub struct StoreModel {
    pub cred: CredentialModel,
    pub phase: PhaseModel,
}

/// What a credential check tells its caller.
pub enum Ensure {
    /// Use this credential.
    Ready(OsuClient),
    /// Call the token endpoint with this refresh token, then report back.
    Refresh(String),
    /// A refresh is in flight: wait for it and check again.
    Wait,
}

/// Answer of a credential check as plain values.
pub enum EnsureModel {
    Ready(CredentialModel),
    Refresh(Seq<char>),
    Wait,
}

impl View for Ensure {
    type V = EnsureModel;

    open spec fn view(&self) -> EnsureModel {
        match self {
            Ensure::Ready(c) => EnsureModel::Ready(c@),
            Ensure::Refresh(s) => EnsureModel::Refresh(s@),
            Ensure::Wait => EnsureModel::Wait,
        }
    }
}

/// One credential check at `now`: callers wait while a refresh is in flight;
/// otherwise the stored credential is taken over (it may have been replaced
/// elsewhere), and if it has expired by its stored expiry it starts the one
/// refresh, else it is handed out.
pub open spec fn ensure_step(s: StoreModel, stored: CredentialModel, now: int) -> (StoreModel, EnsureModel) {
    if s.phase is Idle {
        let c = stored;
        if now > c.expires_at {
            (StoreModel { cred: c, phase: PhaseModel::Refreshing }, EnsureModel::Refresh(c.refresh))
        } else {
            (StoreModel { cred: c, phase: PhaseModel::Idle }, EnsureModel::Ready(c))
        }
    } else {
        (s, EnsureModel::Wait)
    }
}

/// `n` credential checks in a row, and their answers in order.
pub open spec fn run_checks(s: StoreModel, stored: CredentialModel, now: int, n: nat) -> (StoreModel, Seq<EnsureModel>)
    decreases n,
{
    if n == 0 {
        (s, Seq::empty())
    } else {
        let (s1, answers) = run_checks(s, stored, now, (n - 1) as nat);
        let (s2, a) = ensure_step(s1, stored, now);
        (s2, answers.push(a))
    }
}

/// Holds the upstream credential for every caller and lets at most one
/// refresh be in flight; a refreshed credential is handed out only once it
/// has been stored durably.
pub struct CredentialStore {
    client: OsuClient,
    phase: RefreshPhase,
}

impl View for CredentialStore {
    type V = StoreModel;

    closed spec fn view(&self) -> StoreModel {
        StoreModel {
            cred: self.client@,
            phase: match self.phase {
                RefreshPhase::Idle => PhaseModel::Idle,
                RefreshPhase::Refreshing => PhaseModel::Refreshing,
                RefreshPhase::Persisting(c) => PhaseModel::Persisting(c@),
            },
        }
    }
}

impl CredentialStore {
    /// A store holding `client`, with no refresh in flight.
    pub fn new(client: OsuClient) -> (r: CredentialStore)
        ensures
            r@ == (StoreModel { cred: client@, phase: PhaseModel::Idle }),
    {
        CredentialStore { client, phase: RefreshPhase::Idle }
    }

    /// The credential handed out now.
    pub fn client(&self) -> (r: &OsuClient)
        ensures
            r@ == self@.cred,
    {
        &self.client
    }

    /// Whether a refresh is in flight.
    pub fn is_refreshing(&self) -> (r: bool)
        ensures
            r == !(self@.phase is Idle),
    {
        match self.phase {
            RefreshPhase::Idle => false,
            _ => true,
        }
    }

    /// Whether a refresh call is out and its answer is awaited.
    pub fn awaiting_token(&self) -> (r: bool)
        ensures
            r == (self@.phase is Refreshing),
    {
        match self.phase {
            RefreshPhase::Refreshing => true,
            _ => false,
        }
    }

    /// Whether a refreshed credential waits to be stored durably.
    pub fn awaiting_persist(&self) -> (r: bool)
        ensures
            r == (self@.phase is Persisting),
    {
        match self.phase {
            RefreshPhase::Persisting(_) => true,
            _ => false,
        }
    }

    /// Checks the credential against the stored one at `now` (see
    /// `ensure_step`).
    pub fn ensure_valid(&mut self, stored: &Configuration, now: i64) -> (r: Ensure)
        ensures
            (final(self)@, r@) == ensure_step(old(self)@, stored_credential(*stored), now as int),
    {
        match self.phase {
            RefreshPhase::Idle => {},
            _ => {
                return Ensure::Wait;
            },
        }
        if stored.osu_access_token != *self.client.access_token()
            || stored.osu_refresh_token != *self.client.refresh_token()
            || stored.osu_token_expires_at != self.client.token_expires_at()
        {
            self.client = OsuClient::from_config(stored);
        }
        if self.client.is_expired(now) {
            self.phase = RefreshPhase::Refreshing;
            Ensure::Refresh(self.client.refresh_token().clone())
        } else {
            Ensure::Ready(self.client.copy())
        }
    }

    /// The refresh call answered at `now`. Returns the configuration to
    /// store durably, `stored` with the new tokens, and waits for
    /// `persist_finished`; an answer whose expiry is not later than the
    /// current one ends the refresh with an error.
    pub fn refresh_succeeded(&mut self, response: TokenResponse, stored: &Configuration, now: i64) -> (r: Result<Configuration, AuthError>)
        requires
            old(self)@.phase is Refreshing,
        ensures
            final(self)@.cred == old(self)@.cred,
            next_expiry(now, response.expires_in, old(self)@.cred.expires_at) is Some ==> {
                let fresh = CredentialModel {
                    access: response.access_token@,
                    refresh: response.refresh_token@,
                    expires_at: now + response.expires_in,
                };
                &&& final(self)@.phase == PhaseModel::Persisting(fresh)
                &&& r is Ok
                &&& stored_credential(r->Ok_0) == fresh
                &&& r->Ok_0.cursor@ == stored.cursor@
                &&& r->Ok_0.version == stored.version
                &&& r->Ok_0.beatmaps_folder@ == stored.beatmaps_folder@
                &&& r->Ok_0.osu_username@ == stored.osu_username@
                &&& r->Ok_0.osu_password@ == stored.osu_password@
                &&& r->Ok_0.meilisearch.url@ == stored.meilisearch.url@
                &&& r->Ok_0.meilisearch.key@ == stored.meilisearch.key@
            },
            next_expiry(now, response.expires_in, old(self)@.cred.expires_at) is None ==> {
                &&& final(self)@.phase is Idle
                &&& r == Err::<Configuration, AuthError>(AuthError::BadExpiry)
            },
    {
        let mut fresh = OsuClient::new(
            self.client.access_token().clone(),
            self.client.refresh_token().clone(),
            self.client.token_expires_at(),
        );
        let ok = fresh.refresh_with(response, now);
        if ok {
            let mut config = stored.with_cursor(&stored.cursor);
            config.osu_access_token = fresh.access_token().clone();
            config.osu_refresh_token = fresh.refresh_token().clone();
            config.osu_token_expires_at = fresh.token_expires_at();
            self.phase = RefreshPhase::Persisting(fresh);
            Ok(config)
        } else {
            self.phase = RefreshPhase::Idle;
            Err(AuthError::BadExpiry)
        }
    }

    /// The refresh call failed: the refresh ends, the credential stays, and
    /// the next check tries again.
    pub fn refresh_failed(&mut self) -> (r: AuthError)
        requires
            old(self)@.phase is Refreshing,
        ensures
            final(self)@ == (StoreModel { cred: old(self)@.cred, phase: PhaseModel::Idle }),
            r == AuthError::RefreshRefused,
    {
        self.phase = RefreshPhase::Idle;
        AuthError::RefreshRefused
    }

    /// The durable write of the refreshed credential finished. On success
    /// the refreshed credential is handed out from now on; otherwise the old
    /// one stays.
    pub fn persist_finished(&mut self, stored_ok: bool) -> (r: Result<OsuClient, AuthError>)
        requires
            old(self)@.phase is Persisting,
        ensures
            stored_ok ==> {
                &&& final(self)@ == (StoreModel { cred: old(self)@.phase->Persisting_0, phase: PhaseModel::Idle })
                &&& r is Ok
                &&& r->Ok_0@ == old(self)@.phase->Persisting_0
            },
            !stored_ok ==> {
                &&& final(self)@ == (StoreModel { cred: old(self)@.cred, phase: PhaseModel::Idle })
                &&& r == Err::<OsuClient, AuthError>(AuthError::NotPersisted)
            },
    {
        let mut phase = RefreshPhase::Idle;
        std::mem::swap(&mut phase, &mut self.phase);
        match phase {
            RefreshPhase::Persisting(fresh) => {
                if stored_ok {
                    self.client = fresh;
                    Ok(self.client.copy())
                } else {
                    Err(AuthError::NotPersisted)
                }
            },
            _ => Err(AuthError::NotPersisted),
        }
    }
}

/// Any number of concurrent checks against a credential whose stored expiry
/// has passed start exactly one refresh: the first check is told to refresh
/// with the stored refresh token, every later one to wait, and the refresh
/// stays in flight.
pub proof fn single_refresh_in_flight(s: StoreModel, stored: CredentialModel, now: int, n: nat)
    requires
        n >= 1,
        s.phase is Idle,
        now > stored.expires_at,
    ensures
        run_checks(s, stored, now, n).1.len() == n,
        run_checks(s, stored, now, n).1[0] == EnsureModel::Refresh(stored.refresh),
        forall|i: int| 1 <= i < n ==> #[trigger] run_checks(s, stored, now, n).1[i] == EnsureModel::Wait,
        run_checks(s, stored, now, n).0 == (StoreModel { cred: stored, phase: PhaseModel::Refreshing }),
    decreases n,
{
    if n > 1 {
        single_refresh_in_flight(s, stored, now, (n - 1) as nat);
        let prev = run_checks(s, stored, now, (n - 1) as nat);
        let cur = run_checks(s, stored, now, n);
        assert(cur.1 == prev.1.push(EnsureModel::Wait));
        assert forall|i: int| 1 <= i < n implies #[trigger] cur.1[i] == EnsureModel::Wait by {
            if i < n - 1 {
                assert(cur.1[i] == prev.1[i]);
            }
        }
    } else {
        let zero = run_checks(s, stored, now, 0);
        assert(zero.1 == Seq::<EnsureModel>::empty());
    }
}

/// Once the refreshed credential is stored and no refresh is in flight,
/// every check made before it expires resolves to that same credential: the
/// same access token, refresh token and expiry.
pub proof fn refreshed_credential_shared(s: StoreModel, fresh: CredentialModel, now: int, n: nat)
    requires
        s.phase is Idle,
        now <= fresh.expires_at,
    ensures
        run_checks(s, fresh, now, n).1.len() == n,
        forall|i: int| 0 <= i < n ==> #[trigger] run_checks(s, fresh, now, n).1[i]
            == EnsureModel::Ready(fresh),
        n > 0 ==> run_checks(s, fresh, now, n).0 == (StoreModel { cred: fresh, phase: PhaseModel::Idle }),
    decreases n,
{
    if n > 0 {
        refreshed_credential_shared(s, fresh, now, (n - 1) as nat);
        let prev = run_checks(s, fresh, now, (n - 1) as nat);
        let cur = run_checks(s, fresh, now, n);
        assert(prev.0.phase is Idle);
        assert(cur.1 == prev.1.push(EnsureModel::Ready(fresh)));
        assert forall|i: int| 0 <= i < n implies #[trigger] cur.1[i] == EnsureModel::Ready(fresh) by {
            if i < n - 1 {
                assert(cur.1[i] == prev.1[i]);
            }
        }
    }
}

} // verus!
