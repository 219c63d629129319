use vstd::prelude::*;
use crate::index::upsert_all;

verus! {

/// Number of items the upstream search returns on a full page.
pub const PAGE_SIZE: u64 = 50;

/// Durable writes of the cursor are more than this many seconds apart.
pub const FLUSH_WINDOW_SECS: u64 = 30;

/// Pause after a failed fetch or a failed upsert.
pub const RETRY_DELAY_SECS: u64 = 60;

/// Pause once the end of the listing is reached, waiting for new content.
pub const COOLDOWN_SECS: u64 = 180;

/// Pause between two full pages.
pub const PAGE_DELAY_SECS: u64 = 3;

/// One request for a page of the upstream listing.
#[derive(Debug, PartialEq, Eq)]
pub struct PageRequest {
    /// Whether items flagged as explicit are included.
    pub nsfw: bool,
    /// Sort order requested from upstream.
    pub sort: String,
    /// Ranking status filter requested from upstream.
    pub status: String,
    /// Continuation token; empty on the very first page.
    pub cursor: String,
}

/// The fixed listing query of the crawl: explicit content excluded, oldest
/// modification first, every ranking status.
pub fn page_request(cursor: &String) -> (r: PageRequest)
    ensures
        r.nsfw == false,
        r.sort@ == "updated_asc"@,
        r.status@ == "any"@,
        r.cursor@ == cursor@,
{
    PageRequest {
        nsfw: false,
        sort: String::from_str("updated_asc"),
        status: String::from_str("any"),
        cursor: cursor.clone(),
    }
}

/// Where the crawl loop stands.
pub enum CrawlPhase<D> {
    /// Not started yet.
    Idle,
    /// A page request is out.
    Fetching,
    /// A page of `items` documents, keyed by item id, came back and is being
    /// upserted.
    Indexing { items: u64, continuation: Option<String>, page: Ghost<Seq<(i64, D)>> },
    /// The advanced cursor is being written durably; `delay` follows.
    Persisting { delay: u64 },
    /// Waiting before the next fetch.
    Backoff,
}

/// What the loop around the crawler reports.
#[derive(Debug)]
pub enum CrawlEvent<D> {
    /// Begin crawling (from `Idle`).
    Start,
    /// The page request failed, or its body could not be parsed.
    FetchFailed,
    /// A page came back: its documents keyed by item id, and an optional
    /// continuation token.
    PageFetched { page: Vec<(i64, D)>, continuation: Option<String> },
    /// The page's items were upserted into the index.
    Indexed,
    /// The index rejected the upsert or was unreachable.
    IndexFailed,
    /// The cursor was written durably.
    Flushed,
    /// The durable write of the cursor failed.
    FlushFailed,
    /// A pause is over.
    Woke,
}

/// What the loop around the crawler must do next.
#[derive(Debug, PartialEq, Eq)]
pub enum CrawlAction<D> {
    /// Request this page.
    Fetch(PageRequest),
    /// Upsert these documents, the page just fetched, into the index, keyed
    /// by item id.
    Upsert(Vec<(i64, D)>),
    /// Write this cursor durably.
    Persist(String),
    /// Sleep this many seconds, then report `Woke`.
    Sleep(u64),
    /// The event does not apply in the current phase; nothing changed.
    Ignore,
}

/// Whether a page's continuation token lets the crawl go on.
pub open spec fn continues(continuation: Option<String>) -> bool {
    continuation is Some && continuation->0@.len() > 0
}

/// Cursor after a page with this continuation token is indexed: the token,
/// or the empty cursor once the listing has ended, so that the next pass
/// walks the whole listing again.
pub open spec fn next_cursor(continuation: Option<String>) -> Seq<char> {
    if continues(continuation) {
        continuation->0@
    } else {
        Seq::empty()
    }
}

/// Pause that follows a successfully indexed page.
pub open spec fn delay_after(items: u64, continuation: Option<String>) -> u64 {
    if items < PAGE_SIZE || !continues(continuation) {
        COOLDOWN_SECS
    } else {
        PAGE_DELAY_SECS
    }
}

/// Whether a durable write of the cursor is allowed at `now`.
pub open spec fn flush_due(last_flush: Option<u64>, now: u64) -> bool {
    match last_flush {
        None => true,
        Some(t) => t <= now && now - t > FLUSH_WINDOW_SECS,
    }
}

/// What every crawl step keeps of the durable cursor: its advance number
/// never decreases, never passes the in-memory one, and when it changes the
/// durable cursor becomes the cursor held before the step.
pub open spec fn durable_progress<D>(before: Crawler<D>, after: Crawler<D>) -> bool {
    &&& after.wf()
    &&& after.persisted_advance_spec() >= before.persisted_advance_spec()
    &&& (after.persisted_spec() != before.persisted_spec()
        || after.persisted_advance_spec() != before.persisted_advance_spec()
        ==> after.persisted_spec() == before.cursor_spec()
        && after.persisted_advance_spec() == before.advances_spec())
}

/// Over a whole run of crawl steps, the durably written cursor never goes
/// back to an older one: its advance number never decreases from one state
/// to any later one, and never passes the in-memory cursor's.
pub proof fn persisted_cursor_never_regresses<D>(run: Seq<Crawler<D>>, i: int, j: int)
    requires
        run.len() > 0,
        run[0].wf(),
        forall|k: int| 0 <= k < run.len() - 1 ==> #[trigger] durable_progress(run[k], run[k + 1]),
        0 <= i <= j < run.len(),
    ensures
        run[i].persisted_advance_spec() <= run[j].persisted_advance_spec(),
        run[j].persisted_advance_spec() <= run[j].advances_spec(),
    decreases j - i,
{
    if j > 0 {
        let k = j - 1;
        assert(durable_progress(run[k], run[k + 1]));
        assert(k + 1 == j);
    }
    if i < j {
        persisted_cursor_never_regresses(run, i, j - 1);
    }
}

/// Resumable crawl of the upstream listing.
///
/// The cursor advances only after the page it follows has been indexed, and
/// the durably written cursor is always one the in-memory cursor held. Each
/// value the cursor takes is numbered by `advances`; `persisted_advance` is
/// the number of the value that was last written durably.
///
/// Every indexed page advances the cursor once, to the page's continuation
/// token. A page without a continuation token ends the listing: the cursor
/// is reset to empty, and after a cool-down the crawl walks the whole
/// listing again. A page shorter than `PAGE_SIZE` also brings the cool-down,
/// and the crawl then goes on from its token.
pub struct Crawler<D> {
    phase: CrawlPhase<D>,
    cursor: String,
    advances: u64,
    persisted: String,
    persisted_advance: u64,
    last_flush: Option<u64>,
    upserted: Ghost<Map<i64, D>>,
}

impl<D> Crawler<D> {
    pub closed spec fn phase_spec(&self) -> CrawlPhase<D> {
        self.phase
    }

    /// The documents this crawl has upserted into the index, by item id, as
    /// the index's upsert-by-key leaves them.
    pub closed spec fn upserted_spec(&self) -> Map<i64, D> {
        self.upserted@
    }

    pub closed spec fn cursor_spec(&self) -> Seq<char> {
        self.cursor@
    }

    pub closed spec fn advances_spec(&self) -> nat {
        self.advances as nat
    }

    pub closed spec fn persisted_spec(&self) -> Seq<char> {
        self.persisted@
    }

    pub closed spec fn persisted_advance_spec(&self) -> nat {
        self.persisted_advance as nat
    }

    pub closed spec fn last_flush_spec(&self) -> Option<u64> {
        self.last_flush
    }

    /// The durable cursor never claims more progress than the in-memory one.
    pub open spec fn wf(&self) -> bool {
        self.persisted_advance_spec() <= self.advances_spec()
    }

    /// A crawler resuming from the cursor that was last written durably.
    pub fn resume(persisted: String) -> (r: Crawler<D>)
        ensures
            r.wf(),
            r.phase_spec() is Idle,
            r.cursor_spec() == persisted@,
            r.persisted_spec() == persisted@,
            r.advances_spec() == 0,
            r.persisted_advance_spec() == 0,
            r.last_flush_spec() is None,
            r.upserted_spec() == Map::<i64, D>::empty(),
    {
        Crawler {
            phase: CrawlPhase::Idle,
            cursor: persisted.clone(),
            advances: 0,
            persisted,
            persisted_advance: 0,
            last_flush: None,
            upserted: Ghost(Map::empty()),
        }
    }

    /// The in-memory cursor.
    pub fn cursor(&self) -> (r: &String)
        ensures
            r@ == self.cursor_spec(),
    {
        &self.cursor
    }

    /// The cursor last written durably.
    pub fn persisted(&self) -> (r: &String)
        ensures
            r@ == self.persisted_spec(),
    {
        &self.persisted
    }

    /// How many times the in-memory cursor has advanced.
    pub fn advances(&self) -> (r: u64)
        ensures
            r == self.advances_spec(),
    {
        self.advances
    }

    /// Which advance the durable cursor reflects.
    pub fn persisted_advance(&self) -> (r: u64)
        ensures
            r == self.persisted_advance_spec(),
    {
        self.persisted_advance
    }
    /// Advances the crawl by one event and says what the loop must do next.
    ///
    /// Fetch and upsert failures back off with the cursor untouched; the
    /// cursor moves to a page's continuation only once that page is indexed,
    /// and the durable cursor only ever moves forward to the in-memory one.
    pub fn step(&mut self, event: CrawlEvent<D>, now: u64) -> (r: CrawlAction<D>)
        requires
            old(self).wf(),
            old(self).advances_spec() < u64::MAX,
        ensures
            final(self).wf(),
            // the durable cursor never moves back
            durable_progress(*old(self), *final(self)),
            // only an indexed page changes what the crawl has upserted
            !(old(self).phase_spec() is Indexing && event is Indexed)
                ==> final(self).upserted_spec() == old(self).upserted_spec(),
            // the cursor only moves once a page is indexed
            final(self).cursor_spec() != old(self).cursor_spec()
                || final(self).advances_spec() != old(self).advances_spec()
                ==> old(self).phase_spec() is Indexing && event is Indexed,
            match (old(self).phase_spec(), event) {
                (CrawlPhase::Idle, CrawlEvent::Start) | (CrawlPhase::Backoff, CrawlEvent::Woke) => {
                    &&& final(self).phase_spec() is Fetching
                    &&& r is Fetch
                    &&& r->Fetch_0.cursor@ == old(self).cursor_spec()
                    &&& r->Fetch_0.nsfw == false
                    &&& r->Fetch_0.sort@ == "updated_asc"@
                    &&& r->Fetch_0.status@ == "any"@
                    &&& final(self).cursor_spec() == old(self).cursor_spec()
                    &&& final(self).advances_spec() == old(self).advances_spec()
                    &&& final(self).persisted_advance_spec() == old(self).persisted_advance_spec()
                    &&& final(self).persisted_spec() == old(self).persisted_spec()
                    &&& final(self).last_flush_spec() == old(self).last_flush_spec()
                },
                (CrawlPhase::Fetching, CrawlEvent::FetchFailed)
                | (CrawlPhase::Indexing { .. }, CrawlEvent::IndexFailed) => {
                    &&& final(self).phase_spec() is Backoff
                    &&& r == CrawlAction::<D>::Sleep(RETRY_DELAY_SECS)
                    &&& final(self).cursor_spec() == old(self).cursor_spec()
                    &&& final(self).advances_spec() == old(self).advances_spec()
                    &&& final(self).persisted_advance_spec() == old(self).persisted_advance_spec()
                    &&& final(self).persisted_spec() == old(self).persisted_spec()
                    &&& final(self).last_flush_spec() == old(self).last_flush_spec()
                },
                (CrawlPhase::Fetching, CrawlEvent::PageFetched { page, continuation }) => {
                    &&& final(self).phase_spec() == (CrawlPhase::<D>::Indexing {
                        items: page@.len() as u64,
                        continuation,
                        page: Ghost(page@),
                    })
                    &&& r is Upsert
                    &&& r->Upsert_0@ == page@
                    &&& final(self).cursor_spec() == old(self).cursor_spec()
                    &&& final(self).advances_spec() == old(self).advances_spec()
                    &&& final(self).persisted_advance_spec() == old(self).persisted_advance_spec()
                    &&& final(self).persisted_spec() == old(self).persisted_spec()
                    &&& final(self).last_flush_spec() == old(self).last_flush_spec()
                },
                (CrawlPhase::Indexing { items, continuation, page }, CrawlEvent::Indexed) => {
                    &&& final(self).upserted_spec() == upsert_all(old(self).upserted_spec(), page@)
                    &&& final(self).cursor_spec() == next_cursor(continuation)
                    &&& final(self).advances_spec() == old(self).advances_spec() + 1
                    &&& final(self).persisted_advance_spec() == old(self).persisted_advance_spec()
                    &&& final(self).persisted_spec() == old(self).persisted_spec()
                    &&& final(self).last_flush_spec() == old(self).last_flush_spec()
                    &&& if flush_due(old(self).last_flush_spec(), now) {
                        &&& final(self).phase_spec()
                            == (CrawlPhase::<D>::Persisting { delay: delay_after(items, continuation) })
                        &&& r is Persist
                        &&& r->Persist_0@ == final(self).cursor_spec()
                    } else {
                        &&& final(self).phase_spec() is Backoff
                        &&& r == CrawlAction::<D>::Sleep(delay_after(items, continuation))
                    }
                },
                (CrawlPhase::Persisting { delay }, CrawlEvent::Flushed) => {
                    &&& final(self).phase_spec() is Backoff
                    &&& r == CrawlAction::<D>::Sleep(delay)
                    &&& final(self).cursor_spec() == old(self).cursor_spec()
                    &&& final(self).advances_spec() == old(self).advances_spec()
                    &&& final(self).persisted_spec() == old(self).cursor_spec()
                    &&& final(self).persisted_advance_spec() == old(self).advances_spec()
                    &&& final(self).last_flush_spec() == Some(now)
                },
                (CrawlPhase::Persisting { delay }, CrawlEvent::FlushFailed) => {
                    &&& final(self).phase_spec() is Backoff
                    &&& r == CrawlAction::<D>::Sleep(delay)
                    &&& final(self).cursor_spec() == old(self).cursor_spec()
                    &&& final(self).advances_spec() == old(self).advances_spec()
                    &&& final(self).persisted_spec() == old(self).persisted_spec()
                    &&& final(self).persisted_advance_spec() == old(self).persisted_advance_spec()
                    &&& final(self).last_flush_spec() == old(self).last_flush_spec()
                },
                _ => {
                    &&& r is Ignore
                    &&& *final(self) == *old(self)
                },
            },
    {
        let mut phase = CrawlPhase::Backoff;
        std::mem::swap(&mut phase, &mut self.phase);
        match (phase, event) {
            (CrawlPhase::Idle, CrawlEvent::Start) | (CrawlPhase::Backoff, CrawlEvent::Woke) => {
                self.phase = CrawlPhase::Fetching;
                CrawlAction::Fetch(page_request(&self.cursor))
            },
            (CrawlPhase::Fetching, CrawlEvent::FetchFailed) => {
                CrawlAction::Sleep(RETRY_DELAY_SECS)
            },
            (CrawlPhase::Indexing { .. }, CrawlEvent::IndexFailed) => {
                CrawlAction::Sleep(RETRY_DELAY_SECS)
            },
            (CrawlPhase::Fetching, CrawlEvent::PageFetched { page, continuation }) => {
                let items = page.len() as u64;
                self.phase = CrawlPhase::Indexing { items, continuation, page: Ghost(page@) };
                CrawlAction::Upsert(page)
            },
            (CrawlPhase::Indexing { items, continuation, page }, CrawlEvent::Indexed) => {
                self.upserted = Ghost(upsert_all(self.upserted@, page@));
                let goes_on = match &continuation {
                    Some(c) => !c.as_str().is_empty(),
                    None => false,
                };
                let delay = if items < PAGE_SIZE || !goes_on {
                    COOLDOWN_SECS
                } else {
                    PAGE_DELAY_SECS
                };
                match continuation {
                    Some(c) if goes_on => {
                        self.cursor = c;
                    },
                    _ => {
                        self.cursor = String::new();
                    },
                }
                self.advances = self.advances + 1;
                let due = match self.last_flush {
                    None => true,
                    Some(t) => t <= now && now - t > FLUSH_WINDOW_SECS,
                };
                if due {
                    self.phase = CrawlPhase::Persisting { delay };
                    CrawlAction::Persist(self.cursor.clone())
                } else {
                    CrawlAction::Sleep(delay)
                }
            },
            (CrawlPhase::Persisting { delay }, CrawlEvent::Flushed) => {
                self.persisted = self.cursor.clone();
                self.persisted_advance = self.advances;
                self.last_flush = Some(now);
                CrawlAction::Sleep(delay)
            },
            (CrawlPhase::Persisting { delay }, CrawlEvent::FlushFailed) => {
                CrawlAction::Sleep(delay)
            },
            (phase, _) => {
                self.phase = phase;
                CrawlAction::Ignore
            },
        }
    }
}

} // verus!
