use vstd::prelude::*;
use crate::text::{decimal_of, joined, render_i64};

verus! {

/// When a beatmapset archive was last mirrored (seconds since the epoch).
#[derive(Clone, Copy, Debug, PartialEq, Eq, Structural)]
pub struct DownloadIndex {
    pub id: i64,
    pub date: i64,
}

impl DownloadIndex {
    /// The record of an archive mirrored at `now`.
    pub fn new(id: i64, now: i64) -> (r: DownloadIndex)
        ensures
            r == (DownloadIndex { id, date: now }),
    {
        DownloadIndex { id, date: now }
    }
}

/// Why a download could not be served.
#[derive(Clone, Copy, Debug, PartialEq, Eq, Structural)]
pub enum DownloadError {
    /// Upstream answered with a failure status, or could not be reached.
    Upstream,
    /// The indexed modification time of the item is not RFC 3339.
    InvalidTimestamp,
    /// The download records could not be queried.
    RecordLookupFailed,
}

/// What to do with a download request.
#[derive(Clone, Copy, Debug, PartialEq, Eq, Structural)]
pub enum DownloadPlan {
    /// The archive on disk is current: serve it without asking upstream.
    ServeCached,
    /// Fetch the archive from upstream and overwrite the one on disk.
    Fetch,
}

/// Seconds since the epoch of an RFC 3339 date and time, if `s` is one.
pub uninterp spec fn rfc3339_seconds(s: Seq<char>) -> Option<i64>;

/// Relies on chrono's `DateTime::parse_from_rfc3339` and `DateTime::timestamp`:
/// the instant written in `s`, when it is RFC 3339, as seconds since the epoch.
#[verifier::external_body]
fn parse_rfc3339_timestamp(s: &str) -> (r: Option<i64>)
    ensures
        r == rfc3339_seconds(s@),
{
    match chrono::DateTime::parse_from_rfc3339(s) {
        Ok(d) => Some(d.timestamp()),
        Err(_) => None,
    }
}

/// Whether the archive must come from upstream: none is on disk, it was
/// never recorded as mirrored, or upstream changed it after it was mirrored.
pub open spec fn needs_fetch(cached: bool, record: Option<DownloadIndex>, upstream_modified: Option<i64>) -> bool {
    ||| !cached
    ||| record is None
    ||| (upstream_modified is Some && upstream_modified->0 > record->0.date)
}

/// The plan that a fetch decision stands for.
pub open spec fn plan_of(needs: bool) -> DownloadPlan {
    if needs { DownloadPlan::Fetch } else { DownloadPlan::ServeCached }
}

/// Whether to serve the archive on disk or fetch it again, given whether a
/// file is on disk, the record of the last mirroring, and the item's
/// modification time upstream when it is known.
pub fn freshness_plan(cached: bool, record: Option<DownloadIndex>, upstream_modified: Option<i64>) -> (r: DownloadPlan)
    ensures
        r == plan_of(needs_fetch(cached, record, upstream_modified)),
{
    if !cached {
        return DownloadPlan::Fetch;
    }
    match record {
        None => DownloadPlan::Fetch,
        Some(rec) => match upstream_modified {
            Some(t) => {
                if t > rec.date {
                    DownloadPlan::Fetch
                } else {
                    DownloadPlan::ServeCached
                }
            },
            None => DownloadPlan::ServeCached,
        },
    }
}

/// The first record of a lookup's hits.
pub open spec fn first_record(hits: Seq<DownloadIndex>) -> Option<DownloadIndex> {
    if hits.len() > 0 {
        Some(hits[0])
    } else {
        None
    }
}

/// Plan for a download request, given the hits of the record lookup
/// (`None` when the records could not be queried) and the item's
/// `last_updated` text as found in the index (`None` when the index has no
/// such item). A failed lookup is an error and nothing is fetched. The
/// modification time is read only when there is a cached, recorded archive
/// to compare it with.
pub fn plan_download(cached: bool, record_hits: Option<Vec<DownloadIndex>>, upstream_last_updated: Option<&str>) -> (r: Result<DownloadPlan, DownloadError>)
    ensures
        match record_hits {
            None => r == Err::<DownloadPlan, DownloadError>(DownloadError::RecordLookupFailed),
            Some(hits) => {
                let record = first_record(hits@);
                if !cached || record is None {
                    r == Ok::<DownloadPlan, DownloadError>(DownloadPlan::Fetch)
                } else {
                    match upstream_last_updated {
                        None => r == Ok::<DownloadPlan, DownloadError>(DownloadPlan::ServeCached),
                        Some(s) => match rfc3339_seconds(s@) {
                            None => r == Err::<DownloadPlan, DownloadError>(DownloadError::InvalidTimestamp),
                            Some(t) => r == Ok::<DownloadPlan, DownloadError>(
                                plan_of(needs_fetch(cached, record, Some(t))),
                            ),
                        },
                    }
                }
            },
        },
{
    let record = match existing_record(record_hits) {
        Ok(rec) => rec,
        Err(e) => {
            return Err(e);
        },
    };
    if !cached || record.is_none() {
        return Ok(DownloadPlan::Fetch);
    }
    match upstream_last_updated {
        None => Ok(freshness_plan(cached, record, None)),
        Some(s) => match parse_rfc3339_timestamp(s) {
            None => Err(DownloadError::InvalidTimestamp),
            Some(t) => Ok(freshness_plan(cached, record, Some(t))),
        },
    }
}

/// Whether an HTTP status reports success.
pub open spec fn is_success(status: u16) -> bool {
    200 <= status <= 299
}

/// Outcome of an upstream fetch of item `id` that ended at `now` with
/// `status` (`None` when upstream could not be reached): on success, the
/// record to store beside the written archive; otherwise the error, which
/// the request answers with, while the archive on disk, if any, is kept.
pub fn finish_fetch(id: i64, status: Option<u16>, now: i64) -> (r: Result<DownloadIndex, DownloadError>)
    ensures
        match status {
            Some(code) if is_success(code) => r == Ok::<DownloadIndex, DownloadError>(DownloadIndex { id, date: now }),
            _ => r == Err::<DownloadIndex, DownloadError>(DownloadError::Upstream),
        },
{
    match status {
        Some(code) => {
            if 200 <= code && code <= 299 {
                Ok(DownloadIndex::new(id, now))
            } else {
                Err(DownloadError::Upstream)
            }
        },
        None => Err(DownloadError::Upstream),
    }
}

/// Name of the archive file of item `id` in the archive directory.
pub fn archive_file_name(id: i64) -> (r: String)
    ensures
        r@ == decimal_of(id as int) + ".osz"@,
{
    let digits = render_i64(id);
    joined(digits.as_str(), ".osz")
}

/// File name offered to the client: `<id> <artist> - <title>.osz`.
pub fn attachment_name(id: i64, artist: &str, title: &str) -> (r: String)
    ensures
        r@ == decimal_of(id as int) + " "@ + artist@ + " - "@ + title@ + ".osz"@,
{
    let digits = render_i64(id);
    let a = joined(digits.as_str(), " ");
    let b = joined(a.as_str(), artist);
    let c = joined(b.as_str(), " - ");
    let d = joined(c.as_str(), title);
    joined(d.as_str(), ".osz")
}

/// Items whose archive is being fetched right now, so that concurrent
/// requests for one item cause a single upstream fetch.
pub struct FetchGuard {
    in_flight: Vec<i64>,
}

impl FetchGuard {
    pub closed spec fn view(&self) -> Set<i64> {
        self.in_flight@.to_set()
    }

    pub fn new() -> (r: FetchGuard)
        ensures
            r.view() == Set::<i64>::empty(),
    {
        let r = FetchGuard { in_flight: Vec::new() };
        proof {
            assert(r.in_flight@.to_set() =~= Set::<i64>::empty());
        }
        r
    }

    /// Whether item `id` is being fetched.
    pub fn is_fetching(&self, id: i64) -> (r: bool)
        ensures
            r == self.view().contains(id),
    {
        let mut i: usize = 0;
        while i < self.in_flight.len()
            invariant
                i <= self.in_flight.len(),
                forall|j: int| 0 <= j < i ==> self.in_flight@[j] != id,
            decreases self.in_flight.len() - i,
        {
            if self.in_flight[i] == id {
                proof {
                    assert(self.in_flight@.contains(id));
                }
                return true;
            }
            i = i + 1;
        }
        proof {
            assert(!self.in_flight@.contains(id));
        }
        false
    }

    /// Claims the fetch of item `id`: true when the caller must fetch it,
    /// false when a fetch of it is already in flight and the caller waits.
    pub fn try_begin(&mut self, id: i64) -> (r: bool)
        ensures
            r == !old(self).view().contains(id),
            final(self).view() == old(self).view().insert(id),
    {
        if self.is_fetching(id) {
            proof {
                assert(self.view().insert(id) =~= self.view());
            }
            false
        } else {
            self.in_flight.push(id);
            proof {
                assert(self.in_flight@.to_set() =~= old(self).view().insert(id)) by {
                    assert forall|x: i64| #[trigger] self.in_flight@.contains(x) <==> old(self).in_flight@.contains(x) || x == id by {
                        if self.in_flight@.contains(x) {
                            let j = choose|j: int| 0 <= j < self.in_flight@.len() && self.in_flight@[j] == x;
                            if j < old(self).in_flight@.len() {
                                assert(old(self).in_flight@[j] == x);
                            }
                        }
                        if old(self).in_flight@.contains(x) {
                            let j = choose|j: int| 0 <= j < old(self).in_flight@.len() && old(self).in_flight@[j] == x;
                            assert(self.in_flight@[j] == x);
                        }
                        if x == id {
                            assert(self.in_flight@[old(self).in_flight@.len() as int] == id);
                        }
                    }
                }
            }
            true
        }
    }

    /// Releases item `id` once its fetch is over, successful or not.
    pub fn finish(&mut self, id: i64)
        ensures
            final(self).view() == old(self).view().remove(id),
    {
        let mut kept: Vec<i64> = Vec::new();
        let mut i: usize = 0;
        while i < self.in_flight.len()
            invariant
                i <= self.in_flight.len(),
                forall|x: i64| #[trigger] kept@.contains(x) <==> (self.in_flight@.take(i as int).contains(x) && x != id),
            decreases self.in_flight.len() - i,
        {
            let x = self.in_flight[i];
            let ghost before = kept@;
            if x != id {
                kept.push(x);
            }
            proof {
                let t = self.in_flight@.take(i as int);
                let t2 = self.in_flight@.take(i + 1);
                assert(t2 =~= t.push(x));
                assert forall|y: i64| #[trigger] kept@.contains(y) <==> (t2.contains(y) && y != id) by {
                    if kept@.contains(y) {
                        let j = choose|j: int| 0 <= j < kept@.len() && kept@[j] == y;
                        if j < before.len() {
                            assert(before[j] == y);
                            assert(before.contains(y));
                            let k = choose|k: int| 0 <= k < t.len() && t[k] == y;
                            assert(t2[k] == y);
                        } else {
                            assert(t2[i as int] == y);
                        }
                    }
                    if t2.contains(y) && y != id {
                        let j = choose|j: int| 0 <= j < t2.len() && t2[j] == y;
                        if j < i {
                            assert(t[j] == y);
                            assert(before.contains(y));
                            let k = choose|k: int| 0 <= k < before.len() && before[k] == y;
                            assert(kept@[k] == y);
                        } else {
                            assert(kept@[kept@.len() - 1] == y);
                        }
                    }
                }
            }
            i = i + 1;
        }
        proof {
            assert(self.in_flight@.take(self.in_flight@.len() as int) =~= self.in_flight@);
            assert(kept@.to_set() =~= old(self).view().remove(id));
        }
        self.in_flight = kept;
    }
}

/// The download record a lookup answers with: the first hit, none when it
/// found nothing (the archive then counts as never mirrored), and an error
/// when the records could not be queried.
pub fn existing_record(hits: Option<Vec<DownloadIndex>>) -> (r: Result<Option<DownloadIndex>, DownloadError>)
    ensures
        r == (match hits {
            Some(v) => Ok::<Option<DownloadIndex>, DownloadError>(first_record(v@)),
            None => Err::<Option<DownloadIndex>, DownloadError>(DownloadError::RecordLookupFailed),
        }),
{
    match hits {
        Some(v) => {
            if v.len() > 0 {
                Ok(Some(v[0]))
            } else {
                Ok(None)
            }
        },
        None => Err(DownloadError::RecordLookupFailed),
    }
}

/// An archive mirrored at `record.date` after upstream last changed it is
/// served from disk as it is; once upstream changes it after that instant,
/// the next request fetches it again.
pub proof fn staleness_decides_refetch(record: DownloadIndex, unchanged: i64, changed: i64)
    requires
        unchanged < record.date,
        changed > record.date,
    ensures
        plan_of(needs_fetch(true, Some(record), Some(unchanged))) == DownloadPlan::ServeCached,
        plan_of(needs_fetch(true, Some(record), Some(changed))) == DownloadPlan::Fetch,
{
}

/// An item never downloaded before is fetched once; right after, with
/// upstream unchanged, it is served from disk without a fetch.
pub proof fn first_download_then_cached(id: i64, modified: i64, now: i64)
    requires
        modified <= now,
    ensures
        plan_of(needs_fetch(false, None, Some(modified))) == DownloadPlan::Fetch,
        plan_of(needs_fetch(true, Some(DownloadIndex { id, date: now }), Some(modified)))
            == DownloadPlan::ServeCached,
{
}

} // verus!
