use mirria::downloads::{
    archive_file_name, attachment_name, existing_record, finish_fetch, freshness_plan,
    plan_download, DownloadError, DownloadIndex, DownloadPlan, FetchGuard,
};

#[test]
fn first_download_fetches_once_then_serves_cache() {
    let modified = "2023-05-01T12:00:00+00:00";
    let now = 1_700_000_000;
    let mut fetches = 0;
    let mut files = 0;
    let mut records: Vec<DownloadIndex> = Vec::new();

    // no record, no file
    let plan = plan_download(false, Some(records.clone()), Some(modified)).unwrap();
    assert_eq!(plan, DownloadPlan::Fetch);
    fetches += 1;
    let record = finish_fetch(42, Some(200), now).unwrap();
    files += 1;
    records.push(record);
    assert_eq!(record, DownloadIndex { id: 42, date: now });

    // second request right after, upstream unchanged
    let plan = plan_download(true, Some(records.clone()), Some(modified)).unwrap();
    assert_eq!(plan, DownloadPlan::ServeCached);

    assert_eq!(fetches, 1);
    assert_eq!(files, 1);
    assert_eq!(records.len(), 1);
}

#[test]
fn staleness_decides_on_upstream_modification() {
    // 2020-01-01T00:00:00Z is 1577836800
    let record = DownloadIndex::new(7, 1_577_836_800);
    assert_eq!(
        plan_download(true, Some(vec![record]), Some("2019-12-31T23:59:59Z")),
        Ok(DownloadPlan::ServeCached)
    );
    assert_eq!(
        plan_download(true, Some(vec![record]), Some("2020-01-01T00:00:00Z")),
        Ok(DownloadPlan::ServeCached)
    );
    assert_eq!(
        plan_download(true, Some(vec![record]), Some("2020-01-01T00:00:01Z")),
        Ok(DownloadPlan::Fetch)
    );
    // offsets are honoured: 01:00:01+01:00 is 00:00:01Z
    assert_eq!(
        plan_download(true, Some(vec![record]), Some("2020-01-01T01:00:01+01:00")),
        Ok(DownloadPlan::Fetch)
    );
}

#[test]
fn unparseable_modification_time_is_an_error() {
    let record = DownloadIndex::new(7, 10);
    assert_eq!(
        plan_download(true, Some(vec![record]), Some("yesterday")),
        Err(DownloadError::InvalidTimestamp)
    );
}

#[test]
fn unknown_upstream_item_serves_cache() {
    let record = DownloadIndex::new(7, 10);
    assert_eq!(plan_download(true, Some(vec![record]), None), Ok(DownloadPlan::ServeCached));
    assert_eq!(plan_download(false, Some(vec![record]), None), Ok(DownloadPlan::Fetch));
    assert_eq!(freshness_plan(true, None, None), DownloadPlan::Fetch);
    assert_eq!(freshness_plan(true, Some(record), Some(11)), DownloadPlan::Fetch);
    assert_eq!(freshness_plan(true, Some(record), Some(10)), DownloadPlan::ServeCached);
}

#[test]
fn failed_record_lookup_fetches_nothing() {
    assert_eq!(
        plan_download(false, None, Some("2020-01-01T00:00:00Z")),
        Err(DownloadError::RecordLookupFailed)
    );
    assert_eq!(plan_download(true, None, None), Err(DownloadError::RecordLookupFailed));
    assert_eq!(plan_download(true, Some(vec![]), None), Ok(DownloadPlan::Fetch));
}

#[test]
fn nothing_cached_fetches_whatever_the_timestamp() {
    let record = DownloadIndex::new(7, 10);
    assert_eq!(plan_download(false, Some(vec![record]), Some("yesterday")), Ok(DownloadPlan::Fetch));
    assert_eq!(plan_download(true, Some(vec![]), Some("yesterday")), Ok(DownloadPlan::Fetch));
}

#[test]
fn failed_fetch_is_an_upstream_error() {
    assert_eq!(finish_fetch(1, Some(404), 5), Err(DownloadError::Upstream));
    assert_eq!(finish_fetch(1, Some(500), 5), Err(DownloadError::Upstream));
    assert_eq!(finish_fetch(1, None, 5), Err(DownloadError::Upstream));
    assert_eq!(finish_fetch(1, Some(299), 5), Ok(DownloadIndex { id: 1, date: 5 }));
}

#[test]
fn existing_record_takes_first_hit() {
    assert_eq!(existing_record(None), Err(DownloadError::RecordLookupFailed));
    assert_eq!(existing_record(Some(vec![])), Ok(None));
    let a = DownloadIndex::new(3, 30);
    let b = DownloadIndex::new(3, 40);
    assert_eq!(existing_record(Some(vec![a, b])), Ok(Some(a)));
}

#[test]
fn archive_names() {
    assert_eq!(archive_file_name(42), "42.osz");
    assert_eq!(archive_file_name(-7), "-7.osz");
    assert_eq!(attachment_name(1234, "Artist", "Song"), "1234 Artist - Song.osz");
}

#[test]
fn fetch_guard_allows_one_fetch_per_item() {
    let mut guard = FetchGuard::new();
    assert!(guard.try_begin(42));
    assert!(!guard.try_begin(42));
    assert!(guard.try_begin(43));
    assert!(guard.is_fetching(42));
    guard.finish(42);
    assert!(!guard.is_fetching(42));
    assert!(guard.is_fetching(43));
    assert!(guard.try_begin(42));
}
