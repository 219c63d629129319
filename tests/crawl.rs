use mirria::crawler::{
    page_request, CrawlAction, CrawlEvent, Crawler, COOLDOWN_SECS, PAGE_DELAY_SECS, RETRY_DELAY_SECS,
};
use std::collections::HashMap;

fn page(start: i64, count: i64) -> Vec<(i64, String)> {
    (start..start + count).map(|id| (id, format!("set {}", id))).collect()
}

/// Runs one fetch-index-persist cycle for a page; returns the action after indexing.
fn cycle(
    crawler: &mut Crawler<String>,
    index: &mut HashMap<i64, String>,
    docs: Vec<(i64, String)>,
    continuation: Option<&str>,
    now: u64,
    persists: &mut u32,
) -> u64 {
    let first = if crawler.advances() == 0 && crawler.persisted_advance() == 0 && *persists == 0 {
        CrawlEvent::Start
    } else {
        CrawlEvent::Woke
    };
    let fetch = crawler.step(first, now);
    assert!(matches!(fetch, CrawlAction::Fetch(_)));
    let sent = docs.clone();
    let upsert = crawler.step(
        CrawlEvent::PageFetched { page: docs, continuation: continuation.map(|c| c.to_string()) },
        now,
    );
    match upsert {
        // what the index store holds after the upsert, keyed by id
        CrawlAction::Upsert(page) => {
            assert_eq!(page, sent);
            index.extend(page);
        }
        other => panic!("expected an upsert, got {:?}", other),
    }
    match crawler.step(CrawlEvent::Indexed, now) {
        CrawlAction::Persist(c) => {
            assert_eq!(&c, crawler.cursor());
            *persists += 1;
            match crawler.step(CrawlEvent::Flushed, now) {
                CrawlAction::Sleep(d) => d,
                _ => panic!("expected a pause after persisting"),
            }
        }
        CrawlAction::Sleep(d) => d,
        _ => panic!("unexpected action after indexing"),
    }
}

#[test]
fn pagination_covers_every_item() {
    let mut crawler: Crawler<String> = Crawler::resume(String::new());
    let mut index: HashMap<i64, String> = HashMap::new();
    let mut persists = 0u32;
    let d1 = cycle(&mut crawler, &mut index, page(1, 50), Some("c1"), 0, &mut persists);
    assert_eq!(d1, PAGE_DELAY_SECS);
    let d2 = cycle(&mut crawler, &mut index, page(51, 50), Some("c2"), 3, &mut persists);
    assert_eq!(d2, PAGE_DELAY_SECS);
    let d3 = cycle(&mut crawler, &mut index, page(101, 12), None, 6, &mut persists);
    assert_eq!(d3, COOLDOWN_SECS);
    assert_eq!(crawler.advances(), 3);
    assert!(persists >= 1);
    assert_eq!(index.len(), 112);
    for id in 1..=112 {
        assert!(index.contains_key(&id));
    }
    // the listing ended: the next pass starts over
    assert_eq!(crawler.cursor(), "");
}

#[test]
fn fetch_failure_keeps_cursor() {
    let mut crawler: Crawler<String> = Crawler::resume("start".to_string());
    assert!(matches!(crawler.step(CrawlEvent::Start, 0), CrawlAction::Fetch(_)));
    assert_eq!(crawler.step(CrawlEvent::FetchFailed, 1), CrawlAction::Sleep(RETRY_DELAY_SECS));
    assert_eq!(crawler.cursor(), "start");
    match crawler.step(CrawlEvent::Woke, 61) {
        CrawlAction::Fetch(req) => assert_eq!(req.cursor, "start"),
        _ => panic!("expected a fetch"),
    }
}

#[test]
fn index_failure_retries_same_page() {
    let mut crawler: Crawler<String> = Crawler::resume("first".to_string());
    crawler.step(CrawlEvent::Start, 0);
    crawler.step(CrawlEvent::PageFetched { page: page(1, 50), continuation: Some("second".to_string()) }, 0);
    assert_eq!(crawler.step(CrawlEvent::IndexFailed, 0), CrawlAction::Sleep(RETRY_DELAY_SECS));
    assert_eq!(crawler.cursor(), "first");
    assert_eq!(crawler.advances(), 0);
    assert_eq!(crawler.persisted(), "first");
}

#[test]
fn persisted_cursor_is_throttled_and_monotone() {
    let mut crawler: Crawler<String> = Crawler::resume(String::new());
    let mut index: HashMap<i64, String> = HashMap::new();
    let mut persists = 0u32;
    let mut last_persisted_advance = 0;
    let mut now = 0u64;
    for n in 0..10i64 {
        let token = format!("c{}", n + 1);
        cycle(&mut crawler, &mut index, page(n * 50, 50), Some(&token), now, &mut persists);
        assert!(crawler.persisted_advance() >= last_persisted_advance);
        assert!(crawler.persisted_advance() <= crawler.advances());
        last_persisted_advance = crawler.persisted_advance();
        now += 5;
    }
    // pages at 0, 5, ..., 45 s: written at 0 s, then at 35 s (the eighth
    // page), the first instant more than 30 s later
    assert_eq!(persists, 2);
    assert_eq!(crawler.advances(), 10);
    assert_eq!(crawler.persisted_advance(), 8);
    assert_eq!(crawler.persisted(), "c8");
    assert_eq!(crawler.cursor(), "c10");
}

#[test]
fn end_of_listing_resets_cursor() {
    let mut crawler: Crawler<String> = Crawler::resume("c7".to_string());
    crawler.step(CrawlEvent::Start, 0);
    crawler.step(CrawlEvent::PageFetched { page: page(1, 4), continuation: None }, 0);
    assert!(matches!(crawler.step(CrawlEvent::Indexed, 0), CrawlAction::Persist(_)));
    assert_eq!(crawler.step(CrawlEvent::FlushFailed, 0), CrawlAction::Sleep(COOLDOWN_SECS));
    assert_eq!(crawler.cursor(), "");
    assert_eq!(crawler.advances(), 1);
    assert_eq!(crawler.persisted(), "c7");
}

#[test]
fn empty_continuation_ends_listing() {
    let mut crawler: Crawler<String> = Crawler::resume("c1".to_string());
    crawler.step(CrawlEvent::Start, 0);
    crawler.step(CrawlEvent::PageFetched { page: page(1, 50), continuation: Some(String::new()) }, 0);
    assert!(matches!(crawler.step(CrawlEvent::Indexed, 0), CrawlAction::Persist(_)));
    assert_eq!(crawler.step(CrawlEvent::Flushed, 0), CrawlAction::Sleep(COOLDOWN_SECS));
    assert_eq!(crawler.cursor(), "");
    assert_eq!(crawler.persisted(), "");
    assert_eq!(crawler.persisted_advance(), 1);
}

#[test]
fn out_of_phase_event_is_ignored() {
    let mut crawler: Crawler<String> = Crawler::resume("x".to_string());
    assert_eq!(crawler.step(CrawlEvent::Indexed, 0), CrawlAction::Ignore);
    assert_eq!(crawler.cursor(), "x");
}

#[test]
fn crawl_request_excludes_explicit_content() {
    let req = page_request(&"abc".to_string());
    assert!(!req.nsfw);
    assert_eq!(req.sort, "updated_asc");
    assert_eq!(req.status, "any");
    assert_eq!(req.cursor, "abc");
}

#[test]
fn flush_waits_for_more_than_the_window() {
    let mut crawler: Crawler<String> = Crawler::resume(String::new());
    for (n, now) in [(1u32, 0u64), (2, 30), (3, 31)] {
        let first = if n == 1 { CrawlEvent::Start } else { CrawlEvent::Woke };
        crawler.step(first, now);
        let token = format!("t{}", n);
        crawler.step(CrawlEvent::PageFetched { page: page(1, 50), continuation: Some(token) }, now);
        match crawler.step(CrawlEvent::Indexed, now) {
            CrawlAction::Persist(_) => {
                assert!(n != 2, "written again exactly 30 s later");
                crawler.step(CrawlEvent::Flushed, now);
            }
            CrawlAction::Sleep(_) => assert_eq!(n, 2),
            other => panic!("unexpected {:?}", other),
        }
    }
    assert_eq!(crawler.persisted(), "t3");
}
