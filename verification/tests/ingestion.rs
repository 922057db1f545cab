//! End-to-end checks of the ingestion engine through its public API.

use telemetry_ingest::coordinator::Coordinator;
use telemetry_ingest::event::{IngestError, IngestEvent};
use telemetry_ingest::store::WebsiteAggregate;

fn website(website_id: i32, owner_user_id: i32, visitors: u64, sessions: u64) -> WebsiteAggregate {
    WebsiteAggregate {
        website_id,
        owner_user_id,
        visitor_count: visitors,
        session_count: sessions,
    }
}

fn event(
    user_id: i32,
    website_id: i32,
    is_new_session: bool,
    pathname: &str,
    referrer: &str,
) -> IngestEvent {
    IngestEvent {
        user_id,
        website_id,
        is_new_session,
        href: "https://x.com/blog".to_string(),
        hostname: "x.com".to_string(),
        origin: "https://x.com".to_string(),
        pathname: pathname.to_string(),
        referrer: referrer.to_string(),
    }
}

#[test]
fn website_and_page_counts_after_one_event() {
    let mut engine = Coordinator::new();
    assert!(engine.store.put_website(website(1, 7, 10, 3)));

    let r = engine.ingest(Some(event(7, 1, true, "/blog", "")));
    assert_eq!(r, Ok(()));

    let w = engine.store.get_website(1, 7).unwrap();
    assert_eq!(w.visitor_count, 11);
    assert_eq!(w.session_count, 4);

    let p = engine.store.get_page(&"/blog".to_string()).unwrap();
    assert_eq!(p.website_id, 1);
    assert_eq!(p.visitor_count, 1);
    assert_eq!(p.session_count, 1);

    assert_eq!(engine.log.len(), 1);
    let g = engine.log.entry(0).unwrap();
    assert_eq!(g.owner_user_id, 7);
    assert_eq!(g.website_id, 1);
    assert!(g.is_new_session);
    assert_eq!(g.pathname, "/blog".to_string());
    assert_eq!(g.hostname, "x.com".to_string());
    assert_eq!(g.referrer, None);
}

#[test]
fn revisit_adds_no_session() {
    let mut engine = Coordinator::new();
    assert!(engine.store.put_website(website(1, 7, 0, 0)));

    assert_eq!(engine.ingest(Some(event(7, 1, false, "/about", ""))), Ok(()));
    assert_eq!(engine.ingest(Some(event(7, 1, false, "/about", ""))), Ok(()));

    let w = engine.store.get_website(1, 7).unwrap();
    assert_eq!(w.visitor_count, 2);
    assert_eq!(w.session_count, 0);

    let p = engine.store.get_page(&"/about".to_string()).unwrap();
    assert_eq!(p.visitor_count, 2);
    assert_eq!(p.session_count, 0);
}

#[test]
fn page_row_is_shared_across_websites_by_pathname() {
    let mut engine = Coordinator::new();
    assert!(engine.store.put_website(website(1, 7, 10, 3)));
    assert!(engine.store.put_website(website(2, 9, 0, 0)));

    assert_eq!(engine.ingest(Some(event(7, 1, true, "/blog", ""))), Ok(()));
    assert_eq!(engine.ingest(Some(event(9, 2, true, "/blog", ""))), Ok(()));

    // The page row is keyed by pathname alone, so the second website's
    // event lands on the row the first website created, and the stored
    // website_id stays whatever was first written.
    let p = engine.store.get_page(&"/blog".to_string()).unwrap();
    assert_eq!(p.website_id, 1);
    assert_eq!(p.visitor_count, 2);
    assert_eq!(p.session_count, 2);

    let w2 = engine.store.get_website(2, 9).unwrap();
    assert_eq!(w2.visitor_count, 1);
    assert_eq!(w2.session_count, 1);
}

#[test]
fn no_event_is_a_successful_no_op() {
    let mut engine = Coordinator::new();
    assert!(engine.store.put_website(website(1, 7, 10, 3)));

    assert_eq!(engine.ingest(None), Ok(()));

    let w = engine.store.get_website(1, 7).unwrap();
    assert_eq!(w.visitor_count, 10);
    assert_eq!(w.session_count, 3);
    assert!(engine.store.get_page(&"/blog".to_string()).is_none());
    assert_eq!(engine.log.len(), 0);
}

#[test]
fn unknown_website_drops_the_event_whole() {
    let mut engine = Coordinator::new();
    assert!(engine.store.put_website(website(1, 7, 10, 3)));

    // No row carries the pair (1, 8): the owner must match too.
    let r = engine.ingest(Some(event(8, 1, true, "/blog", "")));
    assert_eq!(r, Err(IngestError::Internal));

    let w = engine.store.get_website(1, 7).unwrap();
    assert_eq!(w.visitor_count, 10);
    assert_eq!(w.session_count, 3);
    assert!(engine.store.get_page(&"/blog".to_string()).is_none());
    assert_eq!(engine.log.len(), 0);
}

#[test]
fn nonempty_referrer_is_kept() {
    let mut engine = Coordinator::new();
    assert!(engine.store.put_website(website(1, 7, 0, 0)));

    assert_eq!(engine.ingest(Some(event(7, 1, false, "/blog", "https://search.example"))), Ok(()));

    assert_eq!(engine.log.len(), 1);
    let g = engine.log.entry(0).unwrap();
    assert_eq!(g.referrer, Some("https://search.example".to_string()));
}

#[test]
fn one_log_record_per_event() {
    let mut engine = Coordinator::new();
    assert!(engine.store.put_website(website(1, 7, 0, 0)));

    assert_eq!(engine.ingest(Some(event(7, 1, false, "/a", ""))), Ok(()));
    assert_eq!(engine.log.len(), 1);
    assert_eq!(engine.ingest(Some(event(7, 1, false, "/b", "r"))), Ok(()));
    assert_eq!(engine.log.len(), 2);
    assert_eq!(engine.log.entry(0).unwrap().pathname, "/a".to_string());
    assert_eq!(engine.log.entry(1).unwrap().pathname, "/b".to_string());
}

#[test]
fn every_ingest_is_counted() {
    let mut engine = Coordinator::new();
    assert!(engine.store.put_website(website(1, 7, 0, 5)));

    for _ in 0..5 {
        assert_eq!(engine.ingest(Some(event(7, 1, false, "/hot", ""))), Ok(()));
    }

    let w = engine.store.get_website(1, 7).unwrap();
    assert_eq!(w.visitor_count, 5);
    assert_eq!(w.session_count, 5);
    let p = engine.store.get_page(&"/hot".to_string()).unwrap();
    assert_eq!(p.visitor_count, 5);
    assert_eq!(p.session_count, 0);
    assert_eq!(engine.log.len(), 5);
}

#[test]
fn put_website_rejects_a_taken_identity() {
    let mut engine = Coordinator::new();
    assert!(engine.store.put_website(website(1, 7, 10, 3)));
    assert!(!engine.store.put_website(website(1, 7, 0, 0)));

    // The first row stays.
    let w = engine.store.get_website(1, 7).unwrap();
    assert_eq!(w.visitor_count, 10);
    assert_eq!(w.session_count, 3);
}

#[test]
fn lookups_on_an_empty_store_find_nothing() {
    let engine = Coordinator::new();
    assert!(engine.store.get_website(1, 7).is_none());
    assert!(engine.store.get_page(&"/blog".to_string()).is_none());
    assert_eq!(engine.log.len(), 0);
    assert!(engine.log.entry(0).is_none());
}

#[test]
fn fits_spots_a_counter_at_the_word_ceiling() {
    let mut engine = Coordinator::new();
    assert!(engine.store.put_website(website(1, 7, u64::MAX, 0)));
    assert!(!engine.fits(&event(7, 1, false, "/blog", "")));

    let mut engine2 = Coordinator::new();
    assert!(engine2.store.put_website(website(1, 7, 0, u64::MAX)));
    // The session counter is only touched when the event opens a session.
    assert!(engine2.fits(&event(7, 1, false, "/blog", "")));
    assert!(!engine2.fits(&event(7, 1, true, "/blog", "")));

    // An event for an unknown website touches nothing, so it fits.
    assert!(engine.fits(&event(9, 2, true, "/blog", "")));
}
