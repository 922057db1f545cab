//! The ingestion coordinator: turns one decoded event into the three
//! durable effects — website increment, page upsert, log append.

use vstd::prelude::*;
use crate::event::{IngestEvent, IngestError};
use crate::event_log::{EventLog, GhostEvent};
use crate::model::{
    Model, find_website, website_found, step, step_fits, lemma_find_website_some,
};
use crate::store::AggregateStore;

verus! {

/// The ingestion engine: the aggregate store and the event log,
/// driven by `ingest`. Each call runs to completion on an exclusive
/// reference, so interleaved callers see every event applied exactly
/// once, in some linearization order.
pub struct Coordinator {
    pub store: AggregateStore,
    pub log: EventLog,
}

impl View for Coordinator {
    type V = Model;

    open spec fn view(&self) -> Model {
        Model { websites: self.store@.websites, pages: self.store@.pages, ghosts: self.log@ }
    }
}

impl Coordinator {
    /// The store is properly keyed.
    pub open spec fn wf(&self) -> bool {
        self.store.wf()
    }

    /// An engine with no rows and an empty log. Website rows are then
    /// added by provisioning through `store.put_website`.
    pub fn new() -> (c: Coordinator)
        ensures
            c.wf(),
            c@.websites.len() == 0,
            c@.pages.len() == 0,
            c@.ghosts.len() == 0,
    {
        Coordinator { store: AggregateStore::new(), log: EventLog::new() }
    }

    /// Whether ingesting the event stays within the counter word size.
    /// An unverified caller can test this before `ingest`.
    pub fn fits(&self, event: &IngestEvent) -> (b: bool)
        ensures
            b == step_fits(self@, event@),
    {
        match self.store.get_website(event.website_id, event.user_id) {
            None => true,
            Some(w) => {
                let website_room = w.visitor_count < u64::MAX && (!event.is_new_session
                    || w.session_count < u64::MAX);
                match self.store.get_page(&event.pathname) {
                    None => website_room,
                    Some(p) => website_room && p.visitor_count < u64::MAX && (
                    !event.is_new_session || p.session_count < u64::MAX),
                }
            },
        }
    }

    /// Ingest one event, or nothing.
    ///
    /// No event is not an error: nothing changes and the call succeeds.
    /// For an event, the three effects run in order — website row
    /// increment, page row upsert, log append — and the page and log
    /// writes use the identity pair returned by the store, not the
    /// caller-supplied one. An event whose `(website_id, user_id)` pair
    /// has no website row is dropped whole: no row changes, nothing is
    /// logged, and the caller gets the internal-failure signal.
    pub fn ingest(&mut self, event: Option<IngestEvent>) -> (r: Result<(), IngestError>)
        requires
            old(self).wf(),
            (event matches Some(e) ==> step_fits(old(self)@, e@)),
        ensures
            final(self).wf(),
            (event is None ==> r is Ok && final(self)@ == old(self)@),
            (event matches Some(e) ==> (website_found(old(self)@, e@) ==> r is Ok && final(self)@
                == step(old(self)@, e@))),
            (event matches Some(e) ==> (!website_found(old(self)@, e@) ==> r == Err::<
                (),
                IngestError,
            >(IngestError::Internal) && final(self)@ == old(self)@)),
    {
        let e = match event {
            None => {
                return Ok(());
            },
            Some(e) => e,
        };
        let website = match self.store.increment_website(
            e.website_id,
            e.user_id,
            e.is_new_session,
        ) {
            Ok(w) => w,
            Err(_) => {
                return Err(IngestError::Internal);
            },
        };
        proof {
            lemma_find_website_some(
                old(self)@.websites,
                e@.website_id,
                e@.user_id,
                0,
                find_website(old(self)@.websites, e@.website_id, e@.user_id)->Some_0,
            );
        }
        let _page = self.store.upsert_page(website.website_id, &e.pathname, e.is_new_session);
        let referrer: Option<String> = if e.referrer.as_str().is_empty() {
            None
        } else {
            Some(e.referrer)
        };
        let entry = GhostEvent {
            owner_user_id: website.owner_user_id,
            website_id: website.website_id,
            is_new_session: e.is_new_session,
            pathname: e.pathname,
            hostname: e.hostname,
            referrer,
        };
        self.log.append(entry);
        Ok(())
    }
}

} // verus!
