//! Executable input and error types of the ingestion engine.

use vstd::prelude::*;
use crate::model::EventRec;

verus! {

/// One decoded, validated visit event, handed in by the transport
/// collaborator. `href` and `origin` are opaque passthrough fields:
/// accepted, never read by the aggregation logic.
#[derive(Debug)]
pub struct IngestEvent {
    pub user_id: i32,
    pub website_id: i32,
    pub is_new_session: bool,
    pub href: String,
    pub hostname: String,
    pub origin: String,
    pub pathname: String,
    pub referrer: String,
}

impl View for IngestEvent {
    type V = EventRec;

    open spec fn view(&self) -> EventRec {
        EventRec {
            user_id: self.user_id as int,
            website_id: self.website_id as int,
            is_new_session: self.is_new_session,
            href: self.href@,
            hostname: self.hostname@,
            origin: self.origin@,
            pathname: self.pathname@,
            referrer: self.referrer@,
        }
    }
}

/// The single failure signal the coordinator surfaces to its caller:
/// a missing website row and any storage failure alike map to it, and
/// the transport collaborator turns it into a generic server error.
#[derive(Debug, Clone, Copy, PartialEq, Eq, Structural)]
pub enum IngestError {
    Internal,
}

} // verus!
