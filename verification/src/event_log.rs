//! The append-only event log of raw ingestion records.

use vstd::prelude::*;
use crate::model::GhostRec;

verus! {

/// One raw record of an ingested visit event, immutable once written.
/// `referrer` is `None` where the input referrer was empty.
#[derive(Debug)]
pub struct GhostEvent {
    pub owner_user_id: i32,
    pub website_id: i32,
    pub is_new_session: bool,
    pub pathname: String,
    pub hostname: String,
    pub referrer: Option<String>,
}

impl View for GhostEvent {
    type V = GhostRec;

    open spec fn view(&self) -> GhostRec {
        GhostRec {
            owner_user_id: self.owner_user_id as int,
            website_id: self.website_id as int,
            is_new_session: self.is_new_session,
            pathname: self.pathname@,
            hostname: self.hostname@,
            referrer: match self.referrer {
                Some(r) => Some(r@),
                None => None,
            },
        }
    }
}

/// Durable append-only storage for `GhostEvent` records. No entry is
/// ever rewritten or removed, and no read path is needed by ingestion;
/// the accessors below exist for analysis and inspection.
pub struct EventLog {
    entries: Vec<GhostEvent>,
}

impl View for EventLog {
    type V = Seq<GhostRec>;

    closed spec fn view(&self) -> Seq<GhostRec> {
        self.entries@.map_values(|g: GhostEvent| g@)
    }
}

impl EventLog {
    /// An empty log.
    pub fn new() -> (log: EventLog)
        ensures
            log@.len() == 0,
    {
        EventLog { entries: Vec::new() }
    }

    /// Append one record; everything already logged stays as it was.
    pub fn append(&mut self, entry: GhostEvent)
        ensures
            final(self)@ == old(self)@.push(entry@),
    {
        let ghost before = self@;
        self.entries.push(entry);
        proof {
            assert(self@ =~= before.push(entry@));
        }
    }

    /// How many records have been appended.
    pub fn len(&self) -> (n: usize)
        ensures
            n == self@.len(),
    {
        self.entries.len()
    }

    /// The record at an index, if the index is in range.
    pub fn entry(&self, i: usize) -> (r: Option<&GhostEvent>)
        ensures
            (match r {
                Some(g) => i < self@.len() && g@ == self@[i as int],
                None => i >= self@.len(),
            }),
    {
        if i < self.entries.len() {
            Some(&self.entries[i])
        } else {
            None
        }
    }
}

} // verus!
