//! General laws of the ingestion step, proved once over the model.
//!
//! The executable coordinator guarantees `final(self)@ == step(old(self)@, e@)`
//! for every accepted event; the lemmas here spell out what one step, or
//! any sequence of steps, does to the counters and to the log.

use vstd::prelude::*;
use crate::model::{
    Model, EventRec, find_website, find_page, session_delta, bump_website,
    fresh_page, ghost_of, normalized_referrer, step, step_all,
    lemma_find_website_some, lemma_find_page_some, lemma_find_website_same_keys,
};

verus! {

/// Law: ingesting a valid event adds exactly one visitor, and one
/// session exactly when the event opens a session, to the matching
/// website row — and to no other website row.
pub proof fn lemma_step_website_counts(m: Model, e: EventRec, i: int)
    requires
        find_website(m.websites, e.website_id, e.user_id) == Some(i),
    ensures
        0 <= i < m.websites.len(),
        step(m, e).websites.len() == m.websites.len(),
        step(m, e).websites[i].visitor_count == m.websites[i].visitor_count + 1,
        step(m, e).websites[i].session_count == m.websites[i].session_count + session_delta(
            e.is_new_session,
        ),
        step(m, e).websites[i].website_id == m.websites[i].website_id,
        step(m, e).websites[i].owner_user_id == m.websites[i].owner_user_id,
        forall|k: int|
            0 <= k < m.websites.len() && k != i ==> step(m, e).websites[k] == m.websites[k],
{
    lemma_find_website_some(m.websites, e.website_id, e.user_id, 0, i);
}

/// Law: ingesting a valid event whose pathname already has a page row
/// adds the same visitor/session deltas to that row, leaves its stored
/// `website_id` and pathname as first written, and touches no other
/// page row.
pub proof fn lemma_step_existing_page(m: Model, e: EventRec, i: int, j: int)
    requires
        find_website(m.websites, e.website_id, e.user_id) == Some(i),
        find_page(m.pages, e.pathname) == Some(j),
    ensures
        0 <= j < m.pages.len(),
        step(m, e).pages.len() == m.pages.len(),
        step(m, e).pages[j].visitor_count == m.pages[j].visitor_count + 1,
        step(m, e).pages[j].session_count == m.pages[j].session_count + session_delta(
            e.is_new_session,
        ),
        step(m, e).pages[j].website_id == m.pages[j].website_id,
        step(m, e).pages[j].pathname == m.pages[j].pathname,
        forall|k: int| 0 <= k < m.pages.len() && k != j ==> step(m, e).pages[k] == m.pages[k],
{
    lemma_find_page_some(m.pages, e.pathname, 0, j);
}

/// Law: ingesting a valid event whose pathname has no page row yet
/// creates exactly one, carrying the event's website, one visitor, and
/// a session count given by the delta rule; existing rows stay as they
/// were.
pub proof fn lemma_step_new_page(m: Model, e: EventRec, i: int)
    requires
        find_website(m.websites, e.website_id, e.user_id) == Some(i),
        find_page(m.pages, e.pathname) is None,
    ensures
        step(m, e).pages == m.pages.push(
            fresh_page(e.website_id, e.pathname, e.is_new_session),
        ),
        step(m, e).pages[m.pages.len() as int].visitor_count == 1,
        step(m, e).pages[m.pages.len() as int].session_count == session_delta(e.is_new_session),
{
    lemma_find_website_some(m.websites, e.website_id, e.user_id, 0, i);
    assert(bump_website(m.websites[i], e.is_new_session).website_id == e.website_id);
}

/// Law: ingesting a valid event appends exactly one log record, built
/// from the matched website row's identity pair, with `referrer` absent
/// exactly when the input referrer was the empty string.
pub proof fn lemma_step_appends_ghost(m: Model, e: EventRec, i: int)
    requires
        find_website(m.websites, e.website_id, e.user_id) == Some(i),
    ensures
        step(m, e).ghosts == m.ghosts.push(ghost_of(e.user_id, e.website_id, e)),
        step(m, e).ghosts.len() == m.ghosts.len() + 1,
        ghost_of(e.user_id, e.website_id, e).referrer == normalized_referrer(e.referrer),
        e.referrer.len() == 0 ==> ghost_of(e.user_id, e.website_id, e).referrer is None,
        e.referrer.len() > 0 ==> ghost_of(e.user_id, e.website_id, e).referrer == Some(e.referrer),
{
    lemma_find_website_some(m.websites, e.website_id, e.user_id, 0, i);
    assert(bump_website(m.websites[i], e.is_new_session).owner_user_id == e.user_id);
}

/// Law: whatever one step does, both counters of every existing website
/// and page row can only grow, no row is removed or re-keyed, and the
/// log is append-only with every already-written record untouched.
pub proof fn lemma_step_monotonic(m: Model, e: EventRec)
    ensures
        step(m, e).websites.len() == m.websites.len(),
        forall|k: int|
            0 <= k < m.websites.len() ==> (#[trigger] step(m, e).websites[k]).visitor_count
                >= m.websites[k].visitor_count && step(m, e).websites[k].session_count
                >= m.websites[k].session_count && step(m, e).websites[k].website_id
                == m.websites[k].website_id && step(m, e).websites[k].owner_user_id
                == m.websites[k].owner_user_id,
        step(m, e).pages.len() >= m.pages.len(),
        forall|k: int|
            0 <= k < m.pages.len() ==> (#[trigger] step(m, e).pages[k]).visitor_count
                >= m.pages[k].visitor_count && step(m, e).pages[k].session_count
                >= m.pages[k].session_count && step(m, e).pages[k].pathname
                == m.pages[k].pathname && step(m, e).pages[k].website_id
                == m.pages[k].website_id,
        step(m, e).ghosts.len() >= m.ghosts.len(),
        forall|k: int| 0 <= k < m.ghosts.len() ==> step(m, e).ghosts[k] == m.ghosts[k],
{
    match find_website(m.websites, e.website_id, e.user_id) {
        None => {},
        Some(i) => {
            lemma_find_website_some(m.websites, e.website_id, e.user_id, 0, i);
            match find_page(m.pages, e.pathname) {
                None => {},
                Some(j) => {
                    lemma_find_page_some(m.pages, e.pathname, 0, j);
                },
            }
        },
    }
}

/// Whether every event in the sequence targets the given website with
/// `is_new_session` false.
pub open spec fn all_revisits_of(es: Seq<EventRec>, website_id: int, user_id: int) -> bool {
    forall|k: int|
        0 <= k < es.len() ==> (#[trigger] es[k]).website_id == website_id && es[k].user_id
            == user_id && !es[k].is_new_session
}

/// Law: N interleaved ingests are counted as N. Each `ingest` runs as
/// one atomic read-modify-write on exclusively borrowed state, so any
/// schedule of N concurrent calls is some sequential order of N steps;
/// for N events targeting one website, none opening a session, the
/// website's visitor count grows by exactly N — no update is lost — and
/// its session count not at all.
pub proof fn lemma_steps_count_every_event(
    m: Model,
    es: Seq<EventRec>,
    website_id: int,
    user_id: int,
    i: int,
)
    requires
        find_website(m.websites, website_id, user_id) == Some(i),
        all_revisits_of(es, website_id, user_id),
    ensures
        find_website(step_all(m, es).websites, website_id, user_id) == Some(i),
        step_all(m, es).websites.len() == m.websites.len(),
        step_all(m, es).websites[i].visitor_count == m.websites[i].visitor_count + es.len(),
        step_all(m, es).websites[i].session_count == m.websites[i].session_count,
    decreases es.len(),
{
    if es.len() == 0 {
    } else {
        let e = es[0];
        let m1 = step(m, e);
        lemma_step_website_counts(m, e, i);
        lemma_find_website_same_keys(m.websites, m1.websites, website_id, user_id, 0);
        let rest = es.subrange(1, es.len() as int);
        assert(all_revisits_of(rest, website_id, user_id)) by {
            assert forall|k: int|
                0 <= k < rest.len() implies (#[trigger] rest[k]).website_id == website_id
                && rest[k].user_id == user_id && !rest[k].is_new_session by {
                assert(rest[k] == es[k + 1]);
            }
        }
        lemma_steps_count_every_event(m1, rest, website_id, user_id, i);
    }
}

} // verus!
