//! Mathematical model of the ingestion engine's state and of one
//! ingestion step.
//!
//! The executable store, log and coordinator all state their contracts
//! over the records and transition functions defined here.

use vstd::prelude::*;

verus! {

/// Running visitor/session counters for one website, identified by the
/// pair `(website_id, owner_user_id)`.
pub ghost struct WebsiteRec {
    pub website_id: int,
    pub owner_user_id: int,
    pub visitor_count: int,
    pub session_count: int,
}

/// Running visitor/session counters for one page path. A page row is
/// keyed by `pathname` alone, globally across websites; `website_id`
/// records whichever website first produced the row.
pub ghost struct PageRec {
    pub website_id: int,
    pub pathname: Seq<char>,
    pub visitor_count: int,
    pub session_count: int,
}

/// One immutable raw log entry, retained for later analysis. An empty
/// referrer is normalized to `None` before the entry is written.
pub ghost struct GhostRec {
    pub owner_user_id: int,
    pub website_id: int,
    pub is_new_session: bool,
    pub pathname: Seq<char>,
    pub hostname: Seq<char>,
    pub referrer: Option<Seq<char>>,
}

/// One decoded, validated input event, as the transport collaborator
/// hands it to the coordinator. `href` and `origin` are carried through
/// untouched; the aggregation logic never reads them.
pub ghost struct EventRec {
    pub user_id: int,
    pub website_id: int,
    pub is_new_session: bool,
    pub href: Seq<char>,
    pub hostname: Seq<char>,
    pub origin: Seq<char>,
    pub pathname: Seq<char>,
    pub referrer: Seq<char>,
}

/// Abstract contents of the aggregate store: the website rows and the
/// page rows.
pub ghost struct StoreModel {
    pub websites: Seq<WebsiteRec>,
    pub pages: Seq<PageRec>,
}

/// Abstract state of the whole engine: aggregate rows plus the
/// append-only event log.
pub ghost struct Model {
    pub websites: Seq<WebsiteRec>,
    pub pages: Seq<PageRec>,
    pub ghosts: Seq<GhostRec>,
}

/// How much one event adds to a session counter: 1 when it opens a new
/// session, 0 otherwise.
pub open spec fn session_delta(new_session: bool) -> int {
    if new_session {
        1
    } else {
        0
    }
}

/// Whether a website row carries the given identity pair.
pub open spec fn website_matches(w: WebsiteRec, website_id: int, owner_user_id: int) -> bool {
    w.website_id == website_id && w.owner_user_id == owner_user_id
}

/// Index of the first website row at or after `i` matching the identity
/// pair, if any.
pub open spec fn find_website_from(
    ws: Seq<WebsiteRec>,
    website_id: int,
    owner_user_id: int,
    i: int,
) -> Option<int>
    decreases ws.len() - i,
{
    if i < 0 || i >= ws.len() {
        None
    } else if website_matches(ws[i], website_id, owner_user_id) {
        Some(i)
    } else {
        find_website_from(ws, website_id, owner_user_id, i + 1)
    }
}

/// Index of the website row matching the identity pair, if any.
pub open spec fn find_website(ws: Seq<WebsiteRec>, website_id: int, owner_user_id: int) -> Option<
    int,
> {
    find_website_from(ws, website_id, owner_user_id, 0)
}

/// Index of the first page row at or after `i` with the given pathname,
/// if any.
pub open spec fn find_page_from(ps: Seq<PageRec>, pathname: Seq<char>, i: int) -> Option<int>
    decreases ps.len() - i,
{
    if i < 0 || i >= ps.len() {
        None
    } else if ps[i].pathname == pathname {
        Some(i)
    } else {
        find_page_from(ps, pathname, i + 1)
    }
}

/// Index of the page row with the given pathname, if any.
pub open spec fn find_page(ps: Seq<PageRec>, pathname: Seq<char>) -> Option<int> {
    find_page_from(ps, pathname, 0)
}

/// A website row after one event: one more visitor, one more session if
/// the event opened one, identity untouched.
pub open spec fn bump_website(w: WebsiteRec, new_session: bool) -> WebsiteRec {
    WebsiteRec {
        visitor_count: w.visitor_count + 1,
        session_count: w.session_count + session_delta(new_session),
        ..w
    }
}

/// A page row after one further event for its pathname: same delta rule
/// as for websites; the stored `website_id` is never rewritten.
pub open spec fn bump_page(p: PageRec, new_session: bool) -> PageRec {
    PageRec {
        visitor_count: p.visitor_count + 1,
        session_count: p.session_count + session_delta(new_session),
        ..p
    }
}

/// The page row created on the first event for a pathname.
pub open spec fn fresh_page(website_id: int, pathname: Seq<char>, new_session: bool) -> PageRec {
    PageRec { website_id, pathname, visitor_count: 1, session_count: session_delta(new_session) }
}

/// The referrer as stored in the log: an empty string becomes `None`.
pub open spec fn normalized_referrer(referrer: Seq<char>) -> Option<Seq<char>> {
    if referrer.len() == 0 {
        None
    } else {
        Some(referrer)
    }
}

/// The log entry written for one event, using the authoritative identity
/// pair taken from the matched website row.
pub open spec fn ghost_of(owner_user_id: int, website_id: int, e: EventRec) -> GhostRec {
    GhostRec {
        owner_user_id,
        website_id,
        is_new_session: e.is_new_session,
        pathname: e.pathname,
        hostname: e.hostname,
        referrer: normalized_referrer(e.referrer),
    }
}

/// The page rows after an upsert for `pathname`: increment in place when
/// the pathname already has a row, otherwise append a fresh row.
pub open spec fn upsert_pages(
    ps: Seq<PageRec>,
    website_id: int,
    pathname: Seq<char>,
    new_session: bool,
) -> Seq<PageRec> {
    match find_page(ps, pathname) {
        Some(j) => ps.update(j, bump_page(ps[j], new_session)),
        None => ps.push(fresh_page(website_id, pathname, new_session)),
    }
}

/// Whether the event's `(website_id, user_id)` pair has a website row.
pub open spec fn website_found(m: Model, e: EventRec) -> bool {
    find_website(m.websites, e.website_id, e.user_id) is Some
}

/// The whole effect of ingesting one event: bump the matching website
/// row, upsert the page row keyed by pathname, append one log entry.
/// An event with no matching website row changes nothing.
pub open spec fn step(m: Model, e: EventRec) -> Model {
    match find_website(m.websites, e.website_id, e.user_id) {
        None => m,
        Some(i) => {
            let w = bump_website(m.websites[i], e.is_new_session);
            Model {
                websites: m.websites.update(i, w),
                pages: upsert_pages(m.pages, w.website_id, e.pathname, e.is_new_session),
                ghosts: m.ghosts.push(ghost_of(w.owner_user_id, w.website_id, e)),
            }
        },
    }
}

/// The state after ingesting a sequence of events, in order.
pub open spec fn step_all(m: Model, es: Seq<EventRec>) -> Model
    decreases es.len(),
{
    if es.len() == 0 {
        m
    } else {
        step_all(step(m, es[0]), es.subrange(1, es.len() as int))
    }
}

/// Whether both counters touched by an event can still take its delta
/// without exceeding the machine word.
pub open spec fn counters_have_room(
    visitor_count: int,
    session_count: int,
    new_session: bool,
) -> bool {
    visitor_count < u64::MAX && (new_session ==> session_count < u64::MAX)
}

/// Whether ingesting the event stays within the counter word size: a
/// machine limit, not a rule of the model.
pub open spec fn step_fits(m: Model, e: EventRec) -> bool {
    match find_website(m.websites, e.website_id, e.user_id) {
        None => true,
        Some(i) => counters_have_room(
            m.websites[i].visitor_count,
            m.websites[i].session_count,
            e.is_new_session,
        ) && match find_page(m.pages, e.pathname) {
            Some(j) => counters_have_room(
                m.pages[j].visitor_count,
                m.pages[j].session_count,
                e.is_new_session,
            ),
            None => true,
        },
    }
}

/// No two website rows share an identity pair.
pub open spec fn websites_unique(ws: Seq<WebsiteRec>) -> bool {
    forall|i: int, j: int|
        #![trigger ws[i], ws[j]]
        0 <= i < j < ws.len() ==> !website_matches(ws[i], ws[j].website_id, ws[j].owner_user_id)
}

/// No two page rows share a pathname.
pub open spec fn pages_unique(ps: Seq<PageRec>) -> bool {
    forall|i: int, j: int|
        #![trigger ps[i], ps[j]]
        0 <= i < j < ps.len() ==> ps[i].pathname != ps[j].pathname
}

/// A failed website search means no row at or after `i` matches.
pub proof fn lemma_find_website_none(
    ws: Seq<WebsiteRec>,
    website_id: int,
    owner_user_id: int,
    i: int,
)
    requires
        0 <= i <= ws.len(),
        find_website_from(ws, website_id, owner_user_id, i) is None,
    ensures
        forall|k: int|
            i <= k < ws.len() ==> !website_matches(#[trigger] ws[k], website_id, owner_user_id),
    decreases ws.len() - i,
{
    if i < ws.len() {
        lemma_find_website_none(ws, website_id, owner_user_id, i + 1);
    }
}

/// A successful website search returns the first matching index.
pub proof fn lemma_find_website_some(
    ws: Seq<WebsiteRec>,
    website_id: int,
    owner_user_id: int,
    i: int,
    r: int,
)
    requires
        0 <= i <= ws.len(),
        find_website_from(ws, website_id, owner_user_id, i) == Some(r),
    ensures
        i <= r < ws.len(),
        website_matches(ws[r], website_id, owner_user_id),
        forall|k: int|
            i <= k < r ==> !website_matches(#[trigger] ws[k], website_id, owner_user_id),
    decreases ws.len() - i,
{
    if i < ws.len() && !website_matches(ws[i], website_id, owner_user_id) {
        lemma_find_website_some(ws, website_id, owner_user_id, i + 1, r);
    }
}

/// A failed page search means no row at or after `i` has the pathname.
pub proof fn lemma_find_page_none(ps: Seq<PageRec>, pathname: Seq<char>, i: int)
    requires
        0 <= i <= ps.len(),
        find_page_from(ps, pathname, i) is None,
    ensures
        forall|k: int| i <= k < ps.len() ==> (#[trigger] ps[k]).pathname != pathname,
    decreases ps.len() - i,
{
    if i < ps.len() {
        lemma_find_page_none(ps, pathname, i + 1);
    }
}

/// A successful page search returns the first index with the pathname.
pub proof fn lemma_find_page_some(ps: Seq<PageRec>, pathname: Seq<char>, i: int, r: int)
    requires
        0 <= i <= ps.len(),
        find_page_from(ps, pathname, i) == Some(r),
    ensures
        i <= r < ps.len(),
        ps[r].pathname == pathname,
        forall|k: int| i <= k < r ==> (#[trigger] ps[k]).pathname != pathname,
    decreases ps.len() - i,
{
    if i < ps.len() && ps[i].pathname != pathname {
        lemma_find_page_some(ps, pathname, i + 1, r);
    }
}

/// Website search depends only on the identity fields: two row
/// sequences with the same identities row by row search alike.
pub proof fn lemma_find_website_same_keys(
    ws1: Seq<WebsiteRec>,
    ws2: Seq<WebsiteRec>,
    website_id: int,
    owner_user_id: int,
    i: int,
)
    requires
        ws1.len() == ws2.len(),
        forall|k: int|
            0 <= k < ws1.len() ==> (#[trigger] ws2[k]).website_id == ws1[k].website_id
                && ws2[k].owner_user_id == ws1[k].owner_user_id,
        0 <= i <= ws1.len(),
    ensures
        find_website_from(ws1, website_id, owner_user_id, i) == find_website_from(
            ws2,
            website_id,
            owner_user_id,
            i,
        ),
    decreases ws1.len() - i,
{
    if i < ws1.len() {
        lemma_find_website_same_keys(ws1, ws2, website_id, owner_user_id, i + 1);
    }
}

} // verus!
