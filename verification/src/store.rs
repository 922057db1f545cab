//! The aggregate store: website rows and page rows with atomic
//! increment-or-insert operations.
//!
//! Each mutating operation is one read-modify-write on rows reached
//! through `&mut self`, so its effect is exactly one application of the
//! corresponding model function: callers that interleave operations see
//! every increment applied exactly once.

use vstd::prelude::*;
use crate::model::{
    StoreModel, WebsiteRec, PageRec, website_matches, find_website, find_website_from, find_page,
    find_page_from, bump_website, bump_page, fresh_page, counters_have_room, websites_unique,
    pages_unique, lemma_find_website_none, lemma_find_website_some,
    lemma_find_page_none, lemma_find_page_some,
};

verus! {

/// Running counters for one website. The identity pair
/// `(website_id, owner_user_id)` never changes once the row exists.
#[derive(Debug, Clone, Copy)]
pub struct WebsiteAggregate {
    pub website_id: i32,
    pub owner_user_id: i32,
    pub visitor_count: u64,
    pub session_count: u64,
}

impl View for WebsiteAggregate {
    type V = WebsiteRec;

    open spec fn view(&self) -> WebsiteRec {
        WebsiteRec {
            website_id: self.website_id as int,
            owner_user_id: self.owner_user_id as int,
            visitor_count: self.visitor_count as int,
            session_count: self.session_count as int,
        }
    }
}

/// Running counters for one page path, keyed by `pathname` alone.
/// `website_id` stays whatever website first produced the row.
#[derive(Debug)]
pub struct PageAggregate {
    pub website_id: i32,
    pub pathname: String,
    pub visitor_count: u64,
    pub session_count: u64,
}

impl View for PageAggregate {
    type V = PageRec;

    open spec fn view(&self) -> PageRec {
        PageRec {
            website_id: self.website_id as int,
            pathname: self.pathname@,
            visitor_count: self.visitor_count as int,
            session_count: self.session_count as int,
        }
    }
}

/// The failure an aggregate-store operation can report. A missing
/// website row is an expected, non-fatal outcome the coordinator checks.
#[derive(Debug, Clone, Copy, PartialEq, Eq, Structural)]
pub enum StoreError {
    NotFound,
}

/// Key-value-like storage for website and page rows.
pub struct AggregateStore {
    websites: Vec<WebsiteAggregate>,
    pages: Vec<PageAggregate>,
}

impl View for AggregateStore {
    type V = StoreModel;

    closed spec fn view(&self) -> StoreModel {
        StoreModel {
            websites: self.websites@.map_values(|w: WebsiteAggregate| w@),
            pages: self.pages@.map_values(|p: PageAggregate| p@),
        }
    }
}

impl AggregateStore {
    /// Both row sets are properly keyed: identities unique among
    /// websites, pathnames unique among pages.
    pub open spec fn wf(&self) -> bool {
        websites_unique(self@.websites) && pages_unique(self@.pages)
    }

    /// An empty store.
    pub fn new() -> (s: AggregateStore)
        ensures
            s.wf(),
            s@.websites.len() == 0,
            s@.pages.len() == 0,
    {
        AggregateStore { websites: Vec::new(), pages: Vec::new() }
    }

    /// Index of the website row with the given identity pair, matching
    /// the model's search exactly.
    fn find_website_index(&self, website_id: i32, owner_user_id: i32) -> (r: Option<usize>)
        ensures
            (match r {
                Some(i) => i < self.websites.len() && find_website(
                    self@.websites,
                    website_id as int,
                    owner_user_id as int,
                ) == Some(i as int),
                None => find_website(self@.websites, website_id as int, owner_user_id as int)
                    is None,
            }),
    {
        let n: usize = self.websites.len();
        let mut i: usize = 0;
        while i < n
            invariant
                i <= n,
                n == self.websites.len(),
                find_website(self@.websites, website_id as int, owner_user_id as int)
                    == find_website_from(
                    self@.websites,
                    website_id as int,
                    owner_user_id as int,
                    i as int,
                ),
            decreases n - i,
        {
            let w = self.websites[i];
            if w.website_id == website_id && w.owner_user_id == owner_user_id {
                proof {
                    assert(website_matches(
                        self@.websites[i as int],
                        website_id as int,
                        owner_user_id as int,
                    ));
                }
                return Some(i);
            }
            proof {
                assert(!website_matches(
                    self@.websites[i as int],
                    website_id as int,
                    owner_user_id as int,
                ));
            }
            i = i + 1;
        }
        None
    }

    /// Index of the page row with the given pathname, matching the
    /// model's search exactly.
    fn find_page_index(&self, pathname: &String) -> (r: Option<usize>)
        ensures
            (match r {
                Some(j) => j < self.pages.len() && find_page(self@.pages, pathname@) == Some(
                    j as int,
                ),
                None => find_page(self@.pages, pathname@) is None,
            }),
    {
        let n: usize = self.pages.len();
        let mut j: usize = 0;
        while j < n
            invariant
                j <= n,
                n == self.pages.len(),
                find_page(self@.pages, pathname@) == find_page_from(
                    self@.pages,
                    pathname@,
                    j as int,
                ),
            decreases n - j,
        {
            if self.pages[j].pathname == *pathname {
                proof {
                    assert(self@.pages[j as int].pathname == pathname@);
                }
                return Some(j);
            }
            proof {
                assert(self@.pages[j as int].pathname != pathname@);
            }
            j = j + 1;
        }
        None
    }

    /// Add a website row if its identity pair is still free; report
    /// whether it was added. Row creation belongs to provisioning, not
    /// to ingestion: the coordinator never calls this.
    pub fn put_website(&mut self, website: WebsiteAggregate) -> (added: bool)
        requires
            old(self).wf(),
        ensures
            final(self).wf(),
            final(self)@.pages == old(self)@.pages,
            (match find_website(
                old(self)@.websites,
                website.website_id as int,
                website.owner_user_id as int,
            ) {
                Some(_) => !added && final(self)@.websites == old(self)@.websites,
                None => added && final(self)@.websites == old(self)@.websites.push(website@),
            }),
    {
        match self.find_website_index(website.website_id, website.owner_user_id) {
            Some(_) => false,
            None => {
                proof {
                    lemma_find_website_none(
                        self@.websites,
                        website.website_id as int,
                        website.owner_user_id as int,
                        0,
                    );
                }
                let ghost before = self@.websites;
                self.websites.push(website);
                proof {
                    assert(self@.websites =~= before.push(website@));
                    assert forall|a: int, b: int|
                        0 <= a < b < self@.websites.len() implies !website_matches(
                        #[trigger] self@.websites[a],
                        (#[trigger] self@.websites[b]).website_id,
                        self@.websites[b].owner_user_id,
                    ) by {
                        if b < before.len() {
                            assert(!website_matches(
                                before[a],
                                before[b].website_id,
                                before[b].owner_user_id,
                            ));
                        } else {
                            assert(!website_matches(
                                before[a],
                                website@.website_id,
                                website@.owner_user_id,
                            ));
                        }
                    }
                }
                true
            },
        }
    }

    /// Look a website row up by its identity pair.
    pub fn get_website(&self, website_id: i32, owner_user_id: i32) -> (r: Option<WebsiteAggregate>)
        ensures
            (match find_website(self@.websites, website_id as int, owner_user_id as int) {
                Some(i) => r matches Some(w) && w@ == self@.websites[i],
                None => r is None,
            }),
    {
        match self.find_website_index(website_id, owner_user_id) {
            Some(i) => Some(self.websites[i]),
            None => None,
        }
    }

    /// Look a page row up by its pathname.
    pub fn get_page(&self, pathname: &String) -> (r: Option<PageAggregate>)
        ensures
            (match find_page(self@.pages, pathname@) {
                Some(j) => r matches Some(p) && p@ == self@.pages[j],
                None => r is None,
            }),
    {
        match self.find_page_index(pathname) {
            Some(j) => {
                let p = &self.pages[j];
                Some(
                    PageAggregate {
                        website_id: p.website_id,
                        pathname: p.pathname.clone(),
                        visitor_count: p.visitor_count,
                        session_count: p.session_count,
                    },
                )
            },
            None => None,
        }
    }

    /// Atomically add one visitor and `session_delta(new_session)`
    /// sessions to the row matching both `website_id` and
    /// `owner_user_id`, returning the post-update row; report `NotFound`
    /// without any change when no row matches. No row is ever created
    /// here.
    pub fn increment_website(
        &mut self,
        website_id: i32,
        owner_user_id: i32,
        new_session: bool,
    ) -> (r: Result<WebsiteAggregate, StoreError>)
        requires
            old(self).wf(),
            (match find_website(old(self)@.websites, website_id as int, owner_user_id as int) {
                Some(i) => counters_have_room(
                    old(self)@.websites[i].visitor_count,
                    old(self)@.websites[i].session_count,
                    new_session,
                ),
                None => true,
            }),
        ensures
            final(self).wf(),
            final(self)@.pages == old(self)@.pages,
            (match find_website(old(self)@.websites, website_id as int, owner_user_id as int) {
                Some(i) => r matches Ok(w) && w@ == bump_website(
                    old(self)@.websites[i],
                    new_session,
                ) && final(self)@.websites == old(self)@.websites.update(i, w@),
                None => r == Err::<WebsiteAggregate, StoreError>(StoreError::NotFound)
                    && final(self)@.websites == old(self)@.websites,
            }),
    {
        let ghost before = self@.websites;
        match self.find_website_index(website_id, owner_user_id) {
            None => Err(StoreError::NotFound),
            Some(i) => {
                proof {
                    lemma_find_website_some(before, website_id as int, owner_user_id as int, 0, i as int);
                }
                let row = self.websites[i];
                let updated = WebsiteAggregate {
                    website_id: row.website_id,
                    owner_user_id: row.owner_user_id,
                    visitor_count: row.visitor_count + 1,
                    session_count: if new_session {
                        row.session_count + 1
                    } else {
                        row.session_count
                    },
                };
                self.websites.set(i, updated);
                proof {
                    assert(self@.websites =~= before.update(i as int, updated@));
                    assert(updated@ == bump_website(before[i as int], new_session));
                    assert forall|a: int, b: int|
                        0 <= a < b < self@.websites.len() implies !website_matches(
                        #[trigger] self@.websites[a],
                        (#[trigger] self@.websites[b]).website_id,
                        self@.websites[b].owner_user_id,
                    ) by {
                        assert(self@.websites[a].website_id == before[a].website_id);
                        assert(self@.websites[a].owner_user_id == before[a].owner_user_id);
                        assert(self@.websites[b].website_id == before[b].website_id);
                        assert(self@.websites[b].owner_user_id == before[b].owner_user_id);
                        assert(!website_matches(
                            before[a],
                            before[b].website_id,
                            before[b].owner_user_id,
                        ));
                    }
                }
                Ok(updated)
            },
        }
    }

    /// Atomically upsert the page row keyed by `pathname` alone: create
    /// it with one visitor (and one session if `new_session`) when the
    /// pathname is unseen, otherwise add the same deltas in place.
    /// Returns the post-update row.
    pub fn upsert_page(&mut self, website_id: i32, pathname: &String, new_session: bool) -> (r:
        PageAggregate)
        requires
            old(self).wf(),
            (match find_page(old(self)@.pages, pathname@) {
                Some(j) => counters_have_room(
                    old(self)@.pages[j].visitor_count,
                    old(self)@.pages[j].session_count,
                    new_session,
                ),
                None => true,
            }),
        ensures
            final(self).wf(),
            final(self)@.websites == old(self)@.websites,
            (match find_page(old(self)@.pages, pathname@) {
                Some(j) => r@ == bump_page(old(self)@.pages[j], new_session) && final(self)@.pages
                    == old(self)@.pages.update(j, r@),
                None => r@ == fresh_page(website_id as int, pathname@, new_session)
                    && final(self)@.pages == old(self)@.pages.push(r@),
            }),
    {
        let ghost before = self@.pages;
        let delta: u64 = if new_session {
            1
        } else {
            0
        };
        match self.find_page_index(pathname) {
            Some(j) => {
                proof {
                    lemma_find_page_some(before, pathname@, 0, j as int);
                }
                let row = &self.pages[j];
                let row_website_id = row.website_id;
                let new_visitors = row.visitor_count + 1;
                let new_sessions = row.session_count + delta;
                let stored = PageAggregate {
                    website_id: row_website_id,
                    pathname: row.pathname.clone(),
                    visitor_count: new_visitors,
                    session_count: new_sessions,
                };
                self.pages.set(j, stored);
                proof {
                    assert(before[j as int].pathname == pathname@);
                    assert(self@.pages[j as int] == bump_page(before[j as int], new_session));
                    assert(self@.pages =~= before.update(
                        j as int,
                        bump_page(before[j as int], new_session),
                    ));
                    assert forall|a: int, b: int|
                        0 <= a < b < self@.pages.len() implies (#[trigger] self@.pages[a]).pathname
                        != (#[trigger] self@.pages[b]).pathname by {
                        assert(self@.pages[a].pathname == before[a].pathname);
                        assert(self@.pages[b].pathname == before[b].pathname);
                        assert(before[a].pathname != before[b].pathname);
                    }
                }
                PageAggregate {
                    website_id: row_website_id,
                    pathname: pathname.clone(),
                    visitor_count: new_visitors,
                    session_count: new_sessions,
                }
            },
            None => {
                proof {
                    lemma_find_page_none(before, pathname@, 0);
                }
                let created = PageAggregate {
                    website_id,
                    pathname: pathname.clone(),
                    visitor_count: 1,
                    session_count: delta,
                };
                self.pages.push(created);
                proof {
                    assert(self@.pages =~= before.push(
                        fresh_page(website_id as int, pathname@, new_session),
                    ));
                    assert forall|a: int, b: int|
                        0 <= a < b < self@.pages.len() implies (#[trigger] self@.pages[a]).pathname
                        != (#[trigger] self@.pages[b]).pathname by {
                        if b < before.len() {
                            assert(before[a].pathname != before[b].pathname);
                        } else {
                            assert(before[a].pathname != pathname@);
                        }
                    }
                }
                PageAggregate {
                    website_id,
                    pathname: pathname.clone(),
                    visitor_count: 1,
                    session_count: delta,
                }
            },
        }
    }
}

} // verus!
