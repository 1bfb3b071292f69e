//! The content table and the request router.
//!
//! The table maps route paths to content payloads; it is built once at
//! startup and read-only afterwards. The router answers every request
//! with the fixed main page; when the request path matches a table
//! entry, it additionally writes the matched content into the shared
//! state store before answering. An unmatched path is not an error: it
//! simply triggers no write.

use vstd::prelude::*;
use crate::store::{write_one, StoreState};

verus! {

/// The content mapped to `path`, or `None` when no entry matches.
pub open spec fn lookup(entries: Seq<(String, String)>, path: Seq<char>) -> Option<Seq<char>>
    decreases entries.len(),
{
    if entries.len() == 0 {
        None
    } else if entries[0].0@ == path {
        Some(entries[0].1@)
    } else {
        lookup(entries.drop_first(), path)
    }
}

/// Immutable mapping from route path to content payload.
pub struct ContentTable {
    pub entries: Vec<(String, String)>,
}

impl ContentTable {
    /// A mapping has each route at most once.
    pub open spec fn wf(&self) -> bool {
        forall|i: int, j: int|
            0 <= i < j < self.entries@.len() ==> (#[trigger] self.entries@[i].0@) != (
            #[trigger] self.entries@[j].0@)
    }

    /// An empty table.
    pub fn new() -> (t: ContentTable)
        ensures
            t.wf(),
            t.entries@.len() == 0,
    {
        ContentTable { entries: Vec::new() }
    }

    /// Add one route. The table is a mapping, so the route must be new.
    pub fn insert(&mut self, path: String, content: String)
        requires
            old(self).wf(),
            lookup(old(self).entries@, path@) is None,
        ensures
            final(self).wf(),
            final(self).entries@ == old(self).entries@.push((path, content)),
    {
        proof {
            lemma_lookup_none_means_absent(self.entries@, path@);
        }
        self.entries.push((path, content));
    }

    /// Exact-match lookup of a request path.
    pub fn route(&self, path: &str) -> (r: Option<&String>)
        ensures
            match r {
                Some(c) => lookup(self.entries@, path@) == Some(c@),
                None => lookup(self.entries@, path@) is None,
            },
    {
        let key: String = path.to_owned();
        let n: usize = self.entries.len();
        let mut i: usize = 0;
        proof {
            assert(self.entries@.skip(0) =~= self.entries@);
        }
        while i < n
            invariant
                0 <= i <= n,
                n == self.entries@.len(),
                key@ == path@,
                lookup(self.entries@, path@) == lookup(self.entries@.skip(i as int), path@),
            decreases n - i,
        {
            let e = &self.entries[i];
            proof {
                assert(self.entries@.skip(i as int)[0] == self.entries@[i as int]);
            }
            if e.0 == key {
                return Some(&e.1);
            }
            proof {
                assert(self.entries@.skip(i as int).drop_first() =~= self.entries@.skip(
                    i as int + 1,
                ));
            }
            i = i + 1;
        }
        proof {
            assert(self.entries@.skip(n as int) =~= Seq::<(String, String)>::empty());
        }
        None
    }
}

/// A route that `lookup` misses occurs at no index at all.
proof fn lemma_lookup_none_means_absent(entries: Seq<(String, String)>, path: Seq<char>)
    requires
        lookup(entries, path) is None,
    ensures
        forall|i: int| 0 <= i < entries.len() ==> (#[trigger] entries[i].0@) != path,
    decreases entries.len(),
{
    if entries.len() > 0 {
        lemma_lookup_none_means_absent(entries.drop_first(), path);
        assert forall|i: int| 0 <= i < entries.len() implies (#[trigger] entries[i].0@)
            != path by {
            if i > 0 {
                assert(entries.drop_first()[i - 1] == entries[i]);
            }
        }
    }
}

/// The request router: the fixed main page and the content table.
pub struct Router {
    pub table: ContentTable,
    pub main_page: String,
}

impl Router {
    pub fn new(table: ContentTable, main_page: String) -> (r: Router)
        ensures
            r.table == table,
            r.main_page == main_page,
    {
        Router { table, main_page }
    }

    /// Serve one request: always answer with the fixed main page; when
    /// the path matches a table entry, first write the matched content
    /// into the store. An unmatched path leaves the store untouched.
    pub fn handle_request(&self, store: &mut StoreState, path: &str) -> (body: String)
        ensures
            body@ == self.main_page@,
            match lookup(self.table.entries@, path@) {
                Some(c) => final(store)@ == write_one(old(store)@, c),
                None => final(store)@ == old(store)@,
            },
    {
        match self.table.route(path) {
            Some(content) => {
                let msg = content.clone();
                store.write(msg);
            },
            None => {},
        }
        self.main_page.clone()
    }
}

} // verus!
