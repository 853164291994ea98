//! The metadata-search session state: a registry of in-flight queries, each
//! with a bounded buffer of discovered items, and the identifier and
//! completion-payload handling around it.
//!
//! The native search runs on a background thread and appends what it finds
//! into the buffer registered for its query; a completion event carrying the
//! query identifier tells the blocked caller to collect the buffer and drop
//! the registry entry.  The registry never holds two entries for one
//! identifier, and no buffer ever grows past `MAX_SPOTLIGHT_RESULTS`.

use vstd::prelude::*;
use crate::text::{dec_digits_of, spec_trim_char, str_eq, str_trim_char, u64_to_decimal};

verus! {

/// The most items one search may collect.
pub const MAX_SPOTLIGHT_RESULTS: usize = 100;

/// One discovered item: the indexed path, display name and content type.
#[derive(Debug, Clone)]
pub struct SpotlightAppInfo {
    pub path: String,
    pub display_name: String,
    pub content_type: String,
}

struct QueryEntry {
    id: u64,
    results: Vec<SpotlightAppInfo>,
}

/// The registry of in-flight queries.
pub struct SpotlightState {
    queries: Vec<QueryEntry>,
}

spec fn seq_has(s: Seq<QueryEntry>, id: u64) -> bool {
    exists|i: int| 0 <= i < s.len() && s[i].id == id
}

spec fn seq_lookup(s: Seq<QueryEntry>, id: u64) -> Option<Seq<SpotlightAppInfo>> {
    if seq_has(s, id) {
        let i = choose|i: int| 0 <= i < s.len() && s[i].id == id;
        Some(s[i].results@)
    } else {
        None
    }
}

spec fn unique_ids(s: Seq<QueryEntry>) -> bool {
    forall|i: int, j: int| 0 <= i < j < s.len() ==> s[i].id != s[j].id
}

spec fn bounded_buffers(s: Seq<QueryEntry>) -> bool {
    forall|i: int| 0 <= i < s.len() ==> s[i].results@.len() <= MAX_SPOTLIGHT_RESULTS
}

proof fn lemma_lookup_at(s: Seq<QueryEntry>, idx: int)
    requires
        unique_ids(s),
        0 <= idx < s.len(),
    ensures
        seq_lookup(s, s[idx].id) == Some(s[idx].results@),
{
    assert(seq_has(s, s[idx].id));
    let i = choose|i: int| 0 <= i < s.len() && s[i].id == s[idx].id;
    if i != idx {
        if i < idx {
            assert(s[i].id != s[idx].id);
        } else {
            assert(s[idx].id != s[i].id);
        }
    }
}

proof fn lemma_lookup_absent(s: Seq<QueryEntry>, id: u64)
    requires
        forall|i: int| 0 <= i < s.len() ==> s[i].id != id,
    ensures
        seq_lookup(s, id) is None,
{
}

proof fn lemma_lookup_update_other(s: Seq<QueryEntry>, idx: int, e: QueryEntry, id2: u64)
    requires
        unique_ids(s),
        0 <= idx < s.len(),
        e.id == s[idx].id,
        id2 != e.id,
    ensures
        seq_lookup(s.update(idx, e), id2) == seq_lookup(s, id2),
{
    let t = s.update(idx, e);
    if seq_has(t, id2) {
        let i = choose|i: int| 0 <= i < t.len() && t[i].id == id2;
        assert(i != idx);
        assert(s[i].id == id2);
        assert(seq_has(s, id2));
        let j = choose|j: int| 0 <= j < s.len() && s[j].id == id2;
        if i != j {
            if i < j {
                assert(s[i].id != s[j].id);
            } else {
                assert(s[j].id != s[i].id);
            }
        }
        assert(seq_lookup(t, id2) == Some(t[i].results@));
        assert(t[i].results@ == s[j].results@);
    } else {
        if seq_has(s, id2) {
            let j = choose|j: int| 0 <= j < s.len() && s[j].id == id2;
            assert(j != idx);
            assert(t[j].id == id2);
        }
    }
}

proof fn lemma_lookup_push_other(s: Seq<QueryEntry>, e: QueryEntry, id2: u64)
    requires
        unique_ids(s),
        id2 != e.id,
    ensures
        seq_lookup(s.push(e), id2) == seq_lookup(s, id2),
{
    let t = s.push(e);
    if seq_has(t, id2) {
        let i = choose|i: int| 0 <= i < t.len() && t[i].id == id2;
        assert(i != s.len());
        assert(s[i].id == id2);
        assert(seq_has(s, id2));
        let j = choose|j: int| 0 <= j < s.len() && s[j].id == id2;
        if i != j {
            if i < j {
                assert(s[i].id != s[j].id);
            } else {
                assert(s[j].id != s[i].id);
            }
        }
        assert(seq_lookup(t, id2) == Some(t[i].results@));
        assert(t[i].results@ == s[j].results@);
    } else {
        if seq_has(s, id2) {
            let j = choose|j: int| 0 <= j < s.len() && s[j].id == id2;
            assert(t[j].id == id2);
        }
    }
}

proof fn lemma_lookup_remove_other(s: Seq<QueryEntry>, idx: int, id2: u64)
    requires
        unique_ids(s),
        0 <= idx < s.len(),
        id2 != s[idx].id,
    ensures
        seq_lookup(s.remove(idx), id2) == seq_lookup(s, id2),
{
    let t = s.remove(idx);
    if seq_has(t, id2) {
        let i = choose|i: int| 0 <= i < t.len() && t[i].id == id2;
        let oi = if i < idx {
            i
        } else {
            i + 1
        };
        assert(s[oi].id == id2);
        assert(seq_has(s, id2));
        let j = choose|j: int| 0 <= j < s.len() && s[j].id == id2;
        if oi != j {
            if oi < j {
                assert(s[oi].id != s[j].id);
            } else {
                assert(s[j].id != s[oi].id);
            }
        }
        assert(seq_lookup(t, id2) == Some(t[i].results@));
        assert(t[i].results@ == s[oi].results@);
    } else {
        if seq_has(s, id2) {
            let j = choose|j: int| 0 <= j < s.len() && s[j].id == id2;
            assert(j != idx);
            let ni = if j < idx {
                j
            } else {
                j - 1
            };
            assert(t[ni].id == id2);
        }
    }
}

impl SpotlightState {
    /// No two registry entries share an identifier, and every buffer
    /// respects the result cap.
    pub closed spec fn wf(self) -> bool {
        unique_ids(self.queries@) && bounded_buffers(self.queries@)
    }

    /// The buffer registered for `id`, if any.
    pub closed spec fn buffer_of(self, id: u64) -> Option<Seq<SpotlightAppInfo>> {
        seq_lookup(self.queries@, id)
    }

    /// An empty registry.
    pub fn new() -> (r: Self)
        ensures
            r.wf(),
            forall|id: u64| r.buffer_of(id) is None,
    {
        let r = SpotlightState { queries: Vec::new() };
        proof {
            assert forall|id: u64| r.buffer_of(id) is None by {
                lemma_lookup_absent(r.queries@, id);
            }
        }
        r
    }

    fn find_index(&self, id: u64) -> (r: Option<usize>)
        ensures
            r matches Some(i) ==> i < self.queries@.len() && self.queries@[i as int].id == id,
            r is None ==> forall|i: int| 0 <= i < self.queries@.len() ==> self.queries@[i].id != id,
    {
        let mut i: usize = 0;
        while i < self.queries.len()
            invariant
                i <= self.queries@.len(),
                forall|j: int| 0 <= j < i ==> self.queries@[j].id != id,
            decreases self.queries@.len() - i,
        {
            if self.queries[i].id == id {
                return Some(i);
            }
            i += 1;
        }
        None
    }

    /// Registers a fresh, empty buffer for `id`, replacing any buffer a
    /// stale entry under the same identifier may still hold.
    pub fn register(&mut self, id: u64)
        requires
            old(self).wf(),
        ensures
            final(self).wf(),
            final(self).buffer_of(id) == Some(Seq::<SpotlightAppInfo>::empty()),
            forall|id2: u64| id2 != id ==> final(self).buffer_of(id2) == old(self).buffer_of(id2),
    {
        let entry = QueryEntry { id, results: Vec::new() };
        match self.find_index(id) {
            Some(idx) => {
                let ghost s0 = self.queries@;
                self.queries.remove(idx);
                self.queries.insert(idx, entry);
                proof {
                    assert(self.queries@ =~= s0.update(idx as int, QueryEntry { id, results: self.queries@[idx as int].results }));
                    let e = self.queries@[idx as int];
                    assert(e.results@ =~= Seq::<SpotlightAppInfo>::empty());
                    lemma_lookup_at(self.queries@, idx as int);
                    assert forall|id2: u64| id2 != id implies self.buffer_of(id2) == old(
                        self,
                    ).buffer_of(id2) by {
                        lemma_lookup_update_other(s0, idx as int, e, id2);
                    }
                }
            },
            None => {
                let ghost s0 = self.queries@;
                self.queries.push(entry);
                proof {
                    let t = self.queries@;
                    assert(t[s0.len() as int].id == id);
                    lemma_lookup_at(t, s0.len() as int);
                    assert(t[s0.len() as int].results@ =~= Seq::<SpotlightAppInfo>::empty());
                    assert forall|id2: u64| id2 != id implies self.buffer_of(id2) == old(
                        self,
                    ).buffer_of(id2) by {
                        lemma_lookup_push_other(s0, t[s0.len() as int], id2);
                    }
                }
            },
        }
    }

    /// Appends one discovered item to the buffer for `id`.  The append is
    /// refused — and the registry left as it stands — where no buffer is
    /// registered or the buffer has reached the cap.
    pub fn add_result(&mut self, id: u64, item: SpotlightAppInfo) -> (added: bool)
        requires
            old(self).wf(),
        ensures
            final(self).wf(),
            added <==> (old(self).buffer_of(id) matches Some(b) && b.len()
                < MAX_SPOTLIGHT_RESULTS),
            added ==> final(self).buffer_of(id) == Some(
                old(self).buffer_of(id).unwrap().push(item),
            ),
            !added ==> final(self).buffer_of(id) == old(self).buffer_of(id),
            forall|id2: u64| id2 != id ==> final(self).buffer_of(id2) == old(self).buffer_of(id2),
    {
        match self.find_index(id) {
            Some(idx) => {
                proof {
                    lemma_lookup_at(self.queries@, idx as int);
                }
                let ghost s0 = self.queries@;
                let mut entry = self.queries.remove(idx);
                let added = if entry.results.len() < MAX_SPOTLIGHT_RESULTS {
                    entry.results.push(item);
                    true
                } else {
                    false
                };
                self.queries.insert(idx, entry);
                proof {
                    let e = self.queries@[idx as int];
                    assert(self.queries@ =~= s0.update(idx as int, e));
                    lemma_lookup_at(self.queries@, idx as int);
                    assert forall|id2: u64| id2 != id implies self.buffer_of(id2) == old(
                        self,
                    ).buffer_of(id2) by {
                        lemma_lookup_update_other(s0, idx as int, e, id2);
                    }
                    if added {
                        assert(e.results@ =~= s0[idx as int].results@.push(item));
                    }
                }
                added
            },
            None => {
                proof {
                    lemma_lookup_absent(self.queries@, id);
                }
                false
            },
        }
    }

    /// Hands the collected buffer for `id` to the caller — or an empty
    /// collection where none is registered — and drops the entry either way.
    pub fn take_results(&mut self, id: u64) -> (r: Vec<SpotlightAppInfo>)
        requires
            old(self).wf(),
        ensures
            final(self).wf(),
            r@.len() <= MAX_SPOTLIGHT_RESULTS,
            old(self).buffer_of(id) matches Some(b) ==> r@ == b,
            old(self).buffer_of(id) is None ==> r@ == Seq::<SpotlightAppInfo>::empty(),
            final(self).buffer_of(id) is None,
            forall|id2: u64| id2 != id ==> final(self).buffer_of(id2) == old(self).buffer_of(id2),
    {
        match self.find_index(id) {
            Some(idx) => {
                proof {
                    lemma_lookup_at(self.queries@, idx as int);
                }
                let ghost s0 = self.queries@;
                let entry = self.queries.remove(idx);
                proof {
                    assert forall|id2: u64| id2 != id implies self.buffer_of(id2) == old(
                        self,
                    ).buffer_of(id2) by {
                        lemma_lookup_remove_other(s0, idx as int, id2);
                    }
                    assert forall|i: int|
                        0 <= i < self.queries@.len() implies self.queries@[i].id != id by {
                        if i < idx {
                            assert(s0[i].id != s0[idx as int].id);
                        } else {
                            assert(s0[idx as int].id != s0[i + 1].id);
                        }
                    }
                    lemma_lookup_absent(self.queries@, id);
                }
                entry.results
            },
            None => {
                proof {
                    lemma_lookup_absent(self.queries@, id);
                }
                Vec::new()
            },
        }
    }
}

/// The textual identifier attached to one search invocation, derived from a
/// millisecond timestamp.
pub open spec fn query_id_text(millis: int) -> Seq<char> {
    "query_"@ + dec_digits_of(millis)
}

/// Builds the `query_` identifier for a search started at `millis`.
pub fn query_id_string(millis: u64) -> (r: String)
    ensures
        r@ == query_id_text(millis as int),
{
    String::from_str("query_").concat(u64_to_decimal(millis).as_str())
}

/// Whether a completion-event payload names this query: the payload arrives
/// as a JSON-encoded string, so surrounding quotes are stripped before the
/// comparison.
pub fn payload_matches(payload: &str, query_id: &str) -> (r: bool)
    ensures
        r <==> spec_trim_char(payload@, '"') == query_id@,
{
    str_eq(str_trim_char(payload, '"'), query_id)
}

/// The event name by which the background search signals completion.
pub fn completion_event_name() -> (r: &'static str)
    ensures
        r@ == "spotlight-search-complete"@,
{
    "spotlight-search-complete"
}

} // verus!
