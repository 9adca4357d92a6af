//! The history store: an append-only transcript of delivered lines per
//! identity.
//!
//! The store is viewed as a map from identity to the ordered sequence of its
//! transcript lines. Lines are appended in arrival order at the router and
//! are never reordered or deleted.

use vstd::prelude::*;

use crate::assoc::distinct_keys;
use crate::assoc::lemma_distinct_remove;
use crate::assoc::lemma_map_of_absent;
use crate::assoc::lemma_map_of_at;
use crate::assoc::lemma_map_of_contains;
use crate::assoc::lemma_map_of_push;
use crate::assoc::lemma_map_of_remove;
use crate::assoc::map_of;
use crate::registry::str_eq;

verus! {

/// The transcript of `identity` in the history map `m`: empty when the
/// identity has never received a line.
pub open spec fn transcript_of(m: Map<Seq<char>, Seq<Seq<char>>>, identity: Seq<char>) -> Seq<
    Seq<char>,
> {
    if m.contains_key(identity) {
        m[identity]
    } else {
        Seq::empty()
    }
}

/// One identity's transcript.
struct HistEntry {
    identity: String,
    lines: Vec<String>,
}

/// Thread-safety note: as with the registry, callers hold the store behind
/// one mutual-exclusion boundary per logical operation.
pub struct HistoryStore {
    entries: Vec<HistEntry>,
}

impl HistEntry {
    spec fn kv(self) -> (Seq<char>, Seq<Seq<char>>) {
        (self.identity@, self.lines.deep_view())
    }
}

impl View for HistoryStore {
    type V = Map<Seq<char>, Seq<Seq<char>>>;

    /// The store denotes the map from identity to its transcript.
    closed spec fn view(&self) -> Map<Seq<char>, Seq<Seq<char>>> {
        map_of(self.entries@.map_values(|e: HistEntry| e.kv()))
    }
}

impl HistoryStore {
    pub closed spec fn entries_seq(&self) -> Seq<(Seq<char>, Seq<Seq<char>>)> {
        self.entries@.map_values(|e: HistEntry| e.kv())
    }

    /// Well-formed: no identity has two transcripts.
    pub open spec fn wf(&self) -> bool {
        distinct_keys(self.entries_seq())
    }

    /// The transcript of `identity`: empty when it has never received a line.
    pub open spec fn transcript(&self, identity: Seq<char>) -> Seq<Seq<char>> {
        transcript_of(self@, identity)
    }

    /// An empty store: nobody has a transcript yet.
    pub fn new() -> (r: Self)
        ensures
            r.wf(),
            r@ == Map::<Seq<char>, Seq<Seq<char>>>::empty(),
    {
        let r = HistoryStore { entries: Vec::new() };
        proof {
            assert(r.entries_seq() =~= Seq::<(Seq<char>, Seq<Seq<char>>)>::empty());
        }
        r
    }

    /// Scan for the transcript of `identity`.
    fn find(&self, identity: &str) -> (r: Option<usize>)
        requires
            self.wf(),
        ensures
            match r {
                Some(i) => i < self.entries_seq().len() && self.entries_seq()[i as int].0
                    == identity@,
                None => !self@.contains_key(identity@),
            },
    {
        let ghost s = self.entries_seq();
        let n = self.entries.len();
        let mut i: usize = 0;
        while i < n
            invariant
                n == s.len(),
                i <= n,
                s == self.entries_seq(),
                forall|j: int| 0 <= j < i ==> s[j].0 != identity@,
            decreases n - i,
        {
            if str_eq(self.entries[i].identity.as_str(), identity) {
                return Some(i);
            }
            i += 1;
        }
        proof {
            lemma_map_of_absent(s, identity@);
        }
        None
    }

    /// Appends `line` at the end of `identity`'s transcript, creating the
    /// transcript if absent. Appends to one identity never touch another's
    /// transcript.
    pub fn append(&mut self, identity: &str, line: String)
        requires
            old(self).wf(),
        ensures
            final(self).wf(),
            final(self)@ == old(self)@.insert(
                identity@,
                old(self).transcript(identity@).push(line@),
            ),
            transcript_of(final(self)@, identity@) == transcript_of(old(self)@, identity@).push(
                line@,
            ),
            forall|other: Seq<char>| other != identity@ ==> #[trigger] transcript_of(
                final(self)@,
                other,
            ) == transcript_of(old(self)@, other),
    {
        let ghost s = self.entries_seq();
        match self.find(identity) {
            Some(i) => {
                proof {
                    lemma_map_of_at(s, i as int);
                }
                let mut entry = self.entries.remove(i);
                proof {
                    lemma_map_of_remove(s, i as int);
                    lemma_distinct_remove(s, i as int);
                }
                entry.lines.push(line);
                let ghost s1 = self.entries_seq();
                let ghost lines1 = entry.lines.deep_view();
                proof {
                    assert(lines1 =~= old(self).transcript(identity@).push(line@));
                }
                self.entries.push(entry);
                proof {
                    assert(s1 =~= s.remove(i as int));
                    assert(self.entries_seq() =~= s1.push((identity@, lines1)));
                    lemma_map_of_push(s1, identity@, lines1);
                    lemma_map_of_contains(s1, identity@);
                    assert(forall|j: int| 0 <= j < s1.len() ==> s1[j].0 != identity@);
                    assert(distinct_keys(self.entries_seq()));
                    assert(self@ =~= old(self)@.insert(
                        identity@,
                        old(self).transcript(identity@).push(line@),
                    ));
                }
            },
            None => {
                let mut lines: Vec<String> = Vec::new();
                lines.push(line);
                let ghost lines1 = lines.deep_view();
                proof {
                    assert(lines1 =~= old(self).transcript(identity@).push(line@));
                }
                self.entries.push(HistEntry { identity: identity.to_owned(), lines });
                proof {
                    assert(self.entries_seq() =~= s.push((identity@, lines1)));
                    lemma_map_of_push(s, identity@, lines1);
                    lemma_map_of_contains(s, identity@);
                    assert(forall|j: int| 0 <= j < s.len() ==> s[j].0 != identity@);
                    assert(distinct_keys(self.entries_seq()));
                }
            },
        }
    }

    /// The full transcript of `identity` in append order, empty when it has
    /// never received anything.
    pub fn get(&self, identity: &str) -> (r: Vec<String>)
        requires
            self.wf(),
        ensures
            r.deep_view() == self.transcript(identity@),
    {
        let mut r: Vec<String> = Vec::new();
        match self.find(identity) {
            Some(i) => {
                proof {
                    lemma_map_of_at(self.entries_seq(), i as int);
                }
                let lines = &self.entries[i].lines;
                let n = lines.len();
                let mut j: usize = 0;
                while j < n
                    invariant
                        n == lines@.len(),
                        j <= n,
                        r@.len() == j,
                        forall|k: int| 0 <= k < j ==> #[trigger] r@[k]@ == lines@[k]@,
                    decreases n - j,
                {
                    r.push(lines[j].clone());
                    j += 1;
                }
                proof {
                    assert(r.deep_view() =~= self.transcript(identity@));
                }
            },
            None => {
                proof {
                    assert(r.deep_view() =~= self.transcript(identity@));
                }
            },
        }
        r
    }
}

} // verus!
