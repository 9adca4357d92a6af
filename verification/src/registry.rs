//! The connection registry: the set of identities with a live connection,
//! each bound to the handle of its outbound channel.
//!
//! The registry is viewed as a map from identity to handle. Its key
//! invariant: at any instant the key set equals exactly the set of identities
//! that have completed `join` and not yet completed `leave`; a second `join`
//! for the same identity silently supersedes the first handle.

use vstd::prelude::*;

use crate::assoc::distinct_keys;
use crate::assoc::lemma_distinct_remove;
use crate::assoc::lemma_map_of_absent;
use crate::assoc::lemma_map_of_at;
use crate::assoc::lemma_map_of_contains;
use crate::assoc::lemma_map_of_push;
use crate::assoc::lemma_map_of_remove;
use crate::assoc::map_of;

verus! {

/// An opaque reference to a connection's outbound channel. The engine never
/// looks inside it; the transport layer maps it back to a live socket.
#[derive(Clone, Copy, PartialEq, Eq, Structural, Debug)]
pub struct ConnectionHandle {
    pub id: u64,
}

/// One registry entry: a connected identity and its handle.
pub struct RegEntry {
    pub identity: String,
    pub handle: ConnectionHandle,
}

/// Thread-safety note: callers hold the registry behind one mutual-exclusion
/// boundary per logical operation; every method here is a single such
/// operation on the owned value.
pub struct ConnectionRegistry {
    entries: Vec<RegEntry>,
}

impl View for ConnectionRegistry {
    type V = Map<Seq<char>, u64>;

    /// The registry denotes the map from connected identity to handle.
    closed spec fn view(&self) -> Map<Seq<char>, u64> {
        map_of(self.entries_seq())
    }
}

impl ConnectionRegistry {
    /// The entries in registration order, as plain values. Fan-out walks the
    /// registry in this order.
    pub closed spec fn entries_seq(&self) -> Seq<(Seq<char>, u64)> {
        self.entries@.map_values(|e: RegEntry| (e.identity@, e.handle.id))
    }

    /// Well-formed: no identity has two entries.
    pub open spec fn wf(&self) -> bool {
        distinct_keys(self.entries_seq())
    }

    /// The number of live connections.
    pub open spec fn spec_len(&self) -> nat {
        self.entries_seq().len()
    }

    /// An empty registry: nobody is connected.
    pub fn new() -> (r: Self)
        ensures
            r.wf(),
            r@ == Map::<Seq<char>, u64>::empty(),
            r.entries_seq() == Seq::<(Seq<char>, u64)>::empty(),
    {
        let r = ConnectionRegistry { entries: Vec::new() };
        proof {
            assert(r.entries_seq() =~= Seq::<(Seq<char>, u64)>::empty());
        }
        r
    }

    pub fn len(&self) -> (n: usize)
        ensures
            n as nat == self.spec_len(),
    {
        self.entries.len()
    }

    /// The entry at a position of the registration order.
    pub fn entry_at(&self, i: usize) -> (e: &RegEntry)
        requires
            i < self.spec_len(),
        ensures
            (e.identity@, e.handle.id) == self.entries_seq()[i as int],
    {
        &self.entries[i]
    }

    /// Scan for the entry of `identity`; the index of its single entry, or
    /// `None` if it has none.
    fn find(&self, identity: &str) -> (r: Option<usize>)
        requires
            self.wf(),
        ensures
            match r {
                Some(i) => i < self.spec_len() && self.entries_seq()[i as int].0 == identity@,
                None => !self@.contains_key(identity@),
            },
    {
        let ghost s = self.entries_seq();
        let n = self.entries.len();
        let mut i: usize = 0;
        while i < n
            invariant
                n == self.spec_len(),
                i <= n,
                self.wf(),
                s == self.entries_seq(),
                forall|j: int| 0 <= j < i ==> s[j].0 != identity@,
            decreases n - i,
        {
            if str_eq(self.entries[i].identity.as_str(), identity) {
                return Some(i);
            }
            i += 1;
        }
        proof {
            lemma_map_of_absent(s, identity@);
        }
        None
    }

    /// Connects `identity` with `handle`, silently superseding any previous
    /// handle for the same identity.
    pub fn join(&mut self, identity: String, handle: ConnectionHandle)
        requires
            old(self).wf(),
        ensures
            final(self).wf(),
            final(self)@ == old(self)@.insert(identity@, handle.id),
    {
        self.leave(identity.as_str());
        let ghost s = self.entries_seq();
        self.entries.push(RegEntry { identity, handle });
        proof {
            assert(self.entries_seq() =~= s.push((identity@, handle.id)));
            lemma_map_of_push(s, identity@, handle.id);
            lemma_map_of_contains(s, identity@);
            assert(forall|i: int| 0 <= i < s.len() ==> s[i].0 != identity@);
            assert(distinct_keys(self.entries_seq()));
            assert(old(self)@.remove(identity@).insert(identity@, handle.id) =~= old(
                self,
            )@.insert(identity@, handle.id));
        }
    }

    /// Disconnects `identity`. A no-op when it is not connected, so a
    /// duplicate or late leave is harmless.
    pub fn leave(&mut self, identity: &str)
        requires
            old(self).wf(),
        ensures
            final(self).wf(),
            final(self)@ == old(self)@.remove(identity@),
    {
        let ghost s = self.entries_seq();
        match self.find(identity) {
            Some(i) => {
                self.entries.remove(i);
                proof {
                    assert(self.entries_seq() =~= s.remove(i as int));
                    lemma_map_of_remove(s, i as int);
                    lemma_distinct_remove(s, i as int);
                }
            },
            None => {
                proof {
                    assert(old(self)@.remove(identity@) =~= old(self)@);
                }
            },
        }
    }

    /// The current handle of `identity`, or `None` when it is not connected.
    pub fn lookup(&self, identity: &str) -> (r: Option<ConnectionHandle>)
        requires
            self.wf(),
        ensures
            match r {
                Some(h) => self@.contains_key(identity@) && self@[identity@] == h.id,
                None => !self@.contains_key(identity@),
            },
    {
        match self.find(identity) {
            Some(i) => {
                proof {
                    lemma_map_of_at(self.entries_seq(), i as int);
                }
                Some(self.entries[i].handle)
            },
            None => None,
        }
    }

    /// A consistent snapshot of all live connections, in registration order.
    pub fn enumerate(&self) -> (r: Vec<RegEntry>)
        ensures
            r@.map_values(|e: RegEntry| (e.identity@, e.handle.id)) == self.entries_seq(),
    {
        let n = self.entries.len();
        let mut r: Vec<RegEntry> = Vec::new();
        let mut i: usize = 0;
        while i < n
            invariant
                n == self.entries@.len(),
                i <= n,
                r@.len() == i,
                forall|j: int| 0 <= j < i ==> {
                    &&& #[trigger] r@[j].identity@ == self.entries@[j].identity@
                    &&& r@[j].handle == self.entries@[j].handle
                },
            decreases n - i,
        {
            let e = &self.entries[i];
            r.push(RegEntry { identity: e.identity.clone(), handle: e.handle });
            i += 1;
        }
        proof {
            assert(r@.map_values(|e: RegEntry| (e.identity@, e.handle.id))
                =~= self.entries_seq());
        }
        r
    }
}

/// The registration order and the registry map agree: every entry binds a
/// registered identity to its current handle, and every registered identity
/// has an entry. With well-formedness (no identity has two entries) the
/// entries are exactly the registered identities, so a fan-out over the
/// entries reaches every live connection once.
pub proof fn lemma_entries_agree(r: &ConnectionRegistry)
    requires
        r.wf(),
    ensures
        forall|i: int| 0 <= i < r.entries_seq().len() ==> r@.contains_key(
            #[trigger] r.entries_seq()[i].0,
        ) && r@[r.entries_seq()[i].0] == r.entries_seq()[i].1,
        forall|id: Seq<char>| #[trigger] r@.contains_key(id) ==> exists|i: int|
            0 <= i < r.entries_seq().len() && r.entries_seq()[i].0 == id,
{
    assert forall|i: int| 0 <= i < r.entries_seq().len() implies r@.contains_key(
        #[trigger] r.entries_seq()[i].0,
    ) && r@[r.entries_seq()[i].0] == r.entries_seq()[i].1 by {
        lemma_map_of_at(r.entries_seq(), i);
    }
    assert forall|id: Seq<char>| #[trigger] r@.contains_key(id) implies exists|i: int|
        0 <= i < r.entries_seq().len() && r.entries_seq()[i].0 == id by {
        lemma_map_of_contains(r.entries_seq(), id);
    }
}

/// One operation against the connection registry, at the spec level.
pub enum RegOp {
    Join { identity: Seq<char>, handle: u64 },
    Leave { identity: Seq<char> },
}

/// The registry map after a sequence of operations applied to `m`, first
/// operation first. `join` and `leave` establish that the registry's map
/// evolves by exactly these `insert` and `remove` steps.
pub open spec fn apply_ops(m: Map<Seq<char>, u64>, ops: Seq<RegOp>) -> Map<Seq<char>, u64>
    decreases ops.len(),
{
    if ops.len() == 0 {
        m
    } else {
        let prev = apply_ops(m, ops.drop_last());
        match ops.last() {
            RegOp::Join { identity, handle } => prev.insert(identity, handle),
            RegOp::Leave { identity } => prev.remove(identity),
        }
    }
}

/// Whether the last operation in `ops` that names `id` is a join.
pub open spec fn last_op_is_join(ops: Seq<RegOp>, id: Seq<char>) -> bool
    decreases ops.len(),
{
    if ops.len() == 0 {
        false
    } else {
        match ops.last() {
            RegOp::Join { identity, .. } => identity == id || last_op_is_join(
                ops.drop_last(),
                id,
            ),
            RegOp::Leave { identity } => identity != id && last_op_is_join(ops.drop_last(), id),
        }
    }
}

proof fn lemma_apply_ops_contains(ops: Seq<RegOp>, id: Seq<char>)
    ensures
        apply_ops(Map::empty(), ops).contains_key(id) == last_op_is_join(ops, id),
    decreases ops.len(),
{
    if ops.len() > 0 {
        lemma_apply_ops_contains(ops.drop_last(), id);
    }
}

/// After any sequence of join and leave operations on an initially empty
/// registry, the registered identities are exactly those whose last
/// operation was a join not followed by a leave.
pub proof fn lemma_registry_after_ops(ops: Seq<RegOp>)
    ensures
        apply_ops(Map::empty(), ops).dom() =~= Set::new(
            |id: Seq<char>| last_op_is_join(ops, id),
        ),
{
    assert forall|id: Seq<char>|
        apply_ops(Map::empty(), ops).dom().contains(id) == last_op_is_join(ops, id) by {
        lemma_apply_ops_contains(ops, id);
    }
}

/// Leaving twice in a row — as when a read-loop failure and an external
/// shutdown race — is safe and leaves the same registry as leaving once:
/// `leave` establishes that the registry's map evolves by `remove`.
pub proof fn lemma_leave_idempotent(m: Map<Seq<char>, u64>, identity: Seq<char>)
    ensures
        m.remove(identity).remove(identity) =~= m.remove(identity),
{
}

/// Character-for-character string comparison.
pub fn str_eq(a: &str, b: &str) -> (r: bool)
    ensures
        r == (a@ == b@),
{
    let sa = a.to_owned();
    let sb = b.to_owned();
    sa == sb
}

} // verus!
