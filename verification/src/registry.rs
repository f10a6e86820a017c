//! Peer registry: the authoritative mapping from the identity of a connected
//! peer to the handle of its live connection. It grows only via creation
//! events and shrinks only via termination events; eviction commands do not
//! touch it until the matching termination event arrives.

use vstd::prelude::*;

verus! {

/// Opaque unique key of a connected peer, e.g. the address of its connection
/// actor. No two live peers share one.
#[derive(Clone, Debug, PartialEq, Eq, Hash)]
pub struct PeerIdentity {
    pub uri: String,
}

impl View for PeerIdentity {
    type V = Seq<char>;

    open spec fn view(&self) -> Seq<char> {
        self.uri@
    }
}

impl PeerIdentity {
    /// Identity equality, decided on the underlying key.
    pub fn matches(&self, other: &PeerIdentity) -> (r: bool)
        ensures
            r == (self@ == other@),
    {
        self.uri == other.uri
    }
}

/// Opaque reference to a live connection. The registry owns the reference for
/// the connection's tracked lifetime, not the connection resource itself.
#[derive(Clone, Copy, Debug, PartialEq, Eq, Structural)]
pub struct PeerHandle {
    pub tag: u64,
}

/// The key sequence of an entry list.
pub open spec fn entry_keys(s: Seq<(PeerIdentity, PeerHandle)>) -> Seq<Seq<char>> {
    s.map_values(|e: (PeerIdentity, PeerHandle)| e.0@)
}

/// The mapping that an entry list denotes: later entries win, though a
/// well-formed registry never holds a key twice.
pub open spec fn entries_map(s: Seq<(PeerIdentity, PeerHandle)>) -> Map<Seq<char>, PeerHandle>
    decreases s.len(),
{
    if s.len() == 0 {
        Map::empty()
    } else {
        entries_map(s.drop_last()).insert(s.last().0@, s.last().1)
    }
}

/// Whether some tracked peer's connection is referenced by this handle.
pub open spec fn is_registered_handle(m: Map<Seq<char>, PeerHandle>, h: PeerHandle) -> bool {
    exists|k: Seq<char>| m.dom().contains(k) && m[k] == h
}

/// A valid eviction pick: the handles belong, position by position, to
/// pairwise distinct tracked identities.
pub open spec fn eviction_selection(
    m: Map<Seq<char>, PeerHandle>,
    ks: Seq<Seq<char>>,
    handles: Seq<PeerHandle>,
) -> bool {
    &&& ks.no_duplicates()
    &&& ks.len() == handles.len()
    &&& forall|i: int|
        0 <= i < ks.len() ==> m.dom().contains(#[trigger] ks[i]) && m[ks[i]] == handles[i]
}

/// The mapping of currently connected peers.
pub struct PeerRegistry {
    entries: Vec<(PeerIdentity, PeerHandle)>,
}

impl View for PeerRegistry {
    type V = Map<Seq<char>, PeerHandle>;

    closed spec fn view(&self) -> Map<Seq<char>, PeerHandle> {
        entries_map(self.entries@)
    }
}

impl PeerRegistry {
    /// Internal invariant: each identity appears at most once.
    pub closed spec fn wf(self) -> bool {
        entry_keys(self.entries@).no_duplicates()
    }

    /// An empty registry.
    pub fn new() -> (r: PeerRegistry)
        ensures
            r.wf(),
            r@ == Map::<Seq<char>, PeerHandle>::empty(),
    {
        PeerRegistry { entries: Vec::new() }
    }

    /// Index of the entry for an identity, if one is present.
    fn find(&self, identity: &PeerIdentity) -> (r: Option<usize>)
        ensures
            r matches Some(i) ==> i < self.entries@.len() && self.entries@[i as int].0@
                == identity@,
            r is None ==> forall|j: int|
                0 <= j < self.entries@.len() ==> self.entries@[j].0@ != identity@,
    {
        let mut i: usize = 0;
        while i < self.entries.len()
            invariant
                i <= self.entries.len(),
                forall|j: int| 0 <= j < i ==> self.entries@[j].0@ != identity@,
            decreases self.entries.len() - i,
        {
            if self.entries[i].0.matches(identity) {
                return Some(i);
            }
            i += 1;
        }
        None
    }

    /// Whether an identity is currently tracked.
    pub fn contains(&self, identity: &PeerIdentity) -> (r: bool)
        requires
            self.wf(),
        ensures
            r == self@.dom().contains(identity@),
    {
        proof {
            lemma_entries_map_dom(self.entries@);
        }
        let r = self.find(identity);
        proof {
            if r is Some {
                let i = r->Some_0;
                assert(entry_keys(self.entries@)[i as int] == identity@);
                assert(entry_keys(self.entries@).to_set().contains(identity@));
            } else {
                if self@.dom().contains(identity@) {
                    let j = choose|j: int|
                        0 <= j < entry_keys(self.entries@).len() && entry_keys(self.entries@)[j]
                            == identity@;
                    assert(self.entries@[j].0@ == identity@);
                }
            }
        }
        r.is_some()
    }

    /// Number of currently tracked peers.
    pub fn size(&self) -> (r: usize)
        requires
            self.wf(),
        ensures
            r == self@.dom().len(),
    {
        proof {
            lemma_entries_map_dom(self.entries@);
            entry_keys(self.entries@).unique_seq_to_set();
        }
        self.entries.len()
    }

    /// Registers a peer. Called once per creation event; on the unexpected
    /// repetition of an identity the new handle replaces the old one, and the
    /// registry does not grow.
    pub fn insert(&mut self, identity: PeerIdentity, handle: PeerHandle)
        requires
            old(self).wf(),
        ensures
            final(self).wf(),
            final(self)@ == old(self)@.insert(identity@, handle),
            old(self)@.dom().contains(identity@) ==> final(self)@.dom().len() == old(
                self,
            )@.dom().len(),
            !old(self)@.dom().contains(identity@) ==> final(self)@.dom().len() == old(
                self,
            )@.dom().len() + 1,
    {
        proof {
            lemma_entries_map_dom(old(self).entries@);
            entry_keys(old(self).entries@).unique_seq_to_set();
        }
        let r = self.find(&identity);
        match r {
            Some(i) => {
                proof {
                    assert(entry_keys(self.entries@)[i as int] == identity@);
                    assert(old(self)@.dom().contains(identity@));
                    lemma_entries_map_update(self.entries@, i as int, identity, handle);
                }
                self.entries[i] = (identity, handle);
                proof {
                    assert(entry_keys(final(self).entries@) =~= entry_keys(
                        old(self).entries@,
                    ).update(i as int, final(self).entries@[i as int].0@));
                    assert(entry_keys(final(self).entries@) =~= entry_keys(old(self).entries@));
                    lemma_entries_map_dom(final(self).entries@);
                    entry_keys(final(self).entries@).unique_seq_to_set();
                }
            },
            None => {
                proof {
                    let s = self.entries@;
                    let keys = entry_keys(s);
                    assert(forall|j: int| 0 <= j < keys.len() ==> keys[j] != identity@);
                    assert(entry_keys(s.push((identity, handle))) =~= keys.push(identity@));
                    assert forall|a: int, b: int|
                        0 <= a < keys.push(identity@).len() && 0 <= b < keys.push(identity@).len()
                            && a != b implies keys.push(identity@)[a] != keys.push(
                        identity@,
                    )[b] by {
                        if a < keys.len() && b < keys.len() {
                            assert(keys[a] != keys[b]);
                        }
                    }
                    assert(s.push((identity, handle)).drop_last() =~= s);
                    if old(self)@.dom().contains(identity@) {
                        let j = choose|j: int| 0 <= j < keys.len() && keys[j] == identity@;
                        assert(false);
                    }
                }
                self.entries.push((identity, handle));
                proof {
                    lemma_entries_map_dom(final(self).entries@);
                    entry_keys(final(self).entries@).unique_seq_to_set();
                }
            },
        }
    }

    /// Forgets a peer on its termination notification. Removing an identity
    /// that is not tracked is a no-op, not an error, and leaves the size
    /// unchanged.
    pub fn remove(&mut self, identity: &PeerIdentity)
        requires
            old(self).wf(),
        ensures
            final(self).wf(),
            final(self)@ == old(self)@.remove(identity@),
            old(self)@.dom().contains(identity@) ==> final(self)@.dom().len() == old(
                self,
            )@.dom().len() - 1,
            !old(self)@.dom().contains(identity@) ==> final(self)@ == old(self)@
                && final(self)@.dom().len() == old(self)@.dom().len(),
    {
        proof {
            lemma_entries_map_dom(old(self).entries@);
            entry_keys(old(self).entries@).unique_seq_to_set();
        }
        let r = self.find(identity);
        match r {
            Some(i) => {
                proof {
                    assert(entry_keys(self.entries@)[i as int] == identity@);
                    assert(old(self)@.dom().contains(identity@));
                    lemma_entries_map_remove(self.entries@, i as int);
                    assert(entry_keys(old(self).entries@.remove(i as int)) =~= entry_keys(
                        old(self).entries@,
                    ).remove(i as int));
                    lemma_keys_remove_no_duplicates(entry_keys(old(self).entries@), i as int);
                }
                self.entries.remove(i);
                proof {
                    lemma_entries_map_dom(final(self).entries@);
                    entry_keys(final(self).entries@).unique_seq_to_set();
                }
            },
            None => {
                proof {
                    if old(self)@.dom().contains(identity@) {
                        let keys = entry_keys(old(self).entries@);
                        let j = choose|j: int| 0 <= j < keys.len() && keys[j] == identity@;
                        assert(old(self).entries@[j].0@ == identity@);
                        assert(false);
                    }
                    assert(old(self)@.remove(identity@) =~= old(self)@);
                }
            },
        }
    }

    /// Handle of a tracked peer.
    pub fn handle_of(&self, identity: &PeerIdentity) -> (r: Option<PeerHandle>)
        requires
            self.wf(),
        ensures
            r matches Some(h) ==> self@.dom().contains(identity@) && self@[identity@] == h,
            r is None ==> !self@.dom().contains(identity@),
    {
        proof {
            lemma_entries_map_dom(self.entries@);
        }
        let r = self.find(identity);
        match r {
            Some(i) => {
                proof {
                    assert(entry_keys(self.entries@)[i as int] == identity@);
                    lemma_entries_map_index(self.entries@, i as int);
                }
                Some(self.entries[i].1)
            },
            None => {
                proof {
                    if self@.dom().contains(identity@) {
                        let keys = entry_keys(self.entries@);
                        let j = choose|j: int| 0 <= j < keys.len() && keys[j] == identity@;
                        assert(self.entries@[j].0@ == identity@);
                    }
                }
                None
            },
        }
    }

    /// Picks up to `n` currently registered handles, with no scoring and no
    /// order guarantee, as stop-command targets. The registry itself is not
    /// changed; entries leave it only upon a confirmed termination event.
    pub fn select_for_eviction(&self, n: usize) -> (r: Vec<PeerHandle>)
        requires
            self.wf(),
        ensures
            r@.len() == vstd::math::min(n as int, self@.dom().len() as int),
            forall|i: int| 0 <= i < r@.len() ==> is_registered_handle(self@, #[trigger] r@[i]),
            exists|ks: Seq<Seq<char>>| eviction_selection(self@, ks, r@),
    {
        proof {
            lemma_entries_map_dom(self.entries@);
            entry_keys(self.entries@).unique_seq_to_set();
        }
        let count = if n < self.entries.len() {
            n
        } else {
            self.entries.len()
        };
        let mut r: Vec<PeerHandle> = Vec::new();
        let mut i: usize = 0;
        while i < count
            invariant
                i <= count,
                count <= self.entries@.len(),
                self.wf(),
                r@.len() == i,
                forall|j: int| 0 <= j < i ==> r@[j] == self.entries@[j].1,
            decreases count - i,
        {
            r.push(self.entries[i].1);
            i += 1;
        }
        proof {
            let ks = entry_keys(self.entries@).take(count as int);
            assert forall|a: int, b: int| 0 <= a < ks.len() && 0 <= b < ks.len() && a != b
                implies ks[a] != ks[b] by {
                assert(entry_keys(self.entries@)[a] != entry_keys(self.entries@)[b]);
            }
            assert forall|j: int| 0 <= j < ks.len() implies self@.dom().contains(#[trigger] ks[j])
                && self@[ks[j]] == r@[j] by {
                lemma_entries_map_index(self.entries@, j);
                assert(ks[j] == self.entries@[j].0@);
            }
            assert(eviction_selection(self@, ks, r@));
            assert forall|j: int| 0 <= j < r@.len() implies is_registered_handle(
                self@,
                #[trigger] r@[j],
            ) by {
                assert(self@.dom().contains(ks[j]) && self@[ks[j]] == r@[j]);
            }
        }
        r
    }
}

/// The domain of the denoted mapping is exactly the set of keys in the list.
proof fn lemma_entries_map_dom(s: Seq<(PeerIdentity, PeerHandle)>)
    ensures
        entries_map(s).dom() == entry_keys(s).to_set(),
        entries_map(s).dom().finite(),
    decreases s.len(),
{
    if s.len() == 0 {
        assert(entries_map(s).dom() =~= entry_keys(s).to_set());
    } else {
        lemma_entries_map_dom(s.drop_last());
        assert(entry_keys(s.drop_last()) =~= entry_keys(s).drop_last());
        assert forall|k: Seq<char>| entry_keys(s).to_set().contains(k) implies entries_map(
            s,
        ).dom().contains(k) by {
            let j = choose|j: int| 0 <= j < entry_keys(s).len() && entry_keys(s)[j] == k;
            if j < s.len() - 1 {
                assert(entry_keys(s).drop_last()[j] == k);
            }
        }
        assert forall|k: Seq<char>| entries_map(s).dom().contains(k) implies entry_keys(
            s,
        ).to_set().contains(k) by {
            if k == s.last().0@ {
                assert(entry_keys(s)[s.len() - 1] == k);
            } else {
                let j = choose|j: int|
                    0 <= j < entry_keys(s.drop_last()).len() && entry_keys(s.drop_last())[j] == k;
                assert(entry_keys(s)[j] == k);
            }
        }
        assert(entries_map(s).dom() =~= entry_keys(s).to_set());
    }
}

/// In a duplicate-free list, each entry's key maps to that entry's handle.
proof fn lemma_entries_map_index(s: Seq<(PeerIdentity, PeerHandle)>, i: int)
    requires
        entry_keys(s).no_duplicates(),
        0 <= i < s.len(),
    ensures
        entries_map(s).dom().contains(s[i].0@),
        entries_map(s)[s[i].0@] == s[i].1,
    decreases s.len(),
{
    lemma_entries_map_dom(s);
    assert(entry_keys(s)[i] == s[i].0@);
    assert(entry_keys(s).to_set().contains(s[i].0@));
    if i == s.len() - 1 {
    } else {
        assert(entry_keys(s.drop_last()) =~= entry_keys(s).drop_last());
        lemma_entries_map_index(s.drop_last(), i);
        assert(s.drop_last()[i] == s[i]);
        assert(entry_keys(s)[i] != entry_keys(s)[s.len() - 1]);
    }
}

/// Replacing the entry at the position of a key rewrites exactly that key's
/// image in the denoted mapping.
proof fn lemma_entries_map_update(
    s: Seq<(PeerIdentity, PeerHandle)>,
    i: int,
    identity: PeerIdentity,
    handle: PeerHandle,
)
    requires
        entry_keys(s).no_duplicates(),
        0 <= i < s.len(),
        s[i].0@ == identity@,
    ensures
        entries_map(s.update(i, (identity, handle))) == entries_map(s).insert(identity@, handle),
    decreases s.len(),
{
    let t = s.update(i, (identity, handle));
    if i == s.len() - 1 {
        assert(t.drop_last() =~= s.drop_last());
        assert(t.last() == (identity, handle));
        assert(entries_map(t) =~= entries_map(s).insert(identity@, handle));
    } else {
        assert(entry_keys(s.drop_last()) =~= entry_keys(s).drop_last());
        lemma_entries_map_update(s.drop_last(), i, identity, handle);
        assert(t.drop_last() =~= s.drop_last().update(i, (identity, handle)));
        assert(t.last() == s.last());
        assert(entry_keys(s)[i] != entry_keys(s)[s.len() - 1]);
        assert(identity@ != s.last().0@);
        assert(entries_map(t) =~= entries_map(s).insert(identity@, handle));
    }
}

/// Removing the entry at the position of a key removes exactly that key from
/// the denoted mapping.
proof fn lemma_entries_map_remove(s: Seq<(PeerIdentity, PeerHandle)>, i: int)
    requires
        entry_keys(s).no_duplicates(),
        0 <= i < s.len(),
    ensures
        entries_map(s.remove(i)) == entries_map(s).remove(s[i].0@),
    decreases s.len(),
{
    lemma_entries_map_dom(s.drop_last());
    assert(entry_keys(s.drop_last()) =~= entry_keys(s).drop_last());
    if i == s.len() - 1 {
        assert(s.remove(i) =~= s.drop_last());
        if entries_map(s.drop_last()).dom().contains(s[i].0@) {
            let keys = entry_keys(s.drop_last());
            let j = choose|j: int| 0 <= j < keys.len() && keys[j] == s[i].0@;
            assert(entry_keys(s)[j] == entry_keys(s)[i]);
            assert(false);
        }
        assert(entries_map(s.remove(i)) =~= entries_map(s).remove(s[i].0@));
    } else {
        lemma_entries_map_remove(s.drop_last(), i);
        assert(s.remove(i).drop_last() =~= s.drop_last().remove(i));
        assert(s.remove(i).last() == s.last());
        assert(s.drop_last()[i] == s[i]);
        assert(entry_keys(s)[i] != entry_keys(s)[s.len() - 1]);
        assert(s[i].0@ != s.last().0@);
        assert(entries_map(s.remove(i)) =~= entries_map(s).remove(s[i].0@));
    }
}

/// Removing an element from a duplicate-free sequence keeps it duplicate-free.
proof fn lemma_keys_remove_no_duplicates(keys: Seq<Seq<char>>, i: int)
    requires
        keys.no_duplicates(),
        0 <= i < keys.len(),
    ensures
        keys.remove(i).no_duplicates(),
{
    assert forall|a: int, b: int|
        0 <= a < keys.remove(i).len() && 0 <= b < keys.remove(i).len() && a != b implies keys.remove(
        i,
    )[a] != keys.remove(i)[b] by {
        let a2 = if a < i {
            a
        } else {
            a + 1
        };
        let b2 = if b < i {
            b
        } else {
            b + 1
        };
        assert(keys.remove(i)[a] == keys[a2]);
        assert(keys.remove(i)[b] == keys[b2]);
        assert(keys[a2] != keys[b2]);
    }
}

/// Registering a fresh peer and then processing its termination returns the
/// registry to its pre-insert mapping, and in particular to its pre-insert
/// size.
pub proof fn lemma_insert_then_remove_restores(
    m: Map<Seq<char>, PeerHandle>,
    identity: Seq<char>,
    handle: PeerHandle,
)
    requires
        m.dom().finite(),
        !m.dom().contains(identity),
    ensures
        m.insert(identity, handle).remove(identity) == m,
        m.insert(identity, handle).remove(identity).dom().len() == m.dom().len(),
{
    assert(m.insert(identity, handle).remove(identity) =~= m);
}

/// Processing a termination event for a peer that is not tracked changes
/// nothing: the mapping, and so its size, stay as they were.
pub proof fn lemma_remove_absent_is_noop(m: Map<Seq<char>, PeerHandle>, identity: Seq<char>)
    requires
        !m.dom().contains(identity),
    ensures
        m.remove(identity) == m,
{
    assert(m.remove(identity) =~= m);
}

} // verus!
