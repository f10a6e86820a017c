//! Potential peer pool: the set of discovered, not-yet-connected candidate
//! addresses, merged from bootstrap resolution rounds with set semantics.

use vstd::prelude::*;
use crate::address::{HostResolution, PeerAddress};

verus! {

/// Addresses that one resolution outcome contributes to the pool: nothing for
/// a failed host, and the normalized address list for a resolved one.
pub open spec fn host_addresses(outcome: HostResolution) -> Set<PeerAddress> {
    match outcome {
        Ok(addrs) => addrs@.map_values(|a: PeerAddress| a.spec_normalize()).to_set(),
        Err(_) => Set::empty(),
    }
}

/// Addresses that a whole resolution round contributes: the union over all
/// per-host outcomes. A failure for one host removes nothing from the others.
pub open spec fn resolved_addresses(outcomes: Seq<HostResolution>) -> Set<PeerAddress>
    decreases outcomes.len(),
{
    if outcomes.len() == 0 {
        Set::empty()
    } else {
        resolved_addresses(outcomes.drop_last()).union(host_addresses(outcomes.last()))
    }
}

/// The set of discovered candidate addresses. Entries are unique; insertion
/// order carries no meaning and callers must not rely on selection order.
/// An address taken for a connection attempt does not return by itself when
/// the attempt fails: it re-enters only through a later resolution round.
pub struct PotentialPeerPool {
    addresses: Vec<PeerAddress>,
}

impl View for PotentialPeerPool {
    type V = Set<PeerAddress>;

    closed spec fn view(&self) -> Set<PeerAddress> {
        self.addresses@.to_set()
    }
}

impl PotentialPeerPool {
    /// Internal invariant: the backing vector holds each address at most once,
    /// so the pool really is a set and its length is the set's cardinality.
    pub closed spec fn wf(self) -> bool {
        self.addresses@.no_duplicates()
    }

    /// An empty pool.
    pub fn empty() -> (r: PotentialPeerPool)
        ensures
            r.wf(),
            r@ == Set::<PeerAddress>::empty(),
    {
        let pool = PotentialPeerPool { addresses: Vec::new() };
        proof {
            assert(pool.addresses@.to_set() =~= Set::<PeerAddress>::empty());
        }
        pool
    }

    /// A pool seeded with the configured initial peers; duplicates collapse.
    pub fn from_initial_peers(initial: &Vec<PeerAddress>) -> (r: PotentialPeerPool)
        ensures
            r.wf(),
            r@ == initial@.to_set(),
    {
        let mut pool = PotentialPeerPool::empty();
        let mut i: usize = 0;
        while i < initial.len()
            invariant
                i <= initial.len(),
                pool.wf(),
                pool@ == initial@.take(i as int).to_set(),
            decreases initial.len() - i,
        {
            pool.insert(initial[i]);
            proof {
                assert(initial@.take(i + 1) =~= initial@.take(i as int).push(initial@[i as int]));
                initial@.take(i as int).lemma_push_to_set_commute(initial@[i as int]);
            }
            i += 1;
        }
        proof {
            assert(initial@.take(initial@.len() as int) =~= initial@);
        }
        pool
    }

    /// Number of distinct candidate addresses currently in the pool.
    pub fn len(&self) -> (r: usize)
        requires
            self.wf(),
        ensures
            r == self@.len(),
    {
        proof {
            self.addresses@.unique_seq_to_set();
        }
        self.addresses.len()
    }

    /// Whether an address is already pooled.
    pub fn contains(&self, address: &PeerAddress) -> (r: bool)
        ensures
            r == self@.contains(*address),
    {
        let mut i: usize = 0;
        while i < self.addresses.len()
            invariant
                i <= self.addresses.len(),
                forall|j: int| 0 <= j < i ==> self.addresses@[j] != *address,
            decreases self.addresses.len() - i,
        {
            if self.addresses[i] == *address {
                return true;
            }
            i += 1;
        }
        false
    }

    /// Adds one address; a duplicate of a pooled address collapses, leaving the
    /// pool unchanged.
    pub fn insert(&mut self, address: PeerAddress)
        requires
            old(self).wf(),
        ensures
            final(self).wf(),
            final(self)@ == old(self)@.insert(address),
    {
        if self.contains(&address) {
            proof {
                assert(old(self)@.insert(address) =~= old(self)@);
            }
        } else {
            proof {
                let s = self.addresses@;
                assert forall|i: int, j: int|
                    0 <= i < s.push(address).len() && 0 <= j < s.push(address).len() && i != j
                    implies s.push(address)[i] != s.push(address)[j] by {
                    if i < s.len() && j < s.len() {
                        assert(s[i] != s[j]);
                    } else if i < s.len() {
                        assert(s.contains(s[i]) ==> s.to_set().contains(s[i]));
                    } else {
                        assert(s.contains(s[j]) ==> s.to_set().contains(s[j]));
                    }
                }
                s.lemma_push_to_set_commute(address);
            }
            self.addresses.push(address);
        }
    }

    /// Merges one resolution round into the pool, but only when the pool is
    /// under-supplied for `needed` candidates; failed hosts contribute nothing
    /// and resolved hosts contribute all of their addresses, normalized to the
    /// standard port and collapsed with set semantics.
    pub fn ensure_candidates(&mut self, needed: usize, outcomes: &Vec<HostResolution>)
        requires
            old(self).wf(),
        ensures
            final(self).wf(),
            old(self)@.len() >= needed ==> final(self)@ == old(self)@,
            old(self)@.len() < needed ==> final(self)@ == old(self)@.union(
                resolved_addresses(outcomes@),
            ),
    {
        if self.len() >= needed {
            return ;
        }
        let ghost initial = self@;
        let mut i: usize = 0;
        while i < outcomes.len()
            invariant
                i <= outcomes.len(),
                self.wf(),
                self@ == initial.union(resolved_addresses(outcomes@.take(i as int))),
            decreases outcomes.len() - i,
        {
            match &outcomes[i] {
                Ok(addrs) => {
                    let ghost before = self@;
                    let mut k: usize = 0;
                    while k < addrs.len()
                        invariant
                            k <= addrs.len(),
                            self.wf(),
                            self@ == before.union(
                                addrs@.take(k as int).map_values(
                                    |a: PeerAddress| a.spec_normalize(),
                                ).to_set(),
                            ),
                        decreases addrs.len() - k,
                    {
                        let a = addrs[k].with_default_port();
                        self.insert(a);
                        proof {
                            let norm = |a: PeerAddress| a.spec_normalize();
                            assert(addrs@.take(k + 1) =~= addrs@.take(k as int).push(
                                addrs@[k as int],
                            ));
                            assert(addrs@.take(k + 1).map_values(norm) =~= addrs@.take(
                                k as int,
                            ).map_values(norm).push(norm(addrs@[k as int])));
                            addrs@.take(k as int).map_values(norm).lemma_push_to_set_commute(
                                norm(addrs@[k as int]),
                            );
                            assert(before.union(
                                addrs@.take(k as int).map_values(norm).to_set(),
                            ).insert(norm(addrs@[k as int])) =~= before.union(
                                addrs@.take(k + 1).map_values(norm).to_set(),
                            ));
                        }
                        k += 1;
                    }
                    proof {
                        let norm = |a: PeerAddress| a.spec_normalize();
                        assert(addrs@.take(addrs@.len() as int) =~= addrs@);
                        lemma_resolved_addresses_take_succ(outcomes@, i as int);
                        assert(before.union(addrs@.map_values(norm).to_set()) =~= initial.union(
                            resolved_addresses(outcomes@.take(i + 1)),
                        ));
                    }
                },
                Err(_) => {
                    proof {
                        lemma_resolved_addresses_take_succ(outcomes@, i as int);
                        assert(initial.union(resolved_addresses(outcomes@.take(i as int))) =~=
                            initial.union(resolved_addresses(outcomes@.take(i + 1))));
                    }
                },
            }
            i += 1;
        }
        proof {
            assert(outcomes@.take(outcomes@.len() as int) =~= outcomes@);
        }
    }

    /// Removes up to `n` addresses from the pool and returns them; when fewer
    /// are pooled, all of them are returned. Which addresses leave is
    /// unspecified; the returned list is duplicate-free and disjoint from what
    /// remains.
    pub fn take(&mut self, n: usize) -> (r: Vec<PeerAddress>)
        requires
            old(self).wf(),
        ensures
            final(self).wf(),
            r@.no_duplicates(),
            r@.len() == vstd::math::min(n as int, old(self)@.len() as int),
            r@.to_set().subset_of(old(self)@),
            final(self)@ == old(self)@.difference(r@.to_set()),
            final(self)@.len() == old(self)@.len() - r@.len(),
    {
        proof {
            old(self).addresses@.unique_seq_to_set();
        }
        let mut r: Vec<PeerAddress> = Vec::new();
        proof {
            assert(r@.to_set() =~= Set::<PeerAddress>::empty());
            assert(self@.union(r@.to_set()) =~= old(self)@);
        }
        while r.len() < n && self.addresses.len() > 0
            invariant
                self.wf(),
                r@.no_duplicates(),
                r@.len() <= n,
                self@.disjoint(r@.to_set()),
                self@.union(r@.to_set()) == old(self)@,
                r@.len() + self.addresses@.len() == old(self)@.len(),
            decreases self.addresses@.len(),
        {
            let ghost s = self.addresses@;
            proof {
                lemma_unique_drop_last_to_set(s);
                assert(s.to_set().contains(s.last()));
            }
            let a = match self.addresses.pop() {
                Some(a) => a,
                None => {
                    proof {
                        assert(false);
                    }
                    vstd::pervasive::unreached()
                },
            };
            proof {
                assert(!r@.to_set().contains(a));
                assert forall|i: int, j: int|
                    0 <= i < r@.push(a).len() && 0 <= j < r@.push(a).len() && i != j
                    implies r@.push(a)[i] != r@.push(a)[j] by {
                    if i < r@.len() && j < r@.len() {
                        assert(r@[i] != r@[j]);
                    }
                }
                r@.lemma_push_to_set_commute(a);
                assert(s.drop_last().to_set().union(r@.to_set().insert(a)) =~= s.to_set().union(
                    r@.to_set(),
                ));
                assert(s.drop_last().to_set().disjoint(r@.to_set().insert(a)));
            }
            r.push(a);
        }
        proof {
            self.addresses@.unique_seq_to_set();
            r@.unique_seq_to_set();
            vstd::set_lib::lemma_set_disjoint_lens(self@, r@.to_set());
            assert(final(self)@ =~= old(self)@.difference(r@.to_set()));
        }
        r
    }
}

/// Splitting a resolution round after its first `i` outcomes: the addresses of
/// outcome `i` join what the first `i` outcomes contributed.
proof fn lemma_resolved_addresses_take_succ(outcomes: Seq<HostResolution>, i: int)
    requires
        0 <= i < outcomes.len(),
    ensures
        resolved_addresses(outcomes.take(i + 1)) == resolved_addresses(outcomes.take(i)).union(
            host_addresses(outcomes[i]),
        ),
{
    let t = outcomes.take(i + 1);
    assert(t.drop_last() =~= outcomes.take(i));
    assert(t.last() == outcomes[i]);
}

/// Dropping the last element of a duplicate-free sequence removes exactly that
/// element from the set of its elements.
proof fn lemma_unique_drop_last_to_set(s: Seq<PeerAddress>)
    requires
        s.len() > 0,
        s.no_duplicates(),
    ensures
        s.drop_last().no_duplicates(),
        !s.drop_last().to_set().contains(s.last()),
        s.drop_last().to_set() == s.to_set().remove(s.last()),
{
    assert forall|x: PeerAddress| s.drop_last().to_set().contains(x) implies s.to_set().remove(
        s.last(),
    ).contains(x) by {
        let i = choose|i: int| 0 <= i < s.drop_last().len() && s.drop_last()[i] == x;
        assert(s[i] == x);
        assert(s.contains(x));
        assert(x != s.last());
    }
    assert forall|x: PeerAddress| s.to_set().remove(s.last()).contains(x) implies s.drop_last()
        .to_set().contains(x) by {
        let i = choose|i: int| 0 <= i < s.len() && s[i] == x;
        assert(i < s.len() - 1);
        assert(s.drop_last()[i] == x);
        assert(s.drop_last().contains(x));
    }
    assert(s.drop_last().to_set() =~= s.to_set().remove(s.last()));
}

/// Merging the same resolution round twice is the same as merging it once: the
/// pool absorbs duplicates, so a repeated merge never grows it.
pub proof fn lemma_merge_idempotent(pool: Set<PeerAddress>, outcomes: Seq<HostResolution>)
    ensures
        pool.union(resolved_addresses(outcomes)).union(resolved_addresses(outcomes)) == pool.union(
            resolved_addresses(outcomes),
        ),
{
    assert(pool.union(resolved_addresses(outcomes)).union(resolved_addresses(outcomes)) =~= pool
        .union(resolved_addresses(outcomes)));
}

/// A failed resolution for one host never suppresses another host's addresses:
/// whatever any successfully resolved outcome contributed is in the merged
/// round, whatever the other outcomes did.
pub proof fn lemma_resolution_failure_isolated(outcomes: Seq<HostResolution>, j: int)
    requires
        0 <= j < outcomes.len(),
        outcomes[j] is Ok,
    ensures
        host_addresses(outcomes[j]).subset_of(resolved_addresses(outcomes)),
    decreases outcomes.len(),
{
    if j == outcomes.len() - 1 {
    } else {
        lemma_resolution_failure_isolated(outcomes.drop_last(), j);
        assert(outcomes.drop_last()[j] == outcomes[j]);
    }
}

} // verus!
