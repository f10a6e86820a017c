use tezedge::address::{LookupFailure, PeerAddress, STANDARD_PORT};
use tezedge::pool::PotentialPeerPool;
use tezedge::registry::{PeerHandle, PeerIdentity, PeerRegistry};

fn addr(ip: u128) -> PeerAddress {
    PeerAddress { is_v6: false, ip, port: STANDARD_PORT }
}

#[test]
fn merge_collapses_duplicates() {
    // The same address reported by two hosts, and twice by one host, enters
    // the pool once.
    let mut pool = PotentialPeerPool::empty();
    let outcomes = vec![Ok(vec![addr(1), addr(2), addr(1)]), Ok(vec![addr(2), addr(3)])];
    pool.ensure_candidates(10, &outcomes);
    assert_eq!(pool.len(), 3);
}

#[test]
fn merge_twice_is_merge_once() {
    let mut pool = PotentialPeerPool::empty();
    let outcomes = vec![Ok(vec![addr(1), addr(2)])];
    pool.ensure_candidates(10, &outcomes);
    let after_first = pool.len();
    pool.ensure_candidates(10, &outcomes);
    assert_eq!(pool.len(), after_first);
}

#[test]
fn merge_skips_failed_hosts_only() {
    let mut pool = PotentialPeerPool::empty();
    let outcomes = vec![
        Err(LookupFailure { message: "timed out".to_string() }),
        Ok(vec![addr(4)]),
        Err(LookupFailure { message: "refused".to_string() }),
        Ok(vec![addr(5)]),
    ];
    pool.ensure_candidates(10, &outcomes);
    assert_eq!(pool.len(), 2);
    assert!(pool.contains(&addr(4)));
    assert!(pool.contains(&addr(5)));
}

#[test]
fn supplied_pool_skips_merging() {
    let mut pool = PotentialPeerPool::from_initial_peers(&vec![addr(1), addr(2)]);
    pool.ensure_candidates(2, &vec![Ok(vec![addr(9)])]);
    assert_eq!(pool.len(), 2);
    assert!(!pool.contains(&addr(9)));
}

#[test]
fn take_returns_short_count_when_under_supplied() {
    let mut pool = PotentialPeerPool::from_initial_peers(&vec![addr(1), addr(2)]);
    let taken = pool.take(5);
    assert_eq!(taken.len(), 2);
    assert_eq!(pool.len(), 0);
}

#[test]
fn take_removes_taken_addresses() {
    let mut pool = PotentialPeerPool::from_initial_peers(&vec![addr(1), addr(2), addr(3)]);
    let taken = pool.take(2);
    assert_eq!(taken.len(), 2);
    assert_eq!(pool.len(), 1);
    for a in &taken {
        assert!(!pool.contains(a));
    }
}

#[test]
fn initial_peers_collapse() {
    let pool = PotentialPeerPool::from_initial_peers(&vec![addr(1), addr(1), addr(2)]);
    assert_eq!(pool.len(), 2);
}

#[test]
fn insert_then_remove_restores_size() {
    let mut reg = PeerRegistry::new();
    reg.insert(PeerIdentity { uri: "a".to_string() }, PeerHandle { tag: 1 });
    reg.insert(PeerIdentity { uri: "b".to_string() }, PeerHandle { tag: 2 });
    let before = reg.size();
    reg.insert(PeerIdentity { uri: "c".to_string() }, PeerHandle { tag: 3 });
    assert_eq!(reg.size(), before + 1);
    reg.remove(&PeerIdentity { uri: "c".to_string() });
    assert_eq!(reg.size(), before);
}

#[test]
fn remove_absent_identity_is_harmless() {
    let mut reg = PeerRegistry::new();
    reg.insert(PeerIdentity { uri: "a".to_string() }, PeerHandle { tag: 1 });
    reg.remove(&PeerIdentity { uri: "ghost".to_string() });
    assert_eq!(reg.size(), 1);
    assert!(reg.contains(&PeerIdentity { uri: "a".to_string() }));
}

#[test]
fn insert_same_identity_upserts() {
    let mut reg = PeerRegistry::new();
    reg.insert(PeerIdentity { uri: "a".to_string() }, PeerHandle { tag: 1 });
    reg.insert(PeerIdentity { uri: "a".to_string() }, PeerHandle { tag: 9 });
    assert_eq!(reg.size(), 1);
    let h = reg.handle_of(&PeerIdentity { uri: "a".to_string() }).unwrap();
    assert_eq!(h.tag, 9);
}

#[test]
fn eviction_selects_up_to_n_without_removing() {
    let mut reg = PeerRegistry::new();
    for n in 0..4u64 {
        reg.insert(PeerIdentity { uri: format!("p{}", n) }, PeerHandle { tag: n });
    }
    let victims = reg.select_for_eviction(2);
    assert_eq!(victims.len(), 2);
    assert_eq!(reg.size(), 4);
    let victims = reg.select_for_eviction(9);
    assert_eq!(victims.len(), 4);
}
