use tezedge::address::{LookupFailure, PeerAddress, STANDARD_PORT};
use tezedge::peer_manager::{Command, PeerManager, PeerManagerMsg};
use tezedge::policy::Threshold;
use tezedge::registry::{PeerHandle, PeerIdentity};

fn addr(ip: u128) -> PeerAddress {
    PeerAddress { is_v6: false, ip, port: STANDARD_PORT }
}

fn identity(n: u64) -> PeerIdentity {
    PeerIdentity { uri: format!("peer-{}", n) }
}

fn manager(low: usize, high: usize) -> PeerManager {
    let threshold = Threshold::new(low, high).unwrap();
    PeerManager::new(vec!["boot.example".to_string()], &Vec::new(), threshold)
}

fn fill_registry(mgr: &mut PeerManager, count: u64) {
    for n in 0..count {
        mgr.handle_peer_created(identity(n), PeerHandle { tag: n });
    }
}

#[test]
fn scenario_empty_registry_five_resolved() {
    // low=3, high=10, empty registry, bootstrap resolves to 5 unique addresses:
    // exactly 3 connect commands, 2 addresses left pooled.
    let mut mgr = manager(3, 10);
    let resolved = vec![Ok(vec![addr(1), addr(2), addr(3), addr(4), addr(5)])];
    let cmds = mgr.check_threshold(&resolved);
    assert_eq!(cmds.len(), 3);
    for c in &cmds {
        assert!(matches!(c, Command::ConnectToPeer { .. }));
    }
    assert_eq!(mgr.potential_peer_count(), 2);
    assert_eq!(mgr.peer_count(), 0);
}

#[test]
fn scenario_overfull_registry_sheds_two() {
    // 12 registered peers with high=10: exactly 2 stop commands, registry
    // still holds all 12 until termination events arrive.
    let mut mgr = manager(3, 10);
    fill_registry(&mut mgr, 12);
    let cmds = mgr.check_threshold(&Vec::new());
    assert_eq!(cmds.len(), 2);
    for c in &cmds {
        assert!(matches!(c, Command::StopPeer { .. }));
    }
    assert_eq!(mgr.peer_count(), 12);
}

#[test]
fn scenario_in_band_issues_nothing() {
    // 5 registered peers inside the 3..=10 band: zero commands.
    let mut mgr = manager(3, 10);
    fill_registry(&mut mgr, 5);
    let cmds = mgr.check_threshold(&Vec::new());
    assert!(cmds.is_empty());
    assert_eq!(mgr.peer_count(), 5);
}

#[test]
fn scenario_one_host_fails_other_still_counts() {
    // One of two bootstrap hosts fails resolution: the other's addresses
    // still populate the pool, and the tick still issues its commands.
    let mut mgr = manager(3, 10);
    let resolved = vec![
        Err(LookupFailure { message: "no such host".to_string() }),
        Ok(vec![addr(7), addr(8)]),
    ];
    let cmds = mgr.check_threshold(&resolved);
    assert_eq!(cmds.len(), 2);
    let mut ips: Vec<u128> = cmds
        .iter()
        .map(|c| match c {
            Command::ConnectToPeer { address } => address.ip,
            Command::StopPeer { .. } => panic!("unexpected stop command"),
        })
        .collect();
    ips.sort();
    assert_eq!(ips, vec![7, 8]);
    assert_eq!(mgr.potential_peer_count(), 0);
}

#[test]
fn resolution_entries_without_port_get_standard_port() {
    let mut mgr = manager(1, 10);
    let unported = PeerAddress { is_v6: false, ip: 42, port: 0 };
    let cmds = mgr.check_threshold(&vec![Ok(vec![unported])]);
    assert_eq!(cmds.len(), 1);
    match &cmds[0] {
        Command::ConnectToPeer { address } => {
            assert_eq!(address.ip, 42);
            assert_eq!(address.port, STANDARD_PORT);
        }
        Command::StopPeer { .. } => panic!("unexpected stop command"),
    }
}

#[test]
fn tick_does_not_resolve_when_pool_is_supplied() {
    // The pool already covers the shortfall, so the resolution round is not
    // merged: its addresses stay out of the pool.
    let threshold = Threshold::new(2, 10).unwrap();
    let seeded = vec![addr(1), addr(2), addr(3)];
    let mut mgr = PeerManager::new(vec!["boot.example".to_string()], &seeded, threshold);
    let cmds = mgr.check_threshold(&vec![Ok(vec![addr(50), addr(51), addr(52)])]);
    assert_eq!(cmds.len(), 2);
    assert_eq!(mgr.potential_peer_count(), 1);
}

#[test]
fn short_pool_under_delivers_and_next_tick_retries() {
    // Only one candidate for a shortfall of three: a short tick, then the
    // next tick picks up newly resolved addresses.
    let mut mgr = manager(3, 10);
    let cmds = mgr.check_threshold(&vec![Ok(vec![addr(9)])]);
    assert_eq!(cmds.len(), 1);
    assert_eq!(mgr.potential_peer_count(), 0);
    let cmds = mgr.check_threshold(&vec![Ok(vec![addr(10), addr(11), addr(12)])]);
    assert_eq!(cmds.len(), 3);
    assert_eq!(mgr.peer_count(), 0);
}

#[test]
fn taken_address_is_not_returned_after_failed_attempt() {
    // An address removed from the pool for a connection attempt does not come
    // back by itself when the attempt fails; it re-enters only when a later
    // resolution round reports it again.
    let mut mgr = manager(1, 10);
    let cmds = mgr.check_threshold(&vec![Ok(vec![addr(5)])]);
    assert_eq!(cmds.len(), 1);
    assert_eq!(mgr.potential_peer_count(), 0);
    // No creation event arrives; the next tick finds nothing to take.
    let cmds = mgr.check_threshold(&Vec::new());
    assert!(cmds.is_empty());
    // A new resolution round re-supplies the same address.
    let cmds = mgr.check_threshold(&vec![Ok(vec![addr(5)])]);
    assert_eq!(cmds.len(), 1);
}

#[test]
fn created_then_terminated_restores_count() {
    let mut mgr = manager(0, 10);
    fill_registry(&mut mgr, 3);
    let before = mgr.peer_count();
    mgr.handle_peer_created(identity(77), PeerHandle { tag: 77 });
    assert_eq!(mgr.peer_count(), before + 1);
    mgr.handle_actor_terminated(&identity(77));
    assert_eq!(mgr.peer_count(), before);
}

#[test]
fn terminating_unknown_peer_changes_nothing() {
    let mut mgr = manager(0, 10);
    fill_registry(&mut mgr, 3);
    mgr.handle_actor_terminated(&identity(99));
    assert_eq!(mgr.peer_count(), 3);
}

#[test]
fn repeated_creation_replaces_without_growth() {
    let mut mgr = manager(0, 10);
    mgr.handle_peer_created(identity(1), PeerHandle { tag: 1 });
    mgr.handle_peer_created(identity(1), PeerHandle { tag: 2 });
    assert_eq!(mgr.peer_count(), 1);
}

#[test]
fn receive_dispatches_all_three_inputs() {
    let mut mgr = manager(3, 10);
    let cmds = mgr.receive(PeerManagerMsg::PeerCreated {
        identity: identity(1),
        handle: PeerHandle { tag: 1 },
    });
    assert!(cmds.is_empty());
    assert_eq!(mgr.peer_count(), 1);

    let cmds = mgr.receive(PeerManagerMsg::CheckThreshold {
        resolutions: vec![Ok(vec![addr(1), addr(2)])],
    });
    assert_eq!(cmds.len(), 2);

    let cmds = mgr.receive(PeerManagerMsg::ActorTerminated { identity: identity(1) });
    assert!(cmds.is_empty());
    assert_eq!(mgr.peer_count(), 0);
}

#[test]
fn bootstrap_addresses_are_kept() {
    let mgr = manager(3, 10);
    assert_eq!(mgr.bootstrap_addresses(), &vec!["boot.example".to_string()]);
    assert_eq!(mgr.threshold().low(), 3);
    assert_eq!(mgr.threshold().high(), 10);
}
