//! The peer population controller: a single-owner state machine that reads the
//! registry, consults the threshold policy, replenishes the candidate pool from
//! bootstrap resolution, and issues connect/stop commands. Creation and
//! termination events reconcile the registry independently of the tick.
//!
//! The surrounding process owns the timer, the event subscriptions and the
//! name resolver; it serializes all three input sources into calls on one
//! `PeerManager` value and hands each tick the outcome of resolving every
//! configured bootstrap host.

use vstd::prelude::*;
use crate::address::{HostResolution, PeerAddress};
use crate::policy::{Action, Threshold};
use crate::pool::{resolved_addresses, PotentialPeerPool};
use crate::registry::{eviction_selection, is_registered_handle, PeerHandle, PeerIdentity,
    PeerRegistry};

verus! {

/// Outbound, fire-and-forget command to the external network dispatcher.
#[derive(Clone, Copy, Debug, PartialEq, Eq, Structural)]
pub enum Command {
    /// Ask the dispatcher to establish a connection; success is observed later
    /// as a creation event.
    ConnectToPeer { address: PeerAddress },
    /// Ask the dispatcher to terminate a connection; the registry entry leaves
    /// only when the matching termination event arrives.
    StopPeer { handle: PeerHandle },
}

/// One input for the controller's worker: the periodic tick, carrying that
/// round's bootstrap resolution outcomes, or one of the two inbound
/// connection-lifecycle notifications.
#[derive(Debug)]
pub enum PeerManagerMsg {
    CheckThreshold { resolutions: Vec<HostResolution> },
    PeerCreated { identity: PeerIdentity, handle: PeerHandle },
    ActorTerminated { identity: PeerIdentity },
}

/// The addresses that a command list asks the dispatcher to connect;
/// meaningful where every command is a connect command.
pub open spec fn connect_targets(cmds: Seq<Command>) -> Seq<PeerAddress> {
    cmds.map_values(
        |c: Command|
            match c {
                Command::ConnectToPeer { address } => address,
                Command::StopPeer { .. } => vstd::pervasive::arbitrary::<PeerAddress>(),
            },
    )
}

/// The handles that a command list asks the dispatcher to stop; meaningful
/// where every command is a stop command.
pub open spec fn stop_targets(cmds: Seq<Command>) -> Seq<PeerHandle> {
    cmds.map_values(
        |c: Command|
            match c {
                Command::StopPeer { handle } => handle,
                Command::ConnectToPeer { .. } => vstd::pervasive::arbitrary::<PeerHandle>(),
            },
    )
}

/// The aggregate controller state: policy, bootstrap configuration, candidate
/// pool and peer registry, owned by one worker for the process lifetime.
pub struct PeerManager {
    threshold: Threshold,
    bootstrap_addresses: Vec<String>,
    potential_peers: PotentialPeerPool,
    peers: PeerRegistry,
}

impl PeerManager {
    /// The configured watermark pair.
    pub closed spec fn spec_threshold(self) -> Threshold {
        self.threshold
    }

    /// The candidate addresses currently pooled.
    pub closed spec fn spec_pool(self) -> Set<PeerAddress> {
        self.potential_peers@
    }

    /// The mapping of currently connected peers.
    pub closed spec fn spec_peers(self) -> Map<Seq<char>, PeerHandle> {
        self.peers@
    }

    /// The configured bootstrap hostnames.
    pub closed spec fn spec_bootstrap(self) -> Seq<Seq<char>> {
        self.bootstrap_addresses@.map_values(|s: String| s@)
    }

    /// Controller validity: the band is well-formed and both stores hold their
    /// own invariants.
    pub closed spec fn wf(self) -> bool {
        &&& self.threshold.wf()
        &&& self.potential_peers.wf()
        &&& self.peers.wf()
    }

    /// Builds a controller around an already validated threshold, a fixed
    /// bootstrap host list, and the initially known candidate addresses.
    pub fn new(
        bootstrap_addresses: Vec<String>,
        initial_peers: &Vec<PeerAddress>,
        threshold: Threshold,
    ) -> (r: PeerManager)
        requires
            threshold.wf(),
        ensures
            r.wf(),
            r.spec_threshold() == threshold,
            r.spec_bootstrap() == bootstrap_addresses@.map_values(|s: String| s@),
            r.spec_pool() == initial_peers@.to_set(),
            r.spec_peers() == Map::<Seq<char>, PeerHandle>::empty(),
    {
        PeerManager {
            threshold,
            bootstrap_addresses,
            potential_peers: PotentialPeerPool::from_initial_peers(initial_peers),
            peers: PeerRegistry::new(),
        }
    }

    /// Number of peers currently believed connected.
    pub fn peer_count(&self) -> (r: usize)
        requires
            self.wf(),
        ensures
            r == self.spec_peers().dom().len(),
    {
        self.peers.size()
    }

    /// Number of candidate addresses currently pooled.
    pub fn potential_peer_count(&self) -> (r: usize)
        requires
            self.wf(),
        ensures
            r == self.spec_pool().len(),
    {
        self.potential_peers.len()
    }

    /// The configured bootstrap hostnames, for the caller that performs the
    /// actual name resolution.
    pub fn bootstrap_addresses(&self) -> (r: &Vec<String>)
        ensures
            r@.map_values(|s: String| s@) == self.spec_bootstrap(),
    {
        &self.bootstrap_addresses
    }

    /// The configured watermark pair.
    pub fn threshold(&self) -> (r: Threshold)
        ensures
            r == self.spec_threshold(),
    {
        self.threshold
    }

    /// Reconciles one connection-created notification: the peer is tracked
    /// under its identity; an unexpected repeat replaces the stored handle.
    pub fn handle_peer_created(&mut self, identity: PeerIdentity, handle: PeerHandle)
        requires
            old(self).wf(),
        ensures
            final(self).wf(),
            final(self).spec_peers() == old(self).spec_peers().insert(identity@, handle),
            final(self).spec_pool() == old(self).spec_pool(),
            final(self).spec_threshold() == old(self).spec_threshold(),
            final(self).spec_bootstrap() == old(self).spec_bootstrap(),
    {
        self.peers.insert(identity, handle);
    }

    /// Reconciles one lifecycle-termination notification: a tracked peer is
    /// forgotten; an untracked identity changes nothing and is no error.
    pub fn handle_actor_terminated(&mut self, identity: &PeerIdentity)
        requires
            old(self).wf(),
        ensures
            final(self).wf(),
            final(self).spec_peers() == old(self).spec_peers().remove(identity@),
            !old(self).spec_peers().dom().contains(identity@) ==> final(self).spec_peers() == old(
                self,
            ).spec_peers(),
            final(self).spec_pool() == old(self).spec_pool(),
            final(self).spec_threshold() == old(self).spec_threshold(),
            final(self).spec_bootstrap() == old(self).spec_bootstrap(),
    {
        self.peers.remove(identity);
    }

    /// What one control-loop tick does, as a relation between the state before
    /// the tick, the state after it, that round's resolution outcomes, and the
    /// commands issued: no commands inside the band; exactly the excess asked
    /// to stop above it, without touching the registry; and below it, the pool
    /// is replenished only if under-supplied, then up to the shortfall of
    /// candidates leave the pool as connect commands.
    pub open spec fn tick_transition(
        pre: PeerManager,
        post: PeerManager,
        resolutions: Seq<HostResolution>,
        cmds: Seq<Command>,
    ) -> bool {
        let t = pre.spec_threshold();
        let c = pre.spec_peers().dom().len() as int;
        &&& post.spec_threshold() == t
        &&& post.spec_bootstrap() == pre.spec_bootstrap()
        &&& post.spec_peers() == pre.spec_peers()
        &&& match t.spec_evaluate(c) {
            Action::NoOp => {
                &&& post.spec_pool() == pre.spec_pool()
                &&& cmds == Seq::<Command>::empty()
            },
            Action::ShedPeers(n) => {
                &&& post.spec_pool() == pre.spec_pool()
                &&& cmds.len() == vstd::math::min(n as int, c)
                &&& forall|i: int|
                    0 <= i < cmds.len() ==> ((#[trigger] cmds[i]) matches Command::StopPeer {
                        handle,
                    } && is_registered_handle(pre.spec_peers(), handle))
                &&& exists|ks: Seq<Seq<char>>|
                    eviction_selection(pre.spec_peers(), ks, stop_targets(cmds))
            },
            Action::AcquirePeers(n) => {
                let merged = if pre.spec_pool().len() < n {
                    pre.spec_pool().union(resolved_addresses(resolutions))
                } else {
                    pre.spec_pool()
                };
                &&& forall|i: int| 0 <= i < cmds.len() ==> (#[trigger] cmds[i]) is ConnectToPeer
                &&& connect_targets(cmds).no_duplicates()
                &&& connect_targets(cmds).to_set().subset_of(merged)
                &&& cmds.len() == vstd::math::min(n as int, merged.len() as int)
                &&& post.spec_pool() == merged.difference(connect_targets(cmds).to_set())
                &&& post.spec_pool().len() == merged.len() - cmds.len()
            },
        }
    }

    /// One firing of the recurring control task. `resolutions` holds the
    /// outcome of resolving each configured bootstrap host this round; it is
    /// consulted only when the tick decides to acquire and finds the pool
    /// under-supplied, and a failed entry only loses that host's addresses.
    pub fn check_threshold(&mut self, resolutions: &Vec<HostResolution>) -> (cmds: Vec<Command>)
        requires
            old(self).wf(),
        ensures
            final(self).wf(),
            Self::tick_transition(*old(self), *final(self), resolutions@, cmds@),
    {
        let count = self.peers.size();
        match self.threshold.evaluate(count) {
            Action::AcquirePeers(needed) => {
                let ghost pre_pool = self.potential_peers@;
                let ghost merged = if pre_pool.len() < needed {
                    pre_pool.union(resolved_addresses(resolutions@))
                } else {
                    pre_pool
                };
                self.potential_peers.ensure_candidates(needed, resolutions);
                let addrs = self.potential_peers.take(needed);
                let mut cmds: Vec<Command> = Vec::new();
                let mut i: usize = 0;
                while i < addrs.len()
                    invariant
                        i <= addrs.len(),
                        connect_targets(cmds@) == addrs@.take(i as int),
                        forall|j: int| 0 <= j < i ==> (#[trigger] cmds@[j]) is ConnectToPeer,
                        cmds@.len() == i,
                    decreases addrs.len() - i,
                {
                    cmds.push(Command::ConnectToPeer { address: addrs[i] });
                    proof {
                        assert(connect_targets(cmds@) =~= addrs@.take(i + 1));
                    }
                    i += 1;
                }
                proof {
                    assert(addrs@.take(addrs@.len() as int) =~= addrs@);
                    assert(connect_targets(cmds@) == addrs@);
                }
                cmds
            },
            Action::ShedPeers(excess) => {
                let handles = self.peers.select_for_eviction(excess);
                let mut cmds: Vec<Command> = Vec::new();
                let mut i: usize = 0;
                while i < handles.len()
                    invariant
                        i <= handles.len(),
                        cmds@.len() == i,
                        self.wf(),
                        self == old(self),
                        handles@.len() == vstd::math::min(
                            excess as int,
                            self.spec_peers().dom().len() as int,
                        ),
                        exists|ks: Seq<Seq<char>>|
                            eviction_selection(self.spec_peers(), ks, handles@),
                        forall|j: int|
                            0 <= j < handles@.len() ==> is_registered_handle(
                                self.spec_peers(),
                                #[trigger] handles@[j],
                            ),
                        stop_targets(cmds@) == handles@.take(i as int),
                        forall|j: int|
                            0 <= j < i ==> ((#[trigger] cmds@[j]) matches Command::StopPeer {
                                handle,
                            } && is_registered_handle(self.spec_peers(), handle)),
                    decreases handles.len() - i,
                {
                    cmds.push(Command::StopPeer { handle: handles[i] });
                    proof {
                        assert(stop_targets(cmds@) =~= handles@.take(i + 1));
                    }
                    i += 1;
                }
                proof {
                    assert(handles@.take(handles@.len() as int) =~= handles@);
                    assert(stop_targets(cmds@) == handles@);
                }
                cmds
            },
            Action::NoOp => {
                let cmds: Vec<Command> = Vec::new();
                proof {
                    assert(cmds@ =~= Seq::<Command>::empty());
                }
                cmds
            },
        }
    }

    /// The worker's single entry point: dispatches one input, in arrival
    /// order, to the tick or to the event reconciler. Only a tick can issue
    /// commands; the two reconciliation events never do.
    pub fn receive(&mut self, msg: PeerManagerMsg) -> (cmds: Vec<Command>)
        requires
            old(self).wf(),
        ensures
            final(self).wf(),
            msg matches PeerManagerMsg::CheckThreshold { resolutions } ==> Self::tick_transition(
                *old(self),
                *final(self),
                resolutions@,
                cmds@,
            ),
            msg matches PeerManagerMsg::PeerCreated { identity, handle } ==> {
                &&& final(self).spec_peers() == old(self).spec_peers().insert(identity@, handle)
                &&& final(self).spec_pool() == old(self).spec_pool()
                &&& cmds@ == Seq::<Command>::empty()
            },
            msg matches PeerManagerMsg::ActorTerminated { identity } ==> {
                &&& final(self).spec_peers() == old(self).spec_peers().remove(identity@)
                &&& final(self).spec_pool() == old(self).spec_pool()
                &&& cmds@ == Seq::<Command>::empty()
            },
    {
        match msg {
            PeerManagerMsg::CheckThreshold { resolutions } => self.check_threshold(&resolutions),
            PeerManagerMsg::PeerCreated { identity, handle } => {
                self.handle_peer_created(identity, handle);
                let cmds: Vec<Command> = Vec::new();
                proof {
                    assert(cmds@ =~= Seq::<Command>::empty());
                }
                cmds
            },
            PeerManagerMsg::ActorTerminated { identity } => {
                self.handle_actor_terminated(&identity);
                let cmds: Vec<Command> = Vec::new();
                proof {
                    assert(cmds@ =~= Seq::<Command>::empty());
                }
                cmds
            },
        }
    }
}

} // verus!
