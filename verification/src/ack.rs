//! Acknowledgement message of the peer-to-peer handshake: a positive ack, a
//! bare legacy nack, or a nack with a motive and alternative peers to try.

use vstd::prelude::*;

verus! {

/// Why a connection attempt was nacked.
#[derive(Clone, Copy, Debug, PartialEq, Eq, Structural)]
pub enum NackMotive {
    NoMotive,
    TooManyConnections,
    UnknownChainName,
    DeprecatedP2pVersion,
    DeprecatedDistributedDbVersion,
    AlreadyConnected,
}

/// Details of a nack: the motive and peers the refusing node suggests instead.
#[derive(Clone, Debug, PartialEq)]
pub struct NackInfo {
    motive: NackMotive,
    potential_peers_to_connect: Vec<String>,
}

/// The handshake acknowledgement.
#[derive(Clone, Debug, PartialEq)]
pub enum AckMessage {
    Ack,
    NackV0,
    Nack(NackInfo),
}

impl NackInfo {
    /// The stored motive.
    pub closed spec fn spec_motive(self) -> NackMotive {
        self.motive
    }

    /// The stored peer suggestions.
    pub closed spec fn spec_potential_peers(self) -> Seq<Seq<char>> {
        self.potential_peers_to_connect@.map_values(|s: String| s@)
    }

    /// Builds a nack from its motive and a borrowed list of suggested peers.
    pub fn new(motive: NackMotive, potential_peers_to_connect: &Vec<String>) -> (r: Self)
        ensures
            r.spec_motive() == motive,
            r.spec_potential_peers() == potential_peers_to_connect@.map_values(|s: String| s@),
    {
        let mut peers: Vec<String> = Vec::new();
        let mut i: usize = 0;
        while i < potential_peers_to_connect.len()
            invariant
                i <= potential_peers_to_connect@.len(),
                peers@ == potential_peers_to_connect@.take(i as int),
            decreases potential_peers_to_connect@.len() - i,
        {
            peers.push(potential_peers_to_connect[i].clone());
            proof {
                assert(potential_peers_to_connect@.take(i + 1) =~= potential_peers_to_connect@.take(
                    i as int,
                ).push(potential_peers_to_connect@[i as int]));
            }
            i += 1;
        }
        proof {
            assert(potential_peers_to_connect@.take(potential_peers_to_connect@.len() as int)
                =~= potential_peers_to_connect@);
        }
        NackInfo { motive, potential_peers_to_connect: peers }
    }

    /// The motive of this nack.
    pub fn motive(&self) -> (r: &NackMotive)
        ensures
            *r == self.spec_motive(),
    {
        &self.motive
    }

    /// The peers the refusing node suggests connecting instead.
    pub fn potential_peers_to_connect(&self) -> (r: &Vec<String>)
        ensures
            r@.map_values(|s: String| s@) == self.spec_potential_peers(),
    {
        &self.potential_peers_to_connect
    }
}

} // verus!
