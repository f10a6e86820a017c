//! Plain representation of candidate network addresses, and the outcome of
//! resolving one configured bootstrap hostname.

use vstd::prelude::*;

verus! {

/// Port that the overlay network listens on by default. A resolver that hands
/// back only host information yields entries with port `0`, which are
/// normalized to this port before they enter the candidate pool.
pub const STANDARD_PORT: u16 = 9732;

/// A candidate network address, as the plain values the controller reads: the
/// address family, the numeric host address, and the port.
#[derive(Clone, Copy, Debug, Hash, PartialEq, Eq, Structural)]
pub struct PeerAddress {
    pub is_v6: bool,
    pub ip: u128,
    pub port: u16,
}

impl PeerAddress {
    /// The same address with port `0` replaced by the overlay's standard port.
    pub open spec fn spec_normalize(self) -> PeerAddress {
        if self.port == 0 {
            PeerAddress { is_v6: self.is_v6, ip: self.ip, port: STANDARD_PORT }
        } else {
            self
        }
    }

    /// Fills in the overlay's standard port on an address whose resolution
    /// carried no port information.
    pub fn with_default_port(self) -> (r: PeerAddress)
        ensures
            r == self.spec_normalize(),
    {
        if self.port == 0 {
            PeerAddress { is_v6: self.is_v6, ip: self.ip, port: STANDARD_PORT }
        } else {
            self
        }
    }
}

/// A failed name resolution for one bootstrap host. Failures are logged by the
/// caller and skipped; they never abort the rest of a lookup round.
#[derive(Clone, Debug)]
pub struct LookupFailure {
    pub message: String,
}

/// What resolving one configured bootstrap hostname produced: either a list of
/// addresses (ports possibly absent, i.e. `0`), or a failure for that host alone.
pub type HostResolution = Result<Vec<PeerAddress>, LookupFailure>;

} // verus!
