//! The connection message that opens the peer-to-peer handshake: the node's
//! listening port, its public key and proof-of-work stamp (configured as hex
//! text), a nonce, and the protocol versions it speaks.

use vstd::prelude::*;

verus! {

/// A hex digit, upper or lower case.
pub open spec fn is_hex_digit(c: char) -> bool {
    ('0' <= c && c <= '9') || ('a' <= c && c <= 'f') || ('A' <= c && c <= 'F')
}

/// The value of one hex digit.
pub open spec fn hex_digit_value(c: char) -> int {
    if '0' <= c && c <= '9' {
        c as int - '0' as int
    } else if 'a' <= c && c <= 'f' {
        c as int - 'a' as int + 10
    } else {
        c as int - 'A' as int + 10
    }
}

/// A string decodes as hex: an even number of characters, all hex digits.
pub open spec fn spec_is_valid_hex(s: Seq<char>) -> bool {
    s.len() % 2 == 0 && forall|i: int| 0 <= i < s.len() ==> is_hex_digit(#[trigger] s[i])
}

/// The bytes a hex string denotes, one per digit pair.
pub open spec fn spec_hex_decode(s: Seq<char>) -> Seq<u8> {
    Seq::new(
        s.len() / 2,
        |i: int| (hex_digit_value(s[2 * i]) * 16 + hex_digit_value(s[2 * i + 1])) as u8,
    )
}

/// Relies on hex::decode: it returns the bytes denoted by a string of hex
/// digit pairs, upper or lower case, and an error exactly when the input has
/// odd length or holds a non-digit.
#[verifier::external_body]
fn hex_decode(s: &str) -> (r: Result<Vec<u8>, hex::FromHexError>)
    ensures
        r is Ok <==> spec_is_valid_hex(s@),
        r matches Ok(v) ==> v@ == spec_hex_decode(s@),
{
    hex::decode(s)
}

/// Error of hex decoding, as the hex crate reports it.
#[verifier::external_type_specification]
#[verifier::external_body]
pub struct ExFromHexError(hex::FromHexError);

/// One protocol version a node announces: the chain it serves and the
/// versions of its distributed DB and p2p layers.
#[derive(Clone, Debug, PartialEq)]
pub struct NetworkVersion {
    pub chain_name: String,
    pub distributed_db_version: u16,
    pub p2p_version: u16,
}

/// The handshake-opening message.
#[derive(Clone, Debug)]
pub struct ConnectionMessage {
    pub port: u16,
    pub versions: Vec<NetworkVersion>,
    pub public_key: Vec<u8>,
    pub proof_of_work_stamp: Vec<u8>,
    pub message_nonce: Vec<u8>,
}

impl ConnectionMessage {
    /// Builds the message, decoding the configured public key and
    /// proof-of-work stamp from hex text. Both inputs must be valid hex.
    pub fn new(
        port: u16,
        public_key: &str,
        proof_of_work_stamp: &str,
        message_nonce: &Vec<u8>,
        versions: Vec<NetworkVersion>,
    ) -> (r: ConnectionMessage)
        requires
            spec_is_valid_hex(public_key@),
            spec_is_valid_hex(proof_of_work_stamp@),
        ensures
            r.port == port,
            r.versions == versions,
            r.public_key@ == spec_hex_decode(public_key@),
            r.proof_of_work_stamp@ == spec_hex_decode(proof_of_work_stamp@),
            r.message_nonce@ == message_nonce@,
    {
        let public_key = match hex_decode(public_key) {
            Ok(v) => v,
            Err(_) => vstd::pervasive::unreached(),
        };
        let proof_of_work_stamp = match hex_decode(proof_of_work_stamp) {
            Ok(v) => v,
            Err(_) => vstd::pervasive::unreached(),
        };
        ConnectionMessage {
            port,
            versions,
            public_key,
            proof_of_work_stamp,
            message_nonce: vstd::slice::slice_to_vec(message_nonce.as_slice()),
        }
    }
}

} // verus!
