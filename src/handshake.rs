//! The version exchange that opens every stream connection: the initiator
//! writes its four-byte token and reads one back; the acceptor reads four
//! bytes, compares them with its own token and, when they agree, writes its
//! token back.

use crate::error::{ConnectError, ConnectResult};
use crate::text::{decimal, push_decimal};
use vstd::prelude::*;

verus! {

/// The protocol version token, ASCII "0001".
pub const PROTO_VER: [u8; 4] = [48, 48, 48, 49];

/// The version token as a sequence of bytes.
pub open spec fn proto_ver() -> Seq<u8> {
    seq![48u8, 48u8, 48u8, 49u8]
}

/// The protocol version token.
pub fn protocol_version() -> (r: [u8; 4])
    ensures
        r@ == proto_ver(),
{
    let r = PROTO_VER;
    assert(r@ =~= proto_ver());
    r
}

/// Exact equality of two tokens.
pub fn handshake(left: [u8; 4], right: [u8; 4]) -> (r: bool)
    ensures
        r == (left@ == right@),
{
    let mut i: usize = 0;
    while i < 4
        invariant
            i <= 4,
            forall|k: int| 0 <= k < i ==> left@[k] == right@[k],
        decreases 4 - i,
    {
        if left[i] != right[i] {
            return false;
        }
        i = i + 1;
    }
    assert(left@ =~= right@);
    true
}

/// Text of a rejected token: "received: [b0, b1, b2, b3]" with the bytes
/// in decimal.
pub open spec fn received_text(b: Seq<u8>) -> Seq<char> {
    "received: ["@ + decimal(b[0] as nat) + ", "@ + decimal(b[1] as nat) + ", "@ + decimal(
        b[2] as nat,
    ) + ", "@ + decimal(b[3] as nat) + "]"@
}

/// Describes the bytes of a rejected token.
pub fn describe_received(buf: [u8; 4]) -> (r: String)
    ensures
        r@ == received_text(buf@),
{
    let mut s = String::from_str("received: [");
    push_decimal(&mut s, buf[0] as u64);
    s.append(", ");
    push_decimal(&mut s, buf[1] as u64);
    s.append(", ");
    push_decimal(&mut s, buf[2] as u64);
    s.append(", ");
    push_decimal(&mut s, buf[3] as u64);
    s.append("]");
    s
}

/// An end holding token `own` accepts the token `received` from its peer.
pub open spec fn token_accepted(own: Seq<u8>, received: Seq<u8>) -> bool {
    received == own
}

/// The failure for a token that does not match.
pub open spec fn is_bad_handshake(e: ConnectError, received: Seq<u8>) -> bool {
    e matches ConnectError::BadHandshake(m) && m@ == received_text(received)
}

/// Initiator's verdict on the token the acceptor wrote back.
pub fn check_reply(own: [u8; 4], received: [u8; 4]) -> (r: ConnectResult<()>)
    ensures
        r is Ok <==> token_accepted(own@, received@),
        r matches Err(e) ==> is_bad_handshake(e, received@),
{
    if handshake(received, own) {
        Ok(())
    } else {
        Err(ConnectError::BadHandshake(describe_received(received)))
    }
}

/// Acceptor's verdict on the token the initiator wrote: on agreement, the
/// token to write back.
pub fn answer_greeting(own: [u8; 4], received: [u8; 4]) -> (r: ConnectResult<[u8; 4]>)
    ensures
        r is Ok <==> token_accepted(own@, received@),
        r matches Ok(reply) ==> reply@ == own@,
        r matches Err(e) ==> is_bad_handshake(e, received@),
{
    if handshake(received, own) {
        Ok(own)
    } else {
        Err(ConnectError::BadHandshake(describe_received(received)))
    }
}

/// Both ends with the same token: the acceptor takes the initiator's token
/// and the initiator takes the token the acceptor writes back. Tokens that
/// differ in any byte: each end rejects the token it receives from the other.
pub proof fn lemma_handshake_symmetry(initiator: Seq<u8>, acceptor: Seq<u8>)
    requires
        initiator.len() == 4,
        acceptor.len() == 4,
    ensures
        initiator == acceptor ==> token_accepted(acceptor, initiator) && token_accepted(
            initiator,
            acceptor,
        ),
        initiator != acceptor ==> !token_accepted(acceptor, initiator) && !token_accepted(
            initiator,
            acceptor,
        ),
{
}

} // verus!
