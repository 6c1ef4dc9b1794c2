//! Datagram messages: a frame's length and its payload travel as two
//! datagrams, with no handshake and no connection; each message carries the
//! address it came from.

use crate::error::RecvError;
use crate::frame::decode_payload;
use vstd::prelude::*;
use vstd::utf8::{decode_utf8, valid_utf8};

verus! {

/// A text received from a peer, with the peer's address as text.
#[derive(Debug, Clone)]
pub struct UdpMessage {
    pub source: String,
    pub message: String,
}

/// The message that the payload bytes of a datagram frame from `source` carry.
pub fn receive_message(source: String, payload: Vec<u8>) -> (r: Result<UdpMessage, RecvError>)
    ensures
        r is Ok <==> valid_utf8(payload@),
        r matches Ok(m) ==> m.source == source && m.message@ == decode_utf8(payload@),
        r matches Err(e) ==> e is BadEncoding,
{
    match decode_payload(payload) {
        Ok(message) => Ok(UdpMessage { source, message }),
        Err(e) => Err(e),
    }
}

} // verus!
