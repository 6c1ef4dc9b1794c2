//! The acceptor's side of one stream connection, apart from its I/O: it
//! takes the peer's greeting, then serves one request at a time until the
//! peer goes away. A connection whose greeting was refused serves nothing.

use crate::devices::{command_reply, state_after, SmartSocket};
use crate::error::{ConnectError, ConnectResult, RecvResult};
use crate::handshake::{
    answer_greeting, describe_received, is_bad_handshake, proto_ver, protocol_version, token_accepted,
};
use vstd::prelude::*;

verus! {

/// Where a connection stands.
#[derive(Debug, Clone, Copy, PartialEq, Eq, Structural)]
pub enum Phase {
    /// Waiting for the peer's version token.
    Greeting,
    /// Handshake done: requests are served.
    Serving,
    /// Refused or finished: nothing more is read or written.
    Closed,
}

/// Where a connection stands after its greeting.
pub open spec fn phase_after_greeting(phase: Phase, received: Seq<u8>) -> Phase {
    if phase == Phase::Greeting && token_accepted(proto_ver(), received) {
        Phase::Serving
    } else {
        Phase::Closed
    }
}

/// A connection answers a request when it serves and the request was read well.
pub open spec fn serves(phase: Phase, read_ok: bool) -> bool {
    phase == Phase::Serving && read_ok
}

/// Where a connection stands after a request was read, well or not.
pub open spec fn phase_after_request(phase: Phase, read_ok: bool) -> Phase {
    if serves(phase, read_ok) {
        Phase::Serving
    } else {
        Phase::Closed
    }
}

/// Where a connection stands after a run of requests.
pub open spec fn phase_after_requests(phase: Phase, reads: Seq<bool>) -> Phase
    decreases reads.len(),
{
    if reads.len() == 0 {
        phase
    } else {
        phase_after_request(phase_after_requests(phase, reads.drop_last()), reads.last())
    }
}

/// The acceptor's side of one stream connection.
#[derive(Debug)]
pub struct ServerSession {
    pub phase: Phase,
}

impl ServerSession {
    /// A connection just accepted, waiting for the greeting.
    pub fn new() -> (r: Self)
        ensures
            r.phase == Phase::Greeting,
    {
        ServerSession { phase: Phase::Greeting }
    }

    /// Takes the four bytes the peer sent first. On agreement, the token to
    /// write back, and the connection serves requests; otherwise it closes.
    /// Only a connection waiting for its greeting takes one.
    pub fn on_greeting(&mut self, received: [u8; 4]) -> (r: ConnectResult<[u8; 4]>)
        ensures
            final(self).phase == phase_after_greeting(old(self).phase, received@),
            r is Ok <==> final(self).phase == Phase::Serving,
            r matches Ok(reply) ==> reply@ == proto_ver(),
            r matches Err(e) ==> is_bad_handshake(e, received@),
    {
        if self.phase != Phase::Greeting {
            self.phase = Phase::Closed;
            return Err(ConnectError::BadHandshake(describe_received(received)));
        }
        let r = answer_greeting(protocol_version(), received);
        match r {
            Ok(_) => self.phase = Phase::Serving,
            Err(_) => self.phase = Phase::Closed,
        }
        r
    }

    /// Takes the outcome of reading one request frame. A connection that
    /// serves answers a request with the socket's reply and goes on serving;
    /// a failed read closes it. A connection that does not serve answers
    /// nothing and leaves the socket alone.
    pub fn on_request(&mut self, socket: &mut SmartSocket, request: RecvResult) -> (r: Option<
        String,
    >)
        ensures
            final(self).phase == phase_after_request(old(self).phase, request is Ok),
            r is Some <==> serves(old(self).phase, request is Ok),
            serves(old(self).phase, request is Ok) ==> {
                let cmd = request->Ok_0@;
                &&& r matches Some(reply) && reply@ == command_reply(
                    cmd,
                    old(socket).device_name@,
                    old(socket).turned_on,
                )
                &&& final(socket).turned_on == state_after(cmd, old(socket).turned_on)
            },
            !serves(old(self).phase, request is Ok) ==> final(socket).turned_on == old(
                socket,
            ).turned_on,
            final(socket).room_name == old(socket).room_name,
            final(socket).device_name == old(socket).device_name,
    {
        if self.phase != Phase::Serving {
            self.phase = Phase::Closed;
            return None;
        }
        match request {
            Ok(command) => Some(socket.process_command(command.as_str())),
            Err(_) => {
                self.phase = Phase::Closed;
                None
            },
        }
    }
}

/// A connection whose greeting was refused serves no request, however
/// many arrive and whether or not they were read well.
pub proof fn lemma_refused_serves_nothing(phase: Phase, received: Seq<u8>, requests: Seq<bool>)
    requires
        !token_accepted(proto_ver(), received),
    ensures
        forall|k: int|
            0 <= k < requests.len() ==> !serves(
                phase_after_requests(
                    phase_after_greeting(phase, received),
                    #[trigger] requests.subrange(0, k),
                ),
                requests[k],
            ),
{
    assert forall|k: int| 0 <= k < requests.len() implies phase_after_requests(
        phase_after_greeting(phase, received),
        #[trigger] requests.subrange(0, k),
    ) == Phase::Closed by {
        lemma_closed_stays_closed(requests.subrange(0, k));
    }
}

/// A closed connection stays closed.
pub proof fn lemma_closed_stays_closed(requests: Seq<bool>)
    ensures
        phase_after_requests(Phase::Closed, requests) == Phase::Closed,
    decreases requests.len(),
{
    if requests.len() > 0 {
        lemma_closed_stays_closed(requests.drop_last());
    }
}

} // verus!
