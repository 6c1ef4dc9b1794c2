//! Devices of a smart house and the house that keeps them by room.

use crate::datagram::UdpMessage;
use crate::text::{parse_u16, parse_u16_spec, same_text};
use vstd::prelude::*;

verus! {

/// A device that belongs to a room and has a name there.
pub trait SmartDevice {
    spec fn name_view(&self) -> Seq<char>;

    spec fn room_view(&self) -> Seq<char>;

    fn get_name(&self) -> (r: &str)
        ensures
            r@ == self.name_view(),
    ;

    fn get_room(&self) -> (r: &str)
        ensures
            r@ == self.room_view(),
    ;
}

/// A socket that can be switched on and off.
#[derive(PartialEq, Debug, Clone)]
pub struct SmartSocket {
    pub room_name: String,
    pub device_name: String,
    pub turned_on: bool,
}

/// Text of a boolean.
pub open spec fn bool_text(b: bool) -> Seq<char> {
    if b {
        "true"@
    } else {
        "false"@
    }
}

/// Status line of a socket: its name, repeated where the room is named,
/// and whether it is on.
pub open spec fn socket_status(name: Seq<char>, on: bool) -> Seq<char> {
    "name "@ + name + ", room: "@ + name + ", is turned on: "@ + bool_text(on)
}

/// What a socket answers to a command, given its state before the command.
pub open spec fn command_reply(command: Seq<char>, name: Seq<char>, on: bool) -> Seq<char> {
    if command == "status"@ {
        socket_status(name, on)
    } else if command == "turn 1"@ {
        "socket turned on"@
    } else if command == "turn 0"@ {
        "socket turned off"@
    } else {
        "unknown command"@
    }
}

/// Whether a socket is on after a command, given whether it was on before.
pub open spec fn state_after(command: Seq<char>, on: bool) -> bool {
    if command == "turn 1"@ {
        true
    } else if command == "turn 0"@ {
        false
    } else {
        on
    }
}

/// Whatever state a socket is in, after "turn 1" its status says it is on,
/// and after "turn 0" that it is off.
pub proof fn lemma_status_after_turn(name: Seq<char>, on: bool)
    ensures
        command_reply("status"@, name, state_after("turn 1"@, on)) == socket_status(name, true),
        command_reply("status"@, name, state_after("turn 0"@, on)) == socket_status(name, false),
{
    reveal_strlit("status");
    reveal_strlit("turn 1");
    reveal_strlit("turn 0");
    assert("turn 1"@[5] != "turn 0"@[5]);
}

impl SmartSocket {
    /// A socket that is off.
    pub fn new(room: String, device_name: String) -> (r: Self)
        ensures
            r.room_name == room,
            r.device_name == device_name,
            !r.turned_on,
    {
        Self { room_name: room, device_name, turned_on: false }
    }

    /// The status line of the socket.
    pub fn status(&self) -> (r: String)
        ensures
            r@ == socket_status(self.device_name@, self.turned_on),
    {
        let mut s = String::from_str("name ");
        s.append(self.device_name.as_str());
        s.append(", room: ");
        s.append(self.device_name.as_str());
        s.append(", is turned on: ");
        if self.turned_on {
            s.append("true");
        } else {
            s.append("false");
        }
        s
    }

    /// Switches the socket on.
    pub fn turn_on(&mut self)
        ensures
            final(self).turned_on,
            final(self).room_name == old(self).room_name,
            final(self).device_name == old(self).device_name,
    {
        self.turned_on = true;
    }

    /// Switches the socket off.
    pub fn turn_off(&mut self)
        ensures
            !final(self).turned_on,
            final(self).room_name == old(self).room_name,
            final(self).device_name == old(self).device_name,
    {
        self.turned_on = false;
    }

    /// Serves one command: "status" reports, "turn 1" and "turn 0" switch
    /// the socket; anything else is unknown and changes nothing.
    pub fn process_command(&mut self, command: &str) -> (r: String)
        ensures
            r@ == command_reply(command@, old(self).device_name@, old(self).turned_on),
            final(self).turned_on == state_after(command@, old(self).turned_on),
            final(self).room_name == old(self).room_name,
            final(self).device_name == old(self).device_name,
    {
        if same_text(command, "status") {
            proof {
                reveal_strlit("status");
                reveal_strlit("turn 1");
                reveal_strlit("turn 0");
                assert("status"@[0] != "turn 1"@[0]);
                assert("status"@[0] != "turn 0"@[0]);
            }
            self.status()
        } else if same_text(command, "turn 1") {
            self.turn_on();
            String::from_str("socket turned on")
        } else if same_text(command, "turn 0") {
            self.turn_off();
            String::from_str("socket turned off")
        } else {
            String::from_str("unknown command")
        }
    }
}

impl SmartDevice for SmartSocket {
    open spec fn name_view(&self) -> Seq<char> {
        self.device_name@
    }

    open spec fn room_view(&self) -> Seq<char> {
        self.room_name@
    }

    fn get_name(&self) -> (r: &str) {
        self.device_name.as_str()
    }

    fn get_room(&self) -> (r: &str) {
        self.room_name.as_str()
    }
}

/// A thermometer and the last temperature reported to it.
#[derive(PartialEq, Debug, Clone)]
pub struct SmartThermometer {
    pub room_name: String,
    pub device_name: String,
    pub temp: u16,
}

impl SmartThermometer {
    /// A thermometer that has not had a report yet: its temperature is 0.
    pub fn new(room_name: String, device_name: String) -> (r: Self)
        ensures
            r.room_name == room_name,
            r.device_name == device_name,
            r.temp == 0,
    {
        Self { room_name, device_name, temp: 0 }
    }
}

impl SmartDevice for SmartThermometer {
    open spec fn name_view(&self) -> Seq<char> {
        self.device_name@
    }

    open spec fn room_view(&self) -> Seq<char> {
        self.room_name@
    }

    fn get_name(&self) -> (r: &str) {
        self.device_name.as_str()
    }

    fn get_room(&self) -> (r: &str) {
        self.room_name.as_str()
    }
}

/// Keeps a thermometer's temperature up to date from the reports it receives.
#[derive(Debug, Clone)]
pub struct ThermometerUdpMessageProcessor {
    pub therm: SmartThermometer,
}

impl ThermometerUdpMessageProcessor {
    pub fn create(therm: SmartThermometer) -> (r: Self)
        ensures
            r.therm == therm,
    {
        Self { therm }
    }

    /// Takes a report: a decimal number becomes the temperature; anything
    /// else is refused and changes nothing. Tells whether the report was taken.
    pub fn process(&mut self, message: &UdpMessage) -> (r: bool)
        ensures
            r == parse_u16_spec(message.message@) is Some,
            final(self).therm.temp == match parse_u16_spec(message.message@) {
                Some(t) => t,
                None => old(self).therm.temp,
            },
            final(self).therm.room_name == old(self).therm.room_name,
            final(self).therm.device_name == old(self).therm.device_name,
    {
        match parse_u16(message.message.as_str()) {
            Some(t) => {
                self.therm.temp = t;
                true
            },
            None => false,
        }
    }
}

} // verus!
