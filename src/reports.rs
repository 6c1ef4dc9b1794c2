//! Reports on devices of a house.

use crate::devices::{SmartDevice, SmartSocket, SmartThermometer};
use crate::house::{devices_of, has_room, names_view, RoomView, SmartHouse};
use crate::text::same_text;
use vstd::prelude::*;

verus! {

/// The house has a room called `room` with a device called `device`.
pub open spec fn device_in_room(house: Seq<RoomView>, room: Seq<char>, device: Seq<char>) -> bool {
    has_room(house, room) && devices_of(house, room)->Some_0.contains(device)
}

/// Reports on devices of a house.
pub trait DeviceInfoProvider {
    /// The report on `house`, or the reason there is none.
    spec fn report(&self, house: Seq<RoomView>) -> Result<Seq<char>, Seq<char>>;

    fn get_state(&self, house: &SmartHouse) -> (r: Result<String, &'static str>)
        requires
            house.wf(),
        ensures
            r matches Ok(s) ==> self.report(house@) == Ok::<Seq<char>, Seq<char>>(s@),
            r matches Err(e) ==> self.report(house@) == Err::<Seq<char>, Seq<char>>(e@),
    ;

    /// Whether the house has a room called `room_name` holding `device`.
    fn check<D: SmartDevice>(house: &SmartHouse, room_name: &str, device: &D) -> (r: bool)
        requires
            house.wf(),
        ensures
            r == device_in_room(house@, room_name@, device.name_view()),
    {
        let rooms = house.get_rooms();
        let mut i: usize = 0;
        let mut found = false;
        while i < rooms.len()
            invariant
                i <= rooms@.len(),
                rooms@.len() == house@.len(),
                forall|k: int| 0 <= k < rooms@.len() ==> #[trigger] rooms@[k]@ == house@[k].0,
                found == exists|k: int| 0 <= k < i && house@[k].0 == room_name@,
            decreases rooms@.len() - i,
        {
            if same_text(rooms[i], room_name) {
                found = true;
            }
            i = i + 1;
        }
        if !found {
            return false;
        }
        match house.devices(room_name.to_owned()) {
            Some(names) => {
                let name = device.get_name();
                let mut j: usize = 0;
                while j < names.len()
                    invariant
                        Some(names_view(names@)) == devices_of(house@, room_name@),
                        name@ == device.name_view(),
                        j <= names@.len(),
                        forall|k: int| 0 <= k < j ==> names@[k]@ != name@,
                    decreases names@.len() - j,
                {
                    if same_text(names[j].as_str(), name) {
                        let ghost d = devices_of(house@, room_name@)->Some_0;
                        assert(d[j as int] == name@);
                        return true;
                    }
                    j = j + 1;
                }
                assert(!devices_of(house@, room_name@)->Some_0.contains(name@));
                false
            },
            None => false,
        }
    }
}

/// "device D in room R is active".
pub open spec fn active_line(device: Seq<char>, room: Seq<char>) -> Seq<char> {
    "device "@ + device + " in room "@ + room + " is active"@
}

fn active_text(device: &str, room: &str) -> (r: String)
    ensures
        r@ == active_line(device@, room@),
{
    let mut s = String::from_str("device ");
    s.append(device);
    s.append(" in room ");
    s.append(room);
    s.append(" is active");
    s
}

/// Reports on a socket that it holds.
pub struct OwningDeviceInfoProvider {
    pub socket: SmartSocket,
}

impl OwningDeviceInfoProvider {
    pub fn new(socket: SmartSocket) -> (r: Self)
        ensures
            r.socket == socket,
    {
        Self { socket }
    }
}

impl DeviceInfoProvider for OwningDeviceInfoProvider {
    /// The socket's line, naming the socket where the room goes, when the
    /// house has it in its room.
    open spec fn report(&self, house: Seq<RoomView>) -> Result<Seq<char>, Seq<char>> {
        if device_in_room(house, self.socket.room_name@, self.socket.device_name@) {
            Ok(active_line(self.socket.device_name@, self.socket.device_name@))
        } else {
            Err("cant find device"@)
        }
    }

    fn get_state(&self, house: &SmartHouse) -> (r: Result<String, &'static str>) {
        if !Self::check(house, self.socket.room_name.as_str(), &self.socket) {
            return Err("cant find device");
        }
        Ok(active_text(self.socket.device_name.as_str(), self.socket.device_name.as_str()))
    }
}

/// Reports on a socket and a thermometer that it borrows.
pub struct BorrowingDeviceInfoProvider<'a, 'b> {
    pub socket: &'a SmartSocket,
    pub thermo: &'b SmartThermometer,
}

impl<'a, 'b> BorrowingDeviceInfoProvider<'a, 'b> {
    pub fn new(socket: &'a SmartSocket, thermo: &'b SmartThermometer) -> (r: Self)
        ensures
            r.socket == socket,
            r.thermo == thermo,
    {
        Self { socket, thermo }
    }
}

impl DeviceInfoProvider for BorrowingDeviceInfoProvider<'_, '_> {
    /// One line for the socket and one for the thermometer, when the house
    /// has each in its room.
    open spec fn report(&self, house: Seq<RoomView>) -> Result<Seq<char>, Seq<char>> {
        if !device_in_room(house, self.socket.room_name@, self.socket.device_name@) {
            Err("device not found"@)
        } else if !device_in_room(house, self.thermo.room_name@, self.thermo.device_name@) {
            Err("cant find device"@)
        } else {
            Ok(active_line(self.socket.device_name@, self.socket.room_name@) + "\n"@ + active_line(
                self.thermo.device_name@,
                self.thermo.room_name@,
            ))
        }
    }

    fn get_state(&self, house: &SmartHouse) -> (r: Result<String, &'static str>) {
        if !Self::check(house, self.socket.room_name.as_str(), self.socket) {
            return Err("device not found");
        }
        let mut result = active_text(
            self.socket.device_name.as_str(),
            self.socket.room_name.as_str(),
        );
        if !Self::check(house, self.thermo.room_name.as_str(), self.thermo) {
            return Err("cant find device");
        }
        result.append("\n");
        let line = active_text(self.thermo.device_name.as_str(), self.thermo.room_name.as_str());
        result.append(line.as_str());
        Ok(result)
    }
}

} // verus!
