//! A smart house: rooms in the order they were added, each with the names
//! of its devices. Room names are unique in a house, and device names are
//! unique in a room.

use crate::devices::SmartDevice;
use crate::reports::DeviceInfoProvider;
use crate::text::same_text;
use vstd::prelude::*;

verus! {

/// A room and the names of its devices, as the house describes it.
pub type RoomView = (Seq<char>, Seq<Seq<char>>);

/// A room of the house.
#[derive(Debug)]
pub struct Room {
    pub name: String,
    pub devices: Vec<String>,
}

/// The texts of a list of names.
pub open spec fn names_view(v: Seq<String>) -> Seq<Seq<char>> {
    v.map_values(|s: String| s@)
}

pub open spec fn room_view(r: Room) -> RoomView {
    (r.name@, names_view(r.devices@))
}

pub open spec fn rooms_view(v: Seq<Room>) -> Seq<RoomView> {
    v.map_values(|r: Room| room_view(r))
}

/// No name occurs twice.
pub open spec fn unique_names(v: Seq<Seq<char>>) -> bool {
    forall|i: int, j: int| 0 <= i < v.len() && 0 <= j < v.len() && v[i] == v[j] ==> i == j
}

/// Room names are unique and so are device names within each room.
pub open spec fn rooms_wf(v: Seq<RoomView>) -> bool {
    &&& forall|i: int, j: int| 0 <= i < v.len() && 0 <= j < v.len() && v[i].0 == v[j].0 ==> i == j
    &&& forall|i: int| 0 <= i < v.len() ==> unique_names(#[trigger] v[i].1)
}

pub open spec fn has_room(v: Seq<RoomView>, name: Seq<char>) -> bool {
    exists|i: int| 0 <= i < v.len() && v[i].0 == name
}

/// Position of the room with the given name, where there is one.
pub open spec fn room_pos(v: Seq<RoomView>, name: Seq<char>) -> int {
    choose|i: int| 0 <= i < v.len() && v[i].0 == name
}

/// Device names of the room with the given name.
pub open spec fn devices_of(v: Seq<RoomView>, name: Seq<char>) -> Option<Seq<Seq<char>>> {
    if has_room(v, name) {
        Some(v[room_pos(v, name)].1)
    } else {
        None
    }
}

/// A list of names with one more name, unless it is there already.
pub open spec fn with_name(v: Seq<Seq<char>>, name: Seq<char>) -> Seq<Seq<char>> {
    if v.contains(name) {
        v
    } else {
        v.push(name)
    }
}

/// The rooms with one more room, empty, unless there is one of that name.
pub open spec fn with_room(v: Seq<RoomView>, name: Seq<char>) -> Seq<RoomView> {
    if has_room(v, name) {
        v
    } else {
        v.push((name, Seq::empty()))
    }
}

/// The rooms with a device name added to a room, the room added first where
/// there is none of that name.
pub open spec fn with_device(v: Seq<RoomView>, room: Seq<char>, device: Seq<char>) -> Seq<
    RoomView,
> {
    if has_room(v, room) {
        v.update(room_pos(v, room), (room, with_name(v[room_pos(v, room)].1, device)))
    } else {
        v.push((room, seq![device]))
    }
}

/// Device names, each followed by a space.
pub open spec fn names_line(names: Seq<Seq<char>>) -> Seq<char>
    decreases names.len(),
{
    if names.len() == 0 {
        Seq::empty()
    } else {
        names_line(names.drop_last()) + names.last() + " "@
    }
}

/// One line per room: its name, ": ", then its device names.
pub open spec fn listing_text(v: Seq<RoomView>) -> Seq<char>
    decreases v.len(),
{
    if v.len() == 0 {
        Seq::empty()
    } else {
        listing_text(v.drop_last()) + v.last().0 + ": "@ + names_line(v.last().1) + "\n"@
    }
}

/// Position of the room called `name`.
fn find_room(rooms: &Vec<Room>, name: &str) -> (r: Option<usize>)
    requires
        rooms_wf(rooms_view(rooms@)),
    ensures
        r is Some <==> has_room(rooms_view(rooms@), name@),
        r matches Some(i) ==> i == room_pos(rooms_view(rooms@), name@) && i < rooms@.len(),
{
    let ghost v = rooms_view(rooms@);
    let mut i: usize = 0;
    while i < rooms.len()
        invariant
            v == rooms_view(rooms@),
            rooms_wf(v),
            i <= rooms@.len(),
            forall|k: int| 0 <= k < i ==> v[k].0 != name@,
        decreases rooms@.len() - i,
    {
        if same_text(rooms[i].name.as_str(), name) {
            assert(v[i as int].0 == name@);
            assert(has_room(v, name@));
            return Some(i);
        }
        i = i + 1;
    }
    None
}

/// Adds `name` to `names` unless it is there already.
fn add_name(names: &mut Vec<String>, name: &str)
    requires
        unique_names(names_view(old(names)@)),
    ensures
        names_view(final(names)@) == with_name(names_view(old(names)@), name@),
        unique_names(names_view(final(names)@)),
{
    let ghost v = names_view(names@);
    let mut i: usize = 0;
    while i < names.len()
        invariant
            v == names_view(names@),
            unique_names(v),
            i <= names@.len(),
            forall|k: int| 0 <= k < i ==> v[k] != name@,
        decreases names@.len() - i,
    {
        if same_text(names[i].as_str(), name) {
            assert(v[i as int] == name@);
            assert(v.contains(name@));
            return;
        }
        i = i + 1;
    }
    assert(!v.contains(name@));
    names.push(name.to_owned());
    assert(names_view(names@) =~= v.push(name@));
}

/// Adds an empty room unless there is one of that name.
fn put_room(rooms: &mut Vec<Room>, name: &str)
    requires
        rooms_wf(rooms_view(old(rooms)@)),
    ensures
        rooms_view(final(rooms)@) == with_room(rooms_view(old(rooms)@), name@),
        rooms_wf(rooms_view(final(rooms)@)),
{
    let ghost v = rooms_view(rooms@);
    match find_room(rooms, name) {
        Some(_) => {},
        None => {
            let room = Room { name: name.to_owned(), devices: Vec::new() };
            assert(names_view(room.devices@) =~= Seq::empty());
            rooms.push(room);
            assert(rooms_view(rooms@) =~= v.push((name@, Seq::empty())));
        },
    }
}

/// Adds a device name to a room, adding the room first where there is none.
fn put_device(rooms: &mut Vec<Room>, room: &str, device: &str)
    requires
        rooms_wf(rooms_view(old(rooms)@)),
    ensures
        rooms_view(final(rooms)@) == with_device(rooms_view(old(rooms)@), room@, device@),
        rooms_wf(rooms_view(final(rooms)@)),
{
    let ghost v = rooms_view(rooms@);
    match find_room(rooms, room) {
        Some(i) => {
            add_name(&mut rooms[i].devices, device);
            assert(rooms_view(rooms@) =~= v.update(
                i as int,
                (room@, with_name(v[i as int].1, device@)),
            ));
        },
        None => {
            let mut devices: Vec<String> = Vec::new();
            devices.push(device.to_owned());
            assert(names_view(devices@) =~= seq![device@]);
            rooms.push(Room { name: room.to_owned(), devices });
            assert(rooms_view(rooms@) =~= v.push((room@, seq![device@])));
        },
    }
}

/// Collects rooms and devices before the house is built.
pub struct SmartHouseBuilder {
    rooms: Vec<Room>,
}

impl View for SmartHouseBuilder {
    type V = Seq<RoomView>;

    closed spec fn view(&self) -> Seq<RoomView> {
        rooms_view(self.rooms@)
    }
}

impl SmartHouseBuilder {
    pub open spec fn wf(&self) -> bool {
        rooms_wf(self@)
    }

    /// A builder with no rooms.
    pub fn new() -> (r: SmartHouseBuilder)
        ensures
            r@ == Seq::<RoomView>::empty(),
            r.wf(),
    {
        let r = SmartHouseBuilder { rooms: Vec::new() };
        assert(r@ =~= Seq::<RoomView>::empty());
        r
    }

    /// Adds a device to its own room, adding the room where it is new. A
    /// device of the same name in that room is kept once.
    pub fn add<D: SmartDevice>(self, device: D) -> (r: SmartHouseBuilder)
        requires
            self.wf(),
        ensures
            r@ == with_device(self@, device.room_view(), device.name_view()),
            r.wf(),
    {
        let mut rooms = self.rooms;
        put_device(&mut rooms, device.get_room(), device.get_name());
        SmartHouseBuilder { rooms }
    }

    /// Adds an empty room unless there is one of that name.
    pub fn add_room(self, name: &str) -> (r: SmartHouseBuilder)
        requires
            self.wf(),
        ensures
            r@ == with_room(self@, name@),
            r.wf(),
    {
        let mut rooms = self.rooms;
        put_room(&mut rooms, name);
        SmartHouseBuilder { rooms }
    }

    pub fn build(self) -> (r: SmartHouse)
        requires
            self.wf(),
        ensures
            r@ == self@,
            r.wf(),
    {
        SmartHouse::new(self.rooms)
    }
}

/// Rooms and the names of their devices.
pub struct SmartHouse {
    rooms: Vec<Room>,
}

impl View for SmartHouse {
    type V = Seq<RoomView>;

    closed spec fn view(&self) -> Seq<RoomView> {
        rooms_view(self.rooms@)
    }
}

impl SmartHouse {
    pub open spec fn wf(&self) -> bool {
        rooms_wf(self@)
    }

    fn new(rooms: Vec<Room>) -> (r: Self)
        requires
            rooms_wf(rooms_view(rooms@)),
        ensures
            r@ == rooms_view(rooms@),
    {
        Self { rooms }
    }

    pub fn builder() -> (r: SmartHouseBuilder)
        ensures
            r@ == Seq::<RoomView>::empty(),
            r.wf(),
    {
        SmartHouseBuilder::new()
    }

    /// Device names of the room called `name`.
    pub fn get_room(&self, name: String) -> (r: Option<&Vec<String>>)
        requires
            self.wf(),
        ensures
            r is Some <==> has_room(self@, name@),
            r matches Some(d) ==> Some(names_view(d@)) == devices_of(self@, name@),
    {
        self.devices(name)
    }

    /// Names of the rooms, in the order they were added.
    pub fn get_rooms(&self) -> (r: Vec<&str>)
        ensures
            r@.len() == self@.len(),
            forall|i: int| 0 <= i < r@.len() ==> #[trigger] r@[i]@ == self@[i].0,
    {
        let mut out: Vec<&str> = Vec::new();
        let mut i: usize = 0;
        while i < self.rooms.len()
            invariant
                i <= self.rooms@.len(),
                out@.len() == i,
                forall|k: int| 0 <= k < i ==> #[trigger] out@[k]@ == self@[k].0,
            decreases self.rooms@.len() - i,
        {
            out.push(self.rooms[i].name.as_str());
            i = i + 1;
        }
        out
    }

    /// The rooms and their devices as text, one line per room.
    pub fn listing(&self) -> (r: String)
        ensures
            r@ == listing_text(self@),
    {
        let ghost v = self@;
        let mut s = String::new();
        let mut i: usize = 0;
        while i < self.rooms.len()
            invariant
                v == self@,
                v.len() == self.rooms@.len(),
                i <= v.len(),
                s@ == listing_text(v.subrange(0, i as int)),
            decreases v.len() - i,
        {
            let room = &self.rooms[i];
            let ghost before = s@;
            s.append(room.name.as_str());
            s.append(": ");
            let mut j: usize = 0;
            while j < room.devices.len()
                invariant
                    room == self.rooms@[i as int],
                    j <= room.devices@.len(),
                    s@ == before + room.name@ + ": "@ + names_line(
                        names_view(room.devices@).subrange(0, j as int),
                    ),
                decreases room.devices@.len() - j,
            {
                s.append(room.devices[j].as_str());
                s.append(" ");
                assert(names_view(room.devices@).subrange(0, j + 1).drop_last() =~= names_view(
                    room.devices@,
                ).subrange(0, j as int));
                j = j + 1;
            }
            assert(names_view(room.devices@).subrange(0, j as int) =~= names_view(room.devices@));
            s.append("\n");
            assert(v.subrange(0, i + 1).drop_last() =~= v.subrange(0, i as int));
            i = i + 1;
        }
        assert(v.subrange(0, i as int) =~= v);
        s
    }

    /// Device names of the room called `room`.
    pub fn devices(&self, room: String) -> (r: Option<&Vec<String>>)
        requires
            self.wf(),
        ensures
            r is Some <==> has_room(self@, room@),
            r matches Some(d) ==> Some(names_view(d@)) == devices_of(self@, room@),
    {
        match find_room(&self.rooms, room.as_str()) {
            Some(i) => Some(&self.rooms[i].devices),
            None => None,
        }
    }

    /// Adds an empty room; a room of that name already there is an error.
    pub fn add_room(&mut self, name: String) -> (r: Result<(), &'static str>)
        requires
            old(self).wf(),
        ensures
            final(self).wf(),
            r is Ok <==> !has_room(old(self)@, name@),
            r is Ok ==> final(self)@ == old(self)@.push((name@, Seq::empty())),
            r matches Err(e) ==> e@ == "duplicate room. Can't add"@ && final(self)@ == old(self)@,
    {
        match find_room(&self.rooms, name.as_str()) {
            Some(_) => Err("duplicate room. Can't add"),
            None => {
                put_room(&mut self.rooms, name.as_str());
                Ok(())
            },
        }
    }

    /// Adds a device to the room called `room_name`; a room that is not
    /// there is an error. A device of the same name there is kept once.
    pub fn add_device<D: SmartDevice>(&mut self, room_name: String, device: D) -> (r: Result<
        (),
        &'static str,
    >)
        requires
            old(self).wf(),
        ensures
            final(self).wf(),
            r is Ok <==> has_room(old(self)@, room_name@),
            r is Ok ==> final(self)@ == with_device(old(self)@, room_name@, device.name_view()),
            r matches Err(e) ==> e@ == "room not found"@ && final(self)@ == old(self)@,
    {
        match find_room(&self.rooms, room_name.as_str()) {
            Some(_) => {
                put_device(&mut self.rooms, room_name.as_str(), device.get_name());
                Ok(())
            },
            None => Err("room not found"),
        }
    }

    /// The report that `provider` makes of this house.
    pub fn create_report<T: DeviceInfoProvider>(&self, provider: &T) -> (r: Result<
        String,
        &'static str,
    >)
        requires
            self.wf(),
        ensures
            r matches Ok(s) ==> provider.report(self@) == Ok::<Seq<char>, Seq<char>>(s@),
            r matches Err(e) ==> provider.report(self@) == Err::<Seq<char>, Seq<char>>(e@),
    {
        provider.get_state(self)
    }
}

} // verus!
