//! Rooms, the house, and the report over every device of every room.
use vstd::prelude::*;

use crate::device::{Device, HouseDevice};
use crate::provider::{DeviceInfoProvider, text_result};

verus! {

/// What a room is to the house's operations: its name, and the descriptions
/// of its devices in the room's order.
pub struct RoomView {
    pub name: Seq<char>,
    pub devices: Seq<Seq<char>>,
}

/// A named room owning its devices, kept in display order.
#[derive(Debug)]
pub struct Room {
    pub name: String,
    pub devices: Vec<HouseDevice>,
}

impl View for Room {
    type V = RoomView;

    open spec fn view(&self) -> RoomView {
        RoomView { name: self.name@, devices: self.devices@.map_values(|d: HouseDevice| d.description()) }
    }
}

impl Room {
    /// A room named `name` holding `devices` in the given order.
    pub fn new(name: String, devices: Vec<HouseDevice>) -> (r: Room)
        ensures
            r.name@ == name@,
            r.devices@ == devices@,
    {
        Room { name, devices }
    }
}

/// A house: its rooms, in the order they were given, which is the order of
/// every listing and report.
#[derive(Debug)]
pub struct SmartHouse {
    pub rooms: Vec<Room>,
}

impl View for SmartHouse {
    type V = Seq<RoomView>;

    open spec fn view(&self) -> Seq<RoomView> {
        self.rooms@.map_values(|r: Room| r@)
    }
}

/// The names of `rooms`, in order.
pub open spec fn room_names_of(rooms: Seq<RoomView>) -> Seq<Seq<char>> {
    rooms.map_values(|r: RoomView| r.name)
}

/// The device descriptions of the first of `rooms` named `name`; none where
/// no room has that name.
pub open spec fn devices_in(rooms: Seq<RoomView>, name: Seq<char>) -> Seq<Seq<char>>
    decreases rooms.len(),
{
    if rooms.len() == 0 {
        Seq::empty()
    } else if rooms[0].name == name {
        rooms[0].devices
    } else {
        devices_in(rooms.drop_first(), name)
    }
}

/// The header line that opens a room's block in a report.
pub open spec fn header_line(room: Seq<char>) -> Seq<char> {
    "Room '"@ + room + "':\n"@
}

/// The report line for one lookup outcome: the status, or the failure
/// message after `Error: `; indented, and ended by a newline.
pub open spec fn device_line(outcome: Result<Seq<char>, Seq<char>>) -> Seq<char> {
    match outcome {
        Ok(info) => "  "@ + info + "\n"@,
        Err(message) => "  Error: "@ + message + "\n"@,
    }
}

/// The lines for `devices` of the room `room`, as `p` reports them.
pub open spec fn device_lines<P: DeviceInfoProvider>(
    p: &P,
    room: Seq<char>,
    devices: Seq<Seq<char>>,
) -> Seq<char>
    decreases devices.len(),
{
    if devices.len() == 0 {
        Seq::empty()
    } else {
        device_lines(p, room, devices.drop_last()) + device_line(p.info(room, devices.last()))
    }
}

/// A room's block: its header, a line per device, and a blank line.
pub open spec fn room_block<P: DeviceInfoProvider>(p: &P, r: RoomView) -> Seq<char> {
    header_line(r.name) + device_lines(p, r.name, r.devices) + "\n"@
}

/// The report on `rooms`: their blocks, in order.
pub open spec fn report_text<P: DeviceInfoProvider>(p: &P, rooms: Seq<RoomView>) -> Seq<char>
    decreases rooms.len(),
{
    if rooms.len() == 0 {
        Seq::empty()
    } else {
        report_text(p, rooms.drop_last()) + room_block(p, rooms.last())
    }
}

/// The device lines of a room are one line per device, in the room's order,
/// each the line for what the provider answers about that device.
pub proof fn lemma_device_lines_one_per_device<P: DeviceInfoProvider>(
    p: &P,
    room: Seq<char>,
    devices: Seq<Seq<char>>,
)
    ensures
        device_lines(p, room, devices) == devices.map_values(
            |d: Seq<char>| device_line(p.info(room, d)),
        ).flatten(),
    decreases devices.len(),
{
    let lines = devices.map_values(|d: Seq<char>| device_line(p.info(room, d)));
    lines.lemma_flatten_and_flatten_alt_are_equivalent();
    if devices.len() > 0 {
        lemma_device_lines_one_per_device(p, room, devices.drop_last());
        let shorter = devices.drop_last().map_values(|d: Seq<char>| device_line(p.info(room, d)));
        shorter.lemma_flatten_and_flatten_alt_are_equivalent();
        assert(lines.drop_last() =~= shorter);
    }
}

/// Whatever the provider, a report is one block per room in the house's
/// order, and each block is the room's header line, one line per device of
/// the room in the room's order, and one blank line.
pub proof fn lemma_report_layout<P: DeviceInfoProvider>(p: &P, rooms: Seq<RoomView>)
    ensures
        report_text(p, rooms) == rooms.map_values(|r: RoomView| room_block(p, r)).flatten(),
        forall|r: RoomView|
            #[trigger] room_block(p, r) == header_line(r.name) + r.devices.map_values(
                |d: Seq<char>| device_line(p.info(r.name, d)),
            ).flatten() + "\n"@,
    decreases rooms.len(),
{
    let blocks = rooms.map_values(|r: RoomView| room_block(p, r));
    blocks.lemma_flatten_and_flatten_alt_are_equivalent();
    if rooms.len() > 0 {
        lemma_report_layout(p, rooms.drop_last());
        let shorter = rooms.drop_last().map_values(|r: RoomView| room_block(p, r));
        shorter.lemma_flatten_and_flatten_alt_are_equivalent();
        assert(blocks.drop_last() =~= shorter);
    }
    assert forall|r: RoomView|
        #[trigger] room_block(p, r) == header_line(r.name) + r.devices.map_values(
            |d: Seq<char>| device_line(p.info(r.name, d)),
        ).flatten() + "\n"@ by {
        lemma_device_lines_one_per_device(p, r.name, r.devices);
    }
}

/// Listing the rooms gives one name per room, in the order of the rooms.
pub proof fn lemma_room_names_in_order(rooms: Seq<RoomView>)
    ensures
        room_names_of(rooms).len() == rooms.len(),
        forall|i: int| 0 <= i < rooms.len() ==> #[trigger] room_names_of(rooms)[i] == rooms[i].name,
{
}

/// Asking for the devices of a room that the house does not have gives no
/// devices.
pub proof fn lemma_unknown_room_has_no_devices(rooms: Seq<RoomView>, name: Seq<char>)
    requires
        forall|i: int| 0 <= i < rooms.len() ==> #[trigger] rooms[i].name != name,
    ensures
        devices_in(rooms, name) == Seq::<Seq<char>>::empty(),
    decreases rooms.len(),
{
    if rooms.len() > 0 {
        let rest = rooms.drop_first();
        assert forall|i: int| 0 <= i < rest.len() implies #[trigger] rest[i].name != name by {
            assert(rest[i] == rooms[i + 1]);
        }
        lemma_unknown_room_has_no_devices(rest, name);
    }
}

/// The report depends on nothing but the provider and the house's rooms:
/// two reports on houses with the same rooms, by one provider, are the same
/// text.
pub proof fn lemma_report_repeatable<P: DeviceInfoProvider>(p: &P, h1: &SmartHouse, h2: &SmartHouse)
    requires
        h1@ == h2@,
    ensures
        report_text(p, h1@) == report_text(p, h2@),
{
}

impl SmartHouse {
    /// A house of `rooms`, in the given order.
    pub fn new(rooms: Vec<Room>) -> (r: SmartHouse)
        ensures
            r.rooms@ == rooms@,
            r@ == rooms@.map_values(|room: Room| room@),
    {
        SmartHouse { rooms }
    }

    /// The names of the rooms, in the house's order.
    pub fn get_rooms(&self) -> (r: Vec<String>)
        ensures
            r@.map_values(|s: String| s@) == room_names_of(self@),
            r@.len() == self@.len(),
            forall|i: int| 0 <= i < r@.len() ==> #[trigger] r@[i]@ == self@[i].name,
    {
        let mut names: Vec<String> = Vec::new();
        let mut i: usize = 0;
        while i < self.rooms.len()
            invariant
                i <= self.rooms@.len(),
                names@.len() == i,
                forall|j: int| 0 <= j < i ==> #[trigger] names@[j]@ == self.rooms@[j].name@,
            decreases self.rooms@.len() - i,
        {
            names.push(self.rooms[i].name.clone());
            i = i + 1;
        }
        assert(names@.map_values(|s: String| s@) =~= room_names_of(self@));
        names
    }

    /// The descriptions of the devices of the first room named `room`, in the
    /// room's order; none where no room has that name.
    pub fn devices(&self, room: &str) -> (r: Vec<String>)
        ensures
            r@.map_values(|s: String| s@) == devices_in(self@, room@),
    {
        let wanted = room.to_owned();
        let mut i: usize = 0;
        assert(self@.subrange(0, self@.len() as int) =~= self@);
        while i < self.rooms.len()
            invariant
                i <= self.rooms@.len(),
                wanted@ == room@,
                devices_in(self@, room@) == devices_in(self@.subrange(i as int, self@.len() as int), room@),
            decreases self.rooms@.len() - i,
        {
            let ghost rest = self@.subrange(i as int, self@.len() as int);
            assert(rest[0] == self.rooms@[i as int]@);
            if self.rooms[i].name == wanted {
                let found = &self.rooms[i];
                let mut out: Vec<String> = Vec::new();
                let mut k: usize = 0;
                while k < found.devices.len()
                    invariant
                        k <= found.devices@.len(),
                        out@.len() == k,
                        forall|j: int| 0 <= j < k ==> #[trigger] out@[j]@ == found.devices@[j].description(),
                    decreases found.devices@.len() - k,
                {
                    out.push(found.devices[k].get_description());
                    k = k + 1;
                }
                assert(out@.map_values(|s: String| s@) =~= found@.devices);
                return out;
            }
            assert(rest.drop_first() =~= self@.subrange(i + 1, self@.len() as int));
            i = i + 1;
        }
        let out: Vec<String> = Vec::new();
        assert(out@.map_values(|s: String| s@) =~= devices_in(self@, room@));
        out
    }

    /// The report on every device of every room, as `provider` tells them:
    /// for each room in order, a header line, a line per device in the
    /// room's order (its status, or `Error: ` and the failure message), and
    /// a blank line.
    pub fn create_report<P: DeviceInfoProvider>(&self, provider: &P) -> (r: String)
        ensures
            r@ == report_text(provider, self@),
    {
        let mut report = String::new();
        let mut i: usize = 0;
        while i < self.rooms.len()
            invariant
                i <= self.rooms@.len(),
                report@ == report_text(provider, self@.take(i as int)),
            decreases self.rooms@.len() - i,
        {
            let room = &self.rooms[i];
            let ghost before = report@;
            report.append("Room '");
            report.append(room.name.as_str());
            report.append("':\n");
            let ghost start = report@;
            let mut k: usize = 0;
            while k < room.devices.len()
                invariant
                    k <= room.devices@.len(),
                    report@ == start + device_lines(provider, room.name@, room@.devices.take(k as int)),
                decreases room.devices@.len() - k,
            {
                let device_name = room.devices[k].get_description();
                let outcome = provider.get_device_info(room.name.as_str(), device_name.as_str());
                let ghost mid = report@;
                match outcome {
                    Ok(info) => {
                        report.append("  ");
                        report.append(info.as_str());
                        report.append("\n");
                    },
                    Err(message) => {
                        report.append("  Error: ");
                        report.append(message.as_str());
                        report.append("\n");
                    },
                }
                proof {
                    let devs = room@.devices;
                    assert(devs.take(k + 1).drop_last() =~= devs.take(k as int));
                    assert(report@ =~= mid + device_line(text_result(outcome)));
                }
                k = k + 1;
            }
            report.append("\n");
            proof {
                assert(room@.devices.take(room.devices@.len() as int) =~= room@.devices);
                assert(self@.take(i + 1).drop_last() =~= self@.take(i as int));
                assert(report@ =~= before + room_block(provider, room@));
            }
            i = i + 1;
        }
        assert(self@.take(self.rooms@.len() as int) =~= self@);
        report
    }
}

} // verus!
