//! Providers of detailed device status, looked up by room and device name.
//!
//! A lookup that finds no device fails with an empty message: the report
//! shows such a failure as a bare `Error: ` line.
use vstd::prelude::*;

use crate::device::{SmartSocket, SmartThermometer};

verus! {

/// The texts held by a lookup result.
pub open spec fn text_result(r: Result<String, String>) -> Result<Seq<char>, Seq<char>> {
    match r {
        Ok(s) => Ok(s@),
        Err(e) => Err(e@),
    }
}

/// Something that can tell the status of a device given its room and name.
pub trait DeviceInfoProvider {
    /// The outcome of looking up `device` in `room`: a status text, or a
    /// failure message.
    spec fn info(&self, room: Seq<char>, device: Seq<char>) -> Result<Seq<char>, Seq<char>>;

    /// Looks up the status of the device named `device_name` in `room_name`.
    fn get_device_info(&self, room_name: &str, device_name: &str) -> (r: Result<String, String>)
        ensures
            text_result(r) == self.info(room_name@, device_name@),
    ;
}

/// `On` or `Off`, as the owning provider writes a socket's state.
pub open spec fn on_off_title(is_on: bool) -> Seq<char> {
    if is_on {
        "On"@
    } else {
        "Off"@
    }
}

/// `on` or `off`, as the borrowing provider writes a socket's state.
pub open spec fn on_off_lower(is_on: bool) -> Seq<char> {
    if is_on {
        "on"@
    } else {
        "off"@
    }
}

/// The owning provider's status of `socket` found in `room`.
pub open spec fn owned_socket_status(socket: &SmartSocket, room: Seq<char>) -> Seq<char> {
    "The device '"@ + socket.name@ + "' in the room '"@ + room + "' is "@ + on_off_title(
        socket.is_on,
    ) + " with a power consumption of "@ + socket.power_consumption.text() + " watts."@
}

/// The borrowing provider's status of `socket`.
pub open spec fn borrowed_socket_status(socket: &SmartSocket) -> Seq<char> {
    "Socket '"@ + socket.name@ + "' is currently "@ + on_off_lower(socket.is_on)
        + " with a power consumption of "@ + socket.power_consumption.text() + " watts."@
}

/// The borrowing provider's status of `thermo`.
pub open spec fn borrowed_thermometer_status(thermo: &SmartThermometer) -> Seq<char> {
    "Thermometer '"@ + thermo.name@ + "' reads a temperature of "@ + thermo.temperature.text()
        + " degrees Celsius."@
}

/// A provider that keeps its own copy of one socket.
#[derive(Debug)]
pub struct OwningDeviceInfoProvider {
    pub socket: SmartSocket,
}

impl OwningDeviceInfoProvider {
    /// A provider holding `socket`.
    pub fn new(socket: SmartSocket) -> (r: OwningDeviceInfoProvider)
        ensures
            r.socket == socket,
    {
        OwningDeviceInfoProvider { socket }
    }
}

impl DeviceInfoProvider for OwningDeviceInfoProvider {
    /// Knows the held socket only, by its name, in whatever room it is asked
    /// about; the room's name goes into the status.
    open spec fn info(&self, room: Seq<char>, device: Seq<char>) -> Result<Seq<char>, Seq<char>> {
        if device == self.socket.name@ {
            Ok(owned_socket_status(&self.socket, room))
        } else {
            Err(Seq::empty())
        }
    }

    fn get_device_info(&self, room_name: &str, device_name: &str) -> (r: Result<String, String>) {
        if self.socket.name == device_name.to_owned() {
            let mut out = String::new();
            out.append("The device '");
            out.append(self.socket.name.as_str());
            out.append("' in the room '");
            out.append(room_name);
            out.append("' is ");
            if self.socket.is_on {
                out.append("On");
            } else {
                out.append("Off");
            }
            out.append(" with a power consumption of ");
            let power = self.socket.power_consumption.to_text();
            out.append(power.as_str());
            out.append(" watts.");
            assert(out@ =~= owned_socket_status(&self.socket, room_name@));
            Ok(out)
        } else {
            let r: Result<String, String> = Err(String::new());
            assert(text_result(r) =~= self.info(room_name@, device_name@));
            r
        }
    }
}

/// A provider that refers to a socket and a thermometer owned elsewhere.
#[derive(Debug)]
pub struct BorrowingDeviceInfoProvider<'a, 'b> {
    pub socket: &'a SmartSocket,
    pub thermo: &'b SmartThermometer,
}

impl<'a, 'b> BorrowingDeviceInfoProvider<'a, 'b> {
    /// A provider referring to `socket` and `thermo`.
    pub fn new(socket: &'a SmartSocket, thermo: &'b SmartThermometer) -> (r:
        BorrowingDeviceInfoProvider<'a, 'b>)
        ensures
            r.socket == socket,
            r.thermo == thermo,
    {
        BorrowingDeviceInfoProvider { socket, thermo }
    }
}

impl<'a, 'b> DeviceInfoProvider for BorrowingDeviceInfoProvider<'a, 'b> {
    /// Knows the socket first, then the thermometer, by name; the room is
    /// not looked at and does not go into the status.
    open spec fn info(&self, room: Seq<char>, device: Seq<char>) -> Result<Seq<char>, Seq<char>> {
        if device == self.socket.name@ {
            Ok(borrowed_socket_status(self.socket))
        } else if device == self.thermo.name@ {
            Ok(borrowed_thermometer_status(self.thermo))
        } else {
            Err(Seq::empty())
        }
    }

    fn get_device_info(&self, _room_name: &str, device_name: &str) -> (r: Result<String, String>) {
        let wanted = device_name.to_owned();
        if self.socket.name == wanted {
            let mut out = String::new();
            out.append("Socket '");
            out.append(self.socket.name.as_str());
            out.append("' is currently ");
            if self.socket.is_on {
                out.append("on");
            } else {
                out.append("off");
            }
            out.append(" with a power consumption of ");
            let power = self.socket.power_consumption.to_text();
            out.append(power.as_str());
            out.append(" watts.");
            assert(out@ =~= borrowed_socket_status(self.socket));
            Ok(out)
        } else if self.thermo.name == wanted {
            let mut out = String::new();
            out.append("Thermometer '");
            out.append(self.thermo.name.as_str());
            out.append("' reads a temperature of ");
            let temperature = self.thermo.temperature.to_text();
            out.append(temperature.as_str());
            out.append(" degrees Celsius.");
            assert(out@ =~= borrowed_thermometer_status(self.thermo));
            Ok(out)
        } else {
            let r: Result<String, String> = Err(String::new());
            assert(text_result(r) =~= self.info(_room_name@, device_name@));
            r
        }
    }
}

/// The owning provider finds a device exactly when its name is the held
/// socket's name, and then reports on that socket in the room asked about.
pub proof fn lemma_owning_lookup(p: &OwningDeviceInfoProvider, room: Seq<char>, device: Seq<char>)
    ensures
        p.info(room, device) is Ok <==> device == p.socket.name@,
        device == p.socket.name@ ==> p.info(room, device) == Ok::<Seq<char>, Seq<char>>(
            owned_socket_status(&p.socket, room),
        ),
{
}

/// The borrowing provider finds a device exactly when its name is the
/// socket's or the thermometer's; the socket is tried first, so where both
/// carry the name the socket is reported on.
pub proof fn lemma_borrowing_lookup(
    p: &BorrowingDeviceInfoProvider,
    room: Seq<char>,
    device: Seq<char>,
)
    ensures
        p.info(room, device) is Ok <==> (device == p.socket.name@ || device == p.thermo.name@),
        device == p.socket.name@ ==> p.info(room, device) == Ok::<Seq<char>, Seq<char>>(
            borrowed_socket_status(p.socket),
        ),
        device != p.socket.name@ && device == p.thermo.name@ ==> p.info(room, device) == Ok::<
            Seq<char>,
            Seq<char>,
        >(borrowed_thermometer_status(p.thermo)),
{
}

} // verus!
