//! Devices: things that can describe themselves with a short text.
use vstd::prelude::*;

use crate::decimal::Decimal;

verus! {

/// A device of the house, which names itself when asked.
pub trait Device {
    /// The short text the device describes itself with.
    spec fn description(&self) -> Seq<char>;

    /// The device's short description.
    fn get_description(&self) -> (r: String)
        ensures
            r@ == self.description(),
    ;
}

/// A power socket: its name, the power it draws in watts, and whether it is on.
#[derive(Clone, Debug)]
pub struct SmartSocket {
    pub name: String,
    pub power_consumption: Decimal,
    pub is_on: bool,
}

impl SmartSocket {
    /// A socket named `name` drawing `power_consumption` watts, on or off.
    pub fn new(name: String, power_consumption: Decimal, is_on: bool) -> (r: SmartSocket)
        ensures
            r.name@ == name@,
            r.power_consumption == power_consumption,
            r.is_on == is_on,
    {
        SmartSocket { name, power_consumption, is_on }
    }
}

impl Device for SmartSocket {
    /// A socket describes itself by its name.
    open spec fn description(&self) -> Seq<char> {
        self.name@
    }

    fn get_description(&self) -> (r: String) {
        self.name.clone()
    }
}

/// A thermometer: its name and the temperature it reads in degrees Celsius.
#[derive(Clone, Debug)]
pub struct SmartThermometer {
    pub name: String,
    pub temperature: Decimal,
}

impl SmartThermometer {
    /// A thermometer named `name` reading `temperature` degrees Celsius.
    pub fn new(name: String, temperature: Decimal) -> (r: SmartThermometer)
        ensures
            r.name@ == name@,
            r.temperature == temperature,
    {
        SmartThermometer { name, temperature }
    }
}

impl Device for SmartThermometer {
    /// A thermometer describes itself by its name.
    open spec fn description(&self) -> Seq<char> {
        self.name@
    }

    fn get_description(&self) -> (r: String) {
        self.name.clone()
    }
}

/// Any of the kinds of device a room can hold.
#[derive(Clone, Debug)]
pub enum HouseDevice {
    Socket(SmartSocket),
    Thermometer(SmartThermometer),
}

impl Device for HouseDevice {
    open spec fn description(&self) -> Seq<char> {
        match self {
            HouseDevice::Socket(s) => s.description(),
            HouseDevice::Thermometer(t) => t.description(),
        }
    }

    fn get_description(&self) -> (r: String) {
        match self {
            HouseDevice::Socket(s) => s.get_description(),
            HouseDevice::Thermometer(t) => t.get_description(),
        }
    }
}

} // verus!
