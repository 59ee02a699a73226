use smart_house::decimal::Decimal;
use smart_house::device::{Device, HouseDevice, SmartSocket, SmartThermometer};
use smart_house::house::{Room, SmartHouse};
use smart_house::provider::{BorrowingDeviceInfoProvider, DeviceInfoProvider, OwningDeviceInfoProvider};

fn living_room_socket() -> SmartSocket {
    SmartSocket::new("Living room socket".to_string(), Decimal::new(false, 1500, 1), true)
}

fn bedroom_socket() -> SmartSocket {
    SmartSocket::new("Bedroom socket".to_string(), Decimal::new(false, 2500, 1), true)
}

fn bedroom_thermometer() -> SmartThermometer {
    SmartThermometer::new("Bedroom Thermometer".to_string(), Decimal::new(false, 234, 1))
}

fn sample_house() -> SmartHouse {
    let living_room = Room::new(
        "Living room".to_string(),
        vec![HouseDevice::Socket(living_room_socket())],
    );
    let bedroom = Room::new(
        "Bedroom".to_string(),
        vec![
            HouseDevice::Socket(bedroom_socket()),
            HouseDevice::Thermometer(bedroom_thermometer()),
        ],
    );
    SmartHouse::new(vec![living_room, bedroom])
}

#[test]
fn owning_provider_report() {
    let house = sample_house();
    let provider = OwningDeviceInfoProvider::new(living_room_socket());
    let report = house.create_report(&provider);
    assert_eq!(
        report,
        "Room 'Living room':\n  The device 'Living room socket' in the room 'Living room' is On with a power consumption of 150 watts.\n\nRoom 'Bedroom':\n  Error: \n  Error: \n\n"
    );
    let living_block = report.split("Room 'Bedroom'").next().unwrap();
    assert!(living_block.contains("150"));
    assert!(living_block.contains("On"));
}

#[test]
fn borrowing_provider_report() {
    let house = sample_house();
    let socket = bedroom_socket();
    let thermo = bedroom_thermometer();
    let provider = BorrowingDeviceInfoProvider::new(&socket, &thermo);
    let report = house.create_report(&provider);
    assert_eq!(
        report,
        "Room 'Living room':\n  Error: \n\nRoom 'Bedroom':\n  Socket 'Bedroom socket' is currently on with a power consumption of 250 watts.\n  Thermometer 'Bedroom Thermometer' reads a temperature of 23.4 degrees Celsius.\n\n"
    );
}

#[test]
fn report_twice_is_identical() {
    let house = sample_house();
    let socket = bedroom_socket();
    let thermo = bedroom_thermometer();
    let provider = BorrowingDeviceInfoProvider::new(&socket, &thermo);
    let first = house.create_report(&provider);
    let second = house.create_report(&provider);
    assert_eq!(first.as_bytes(), second.as_bytes());
    let owning = OwningDeviceInfoProvider::new(living_room_socket());
    assert_eq!(house.create_report(&owning), house.create_report(&owning));
}

#[test]
fn report_layout_per_room() {
    let empty = Room::new("Hall".to_string(), vec![]);
    let kitchen = Room::new(
        "Kitchen".to_string(),
        vec![HouseDevice::Thermometer(SmartThermometer::new(
            "Fridge".to_string(),
            Decimal::new(true, 5, 0),
        ))],
    );
    let house = SmartHouse::new(vec![empty, kitchen]);
    let provider = OwningDeviceInfoProvider::new(living_room_socket());
    let report = house.create_report(&provider);
    assert_eq!(report, "Room 'Hall':\n\nRoom 'Kitchen':\n  Error: \n\n");
}

#[test]
fn empty_house_report_is_empty() {
    let house = SmartHouse::new(vec![]);
    let provider = OwningDeviceInfoProvider::new(living_room_socket());
    assert_eq!(house.create_report(&provider), "");
    assert!(house.get_rooms().is_empty());
}

#[test]
fn room_names_in_construction_order() {
    let house = sample_house();
    assert_eq!(house.get_rooms(), vec!["Living room".to_string(), "Bedroom".to_string()]);
}

#[test]
fn devices_of_a_room_in_order() {
    let house = sample_house();
    assert_eq!(
        house.devices("Bedroom"),
        vec!["Bedroom socket".to_string(), "Bedroom Thermometer".to_string()]
    );
    assert_eq!(house.devices("Living room"), vec!["Living room socket".to_string()]);
}

#[test]
fn devices_of_unknown_room_are_empty() {
    let house = sample_house();
    assert!(house.devices("nonexistent").is_empty());
}

#[test]
fn devices_of_repeated_room_name_come_from_the_first() {
    let first = Room::new(
        "Den".to_string(),
        vec![HouseDevice::Socket(living_room_socket())],
    );
    let second = Room::new(
        "Den".to_string(),
        vec![HouseDevice::Thermometer(bedroom_thermometer())],
    );
    let house = SmartHouse::new(vec![first, second]);
    assert_eq!(house.devices("Den"), vec!["Living room socket".to_string()]);
}

#[test]
fn owning_lookup_matches_only_the_socket() {
    let provider = OwningDeviceInfoProvider::new(SmartSocket::new(
        "Lamp".to_string(),
        Decimal::new(false, 605, 1),
        false,
    ));
    assert_eq!(
        provider.get_device_info("Office", "Lamp"),
        Ok("The device 'Lamp' in the room 'Office' is Off with a power consumption of 60.5 watts.".to_string())
    );
    assert_eq!(provider.get_device_info("Office", "Desk lamp"), Err(String::new()));
    assert_eq!(provider.get_device_info("Office", ""), Err(String::new()));
}

#[test]
fn borrowing_lookup_socket_then_thermometer() {
    let socket = SmartSocket::new("Heater".to_string(), Decimal::from_int(2000), false);
    let thermo = SmartThermometer::new("Heater".to_string(), Decimal::new(true, 125, 1));
    let provider = BorrowingDeviceInfoProvider::new(&socket, &thermo);
    assert_eq!(
        provider.get_device_info("Any", "Heater"),
        Ok("Socket 'Heater' is currently off with a power consumption of 2000 watts.".to_string())
    );
    let other = SmartThermometer::new("Probe".to_string(), Decimal::new(true, 125, 1));
    let provider = BorrowingDeviceInfoProvider::new(&socket, &other);
    assert_eq!(
        provider.get_device_info("Any", "Probe"),
        Ok("Thermometer 'Probe' reads a temperature of -12.5 degrees Celsius.".to_string())
    );
    assert_eq!(provider.get_device_info("Any", "Fan"), Err(String::new()));
}

#[test]
fn device_descriptions_are_names() {
    assert_eq!(living_room_socket().get_description(), "Living room socket");
    assert_eq!(bedroom_thermometer().get_description(), "Bedroom Thermometer");
    assert_eq!(HouseDevice::Thermometer(bedroom_thermometer()).get_description(), "Bedroom Thermometer");
}
