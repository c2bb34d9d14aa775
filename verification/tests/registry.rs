use devices::esp::EspLed;
use devices::govee::GoveeLed;
use devices::{Command, DeviceAddress, DeviceError, Devices, DevicesState, Event, LedDevice, Other, Reply, Uuid};

fn first() -> DeviceAddress {
    DeviceAddress::new([0xA4, 0xC1, 0x38, 0xEC, 0x91, 0x32])
}

fn second() -> DeviceAddress {
    DeviceAddress::new([0x40, 0x22, 0xD8, 0xEA, 0xCB, 0xFA])
}

fn third() -> DeviceAddress {
    DeviceAddress::new([0, 1, 2, 3, 4, 5])
}

fn registry() -> DevicesState<Devices> {
    let mut state = DevicesState::new();
    state.add_device(first(), Devices::Govee(GoveeLed::new(first(), Uuid::new(1), Uuid::new(2))));
    state.add_device(second(), Devices::Esp(EspLed::new(second(), Uuid::new(3), Uuid::new(4))));
    state
}

#[test]
fn empty_registry_knows_no_device() {
    let mut state: DevicesState<Devices> = DevicesState::default();
    assert!(state.get_device_names().is_empty());
    assert!(state.get_device(&first()).is_none());
    assert!(!state.has_device(&first()));
    assert_eq!(state.connect(&first()), None);
    let mut state: DevicesState<Other> = DevicesState::new();
    assert!(state.get_device(&first()).is_none());
}

#[test]
fn devices_are_found_by_address() {
    let mut state = registry();
    assert!(state.has_device(&first()));
    assert!(state.has_device(&second()));
    assert!(!state.has_device(&third()));
    assert!(matches!(state.get_device(&first()), Some(Devices::Govee(_))));
    assert!(matches!(state.get_device(&second()), Some(Devices::Esp(_))));
    assert!(state.get_device(&third()).is_none());
}

#[test]
fn names_are_listed_in_order_of_registration() {
    let mut state = registry();
    assert_eq!(
        state.get_device_names(),
        vec!["A4:C1:38:EC:91:32".to_string(), "40:22:D8:EA:CB:FA".to_string()]
    );
    state.add_device(third(), Devices::Other(Other::new()));
    assert_eq!(
        state.get_device_names(),
        vec![
            "A4:C1:38:EC:91:32".to_string(),
            "40:22:D8:EA:CB:FA".to_string(),
            "00:01:02:03:04:05".to_string()
        ]
    );
}

#[test]
fn registering_an_address_again_replaces_the_device() {
    let mut state = registry();
    state.add_device(first(), Devices::Other(Other::new()));
    assert_eq!(state.get_device_names().len(), 2);
    assert_eq!(state.get_device_names()[0], "A4:C1:38:EC:91:32");
    assert!(matches!(state.get_device(&first()), Some(Devices::Other(_))));
    assert!(matches!(state.get_device(&second()), Some(Devices::Esp(_))));
}

#[test]
fn changes_through_the_registry_stay() {
    let mut state = registry();
    let device = state.get_device(&first()).unwrap();
    assert_eq!(device.connect(), Command::Discover(first()));
    let device = state.get_device(&first()).unwrap();
    assert_eq!(device.resume(Reply::ScanEnded), Command::Fail(DeviceError::NotFound(devices::Target::Device(first()))));
    assert_eq!(state.connect(&second()), Some(Command::Discover(second())));
    assert_eq!(
        state.resume(&second(), Reply::Adapter(devices::AdapterEvent::DeviceAdded(second()))),
        Some(Command::QueryLink)
    );
    assert_eq!(state.disconnect(&second()), Some(Command::Release));
    assert_eq!(state.disconnect(&second()), Some(Command::Idle));
}

#[test]
fn operations_on_an_unknown_address_do_nothing() {
    let mut state = registry();
    assert_eq!(state.connect(&third()), None);
    assert_eq!(state.disconnect(&third()), None);
    assert_eq!(state.on_event(&third(), Event::On), None);
    assert_eq!(state.resume(&third(), Reply::Written), None);
    assert_eq!(state.get_device_names().len(), 2);
}

#[test]
fn events_are_routed_by_address() {
    let mut state = registry();
    assert_eq!(
        state.on_event(&first(), Event::On),
        Some(Command::Fail(DeviceError::NotConnected))
    );
    assert_eq!(state.on_event(&second(), Event::On), Some(Command::Idle));
}
