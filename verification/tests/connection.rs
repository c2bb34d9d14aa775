use devices::connection::{
    connect_device, discover_device, Connection, ConnectionState, MAX_CONNECT_RETRIES,
};
use devices::gatt::{CharacteristicHandle, GattService};
use devices::{AdapterEvent, Command, DeviceAddress, DeviceError, Reply, Target, Uuid};

fn addr() -> DeviceAddress {
    DeviceAddress::new([0xA4, 0xC1, 0x38, 0xEC, 0x91, 0x32])
}

fn stranger() -> DeviceAddress {
    DeviceAddress::new([0x40, 0x22, 0xD8, 0xEA, 0xCB, 0xFA])
}

fn service() -> Uuid {
    Uuid::new(0x000102030405060708090a0b0c0d1910)
}

fn characteristic() -> Uuid {
    Uuid::new(0x000102030405060708090a0b0c0d2b11)
}

fn fresh() -> Connection {
    Connection::new(addr(), service(), characteristic())
}

fn listing() -> Vec<GattService> {
    vec![
        GattService { uuid: Uuid::new(0x1800), characteristics: vec![Uuid::new(0x2a00)] },
        GattService {
            uuid: service(),
            characteristics: vec![Uuid::new(0x2a01), characteristic(), Uuid::new(0x2a02)],
        },
    ]
}

fn resolved() -> Connection {
    let mut c = fresh();
    c.state = ConnectionState::CharacteristicResolved {
        handle: CharacteristicHandle { service: 1, characteristic: 1 },
        verifying: false,
    };
    c
}

fn failure(text: &str) -> Reply {
    Reply::LinkConnectFailed(text.to_string())
}

#[test]
fn new_connection_is_disconnected() {
    let c = fresh();
    assert_eq!(c.state, ConnectionState::Disconnected);
    assert_eq!(c.addr, addr());
    assert_eq!(c.service_uuid, service());
    assert_eq!(c.characteristic_uuid, characteristic());
    assert!(!c.is_resolved());
    assert_eq!(c.characteristic(), None);
}

#[test]
fn connect_runs_through_all_phases() {
    let mut c = fresh();
    assert_eq!(c.connect(), Command::Discover(addr()));
    assert_eq!(c.state, ConnectionState::Discovering);
    assert_eq!(
        c.resume(Reply::Adapter(AdapterEvent::DeviceAdded(stranger()))),
        Command::NextAdapterEvent
    );
    assert_eq!(
        c.resume(Reply::Adapter(AdapterEvent::DeviceRemoved(addr()))),
        Command::NextAdapterEvent
    );
    assert_eq!(c.resume(Reply::Adapter(AdapterEvent::PropertyChanged)), Command::NextAdapterEvent);
    assert_eq!(c.state, ConnectionState::Discovering);
    assert_eq!(c.resume(Reply::Adapter(AdapterEvent::DeviceAdded(addr()))), Command::QueryLink);
    assert_eq!(c.state, ConnectionState::Found);
    assert_eq!(c.resume(Reply::LinkStatus(false)), Command::ConnectLink);
    assert_eq!(c.state, ConnectionState::Connecting { failed: 0 });
    assert_eq!(c.resume(Reply::LinkConnected), Command::ListGatt);
    assert_eq!(c.state, ConnectionState::LinkEstablished);
    let handle = CharacteristicHandle { service: 1, characteristic: 1 };
    assert_eq!(c.resume(Reply::Listing(listing())), Command::Hold { handle, heartbeat: None });
    assert_eq!(c.state, ConnectionState::CharacteristicResolved { handle, verifying: false });
    assert!(c.is_resolved());
    assert_eq!(c.characteristic(), Some(handle));
}

#[test]
fn peer_that_is_already_linked_is_not_connected_again() {
    let mut c = fresh();
    c.connect();
    c.resume(Reply::Adapter(AdapterEvent::DeviceAdded(addr())));
    assert_eq!(c.resume(Reply::LinkStatus(true)), Command::ListGatt);
    assert_eq!(c.state, ConnectionState::LinkEstablished);
}

#[test]
fn second_connect_on_a_connected_device_does_no_work() {
    let mut c = resolved();
    let before = c;
    let first = c.connect();
    assert_eq!(first, Command::QueryLink);
    let second = c.resume(Reply::LinkStatus(true));
    assert_eq!(second, Command::Idle);
    assert_eq!(c, before);
    for command in [first, second] {
        assert!(!matches!(command, Command::Discover(_)));
        assert!(!matches!(command, Command::NextAdapterEvent));
        assert!(!matches!(command, Command::ConnectLink));
    }
}

#[test]
fn connect_on_a_lost_link_starts_over() {
    let mut c = resolved();
    assert_eq!(c.connect(), Command::QueryLink);
    assert!(c.is_resolved());
    assert_eq!(c.resume(Reply::LinkStatus(false)), Command::Discover(addr()));
    assert_eq!(c.state, ConnectionState::Discovering);
    assert_eq!(c.characteristic(), None);
}

#[test]
fn link_that_always_fails_is_tried_three_times() {
    let mut c = fresh();
    let mut commands = vec![c.connect()];
    commands.push(c.resume(Reply::Adapter(AdapterEvent::DeviceAdded(stranger()))));
    commands.push(c.resume(Reply::Adapter(AdapterEvent::DeviceAdded(addr()))));
    commands.push(c.resume(Reply::LinkStatus(false)));
    commands.push(c.resume(failure("first")));
    assert_eq!(c.state, ConnectionState::Connecting { failed: 1 });
    commands.push(c.resume(failure("second")));
    assert_eq!(c.state, ConnectionState::Connecting { failed: 2 });
    commands.push(c.resume(failure("third")));
    assert_eq!(c.state, ConnectionState::Disconnected);
    assert_eq!(
        commands,
        vec![
            Command::Discover(addr()),
            Command::NextAdapterEvent,
            Command::QueryLink,
            Command::ConnectLink,
            Command::ConnectLink,
            Command::ConnectLink,
            Command::Fail(DeviceError::ConnectionError {
                address: addr(),
                cause: "third".to_string()
            }),
        ]
    );
    let attempts = commands.iter().filter(|c| matches!(c, Command::ConnectLink)).count();
    assert_eq!(attempts, 3);
    assert_eq!(c.resume(failure("fourth")), Command::Ignored);
    assert_eq!(c.state, ConnectionState::Disconnected);
}

#[test]
fn link_that_comes_up_on_a_retry_goes_on() {
    let mut c = fresh();
    c.state = ConnectionState::Connecting { failed: 0 };
    assert_eq!(c.resume(failure("busy")), Command::ConnectLink);
    assert_eq!(c.resume(failure("busy")), Command::ConnectLink);
    assert_eq!(c.resume(Reply::LinkConnected), Command::ListGatt);
    assert_eq!(c.state, ConnectionState::LinkEstablished);
}

#[test]
fn retry_decision_counts_failures() {
    assert_eq!(MAX_CONNECT_RETRIES, 2);
    assert_eq!(connect_device(0), Some(1));
    assert_eq!(connect_device(1), Some(2));
    assert_eq!(connect_device(2), None);
    assert_eq!(connect_device(3), None);
    assert_eq!(connect_device(255), None);
}

#[test]
fn scan_decision_looks_for_the_address() {
    assert!(discover_device(addr(), AdapterEvent::DeviceAdded(addr())));
    assert!(!discover_device(addr(), AdapterEvent::DeviceAdded(stranger())));
    assert!(!discover_device(addr(), AdapterEvent::DeviceRemoved(addr())));
    assert!(!discover_device(addr(), AdapterEvent::PropertyChanged));
}

#[test]
fn scan_that_ends_without_the_device_fails() {
    let mut c = fresh();
    c.connect();
    c.resume(Reply::Adapter(AdapterEvent::DeviceAdded(stranger())));
    assert_eq!(
        c.resume(Reply::ScanEnded),
        Command::Fail(DeviceError::NotFound(Target::Device(addr())))
    );
    assert_eq!(c.state, ConnectionState::Disconnected);
}

#[test]
fn missing_service_is_named() {
    let mut c = fresh();
    c.state = ConnectionState::LinkEstablished;
    let services =
        vec![GattService { uuid: Uuid::new(0x1800), characteristics: vec![characteristic()] }];
    assert_eq!(
        c.resume(Reply::Listing(services)),
        Command::Fail(DeviceError::NotFound(Target::Attribute(service())))
    );
    assert_eq!(c.state, ConnectionState::Disconnected);
}

#[test]
fn missing_characteristic_is_named() {
    let mut c = fresh();
    c.state = ConnectionState::LinkEstablished;
    let services =
        vec![GattService { uuid: service(), characteristics: vec![Uuid::new(0x2a01)] }];
    assert_eq!(
        c.resume(Reply::Listing(services)),
        Command::Fail(DeviceError::NotFound(Target::Attribute(characteristic())))
    );
    assert_eq!(c.state, ConnectionState::Disconnected);
    c.state = ConnectionState::LinkEstablished;
    assert_eq!(
        c.resume(Reply::Listing(vec![])),
        Command::Fail(DeviceError::NotFound(Target::Attribute(service())))
    );
}

#[test]
fn listing_that_cannot_be_read_fails() {
    let mut c = fresh();
    c.state = ConnectionState::LinkEstablished;
    assert_eq!(
        c.resume(Reply::ListingFailed),
        Command::Fail(DeviceError::NotFound(Target::Attribute(characteristic())))
    );
    assert_eq!(c.state, ConnectionState::Disconnected);
}

#[test]
fn disconnect_releases_and_is_a_no_op_when_repeated() {
    let mut c = resolved();
    assert_eq!(c.disconnect(), Command::Release);
    assert_eq!(c.state, ConnectionState::Disconnected);
    assert_eq!(c.characteristic(), None);
    assert_eq!(c.disconnect(), Command::Idle);
    assert_eq!(c.state, ConnectionState::Disconnected);
    let mut fresh = fresh();
    assert_eq!(fresh.disconnect(), Command::Idle);
}

#[test]
fn disconnect_gives_up_a_connect_under_way() {
    for state in [
        ConnectionState::Discovering,
        ConnectionState::Found,
        ConnectionState::Connecting { failed: 1 },
        ConnectionState::LinkEstablished,
        ConnectionState::CharacteristicResolved {
            handle: CharacteristicHandle { service: 0, characteristic: 0 },
            verifying: true,
        },
    ] {
        let mut c = fresh();
        c.state = state;
        assert_eq!(c.disconnect(), Command::Release);
        assert_eq!(c.state, ConnectionState::Disconnected);
    }
}

#[test]
fn connect_under_way_starts_over() {
    for state in [
        ConnectionState::Discovering,
        ConnectionState::Found,
        ConnectionState::Connecting { failed: 2 },
        ConnectionState::LinkEstablished,
    ] {
        let mut c = fresh();
        c.state = state;
        assert_eq!(c.connect(), Command::Discover(addr()));
        assert_eq!(c.state, ConnectionState::Discovering);
    }
    let handle = CharacteristicHandle { service: 3, characteristic: 4 };
    let mut c = fresh();
    c.state = ConnectionState::CharacteristicResolved { handle, verifying: true };
    assert_eq!(c.connect(), Command::QueryLink);
    assert_eq!(c.state, ConnectionState::CharacteristicResolved { handle, verifying: true });
}

#[test]
fn replies_out_of_turn_are_ignored() {
    let mut c = fresh();
    for reply in [
        Reply::LinkStatus(true),
        Reply::LinkStatus(false),
        Reply::Adapter(AdapterEvent::DeviceAdded(addr())),
        Reply::ScanEnded,
        Reply::LinkConnected,
        failure("late"),
        Reply::Listing(listing()),
        Reply::ListingFailed,
        Reply::Written,
        Reply::WriteFailed("late".to_string()),
    ] {
        assert_eq!(c.resume(reply), Command::Ignored);
        assert_eq!(c, fresh());
    }
    let mut c = resolved();
    assert_eq!(c.resume(Reply::Listing(listing())), Command::Ignored);
    assert_eq!(c.resume(Reply::LinkConnected), Command::Ignored);
    assert_eq!(c.resume(Reply::LinkStatus(false)), Command::Ignored);
    assert_eq!(c, resolved());
    let mut c = fresh();
    c.state = ConnectionState::Discovering;
    assert_eq!(c.resume(Reply::LinkConnected), Command::Ignored);
    assert_eq!(c.resume(Reply::Written), Command::Ignored);
    assert_eq!(c.state, ConnectionState::Discovering);
}

#[test]
fn write_outcome_is_reported_and_keeps_the_connection() {
    let mut c = resolved();
    assert_eq!(c.resume(Reply::Written), Command::Idle);
    assert_eq!(c, resolved());
    assert_eq!(
        c.resume(Reply::WriteFailed("rejected".to_string())),
        Command::Fail(DeviceError::WriteFailure("rejected".to_string()))
    );
    assert_eq!(c, resolved());
}
