use devices::codec::{encode_brightness, encode_keep_alive, encode_off, encode_on, encode_rgb};
use devices::connection::ConnectionState;
use devices::gatt::{CharacteristicHandle, GattService};
use devices::govee::{GoveeLed, KEEP_ALIVE_INTERVAL_SECS};
use devices::keep_alive::KeepAliveStatus;
use devices::{
    AdapterEvent, Command, DeviceAddress, DeviceError, Event, Heartbeat, LedDevice, Reply, Uuid,
};

fn govee_addr() -> DeviceAddress {
    DeviceAddress::new([0xA4, 0xC1, 0x38, 0xEC, 0x91, 0x32])
}

fn govee_service() -> Uuid {
    Uuid::new(0x000102030405060708090a0b0c0d1910)
}

fn govee_characteristic() -> Uuid {
    Uuid::new(0x000102030405060708090a0b0c0d2b11)
}

fn govee() -> GoveeLed {
    GoveeLed::new(govee_addr(), govee_service(), govee_characteristic())
}

fn govee_listing() -> Vec<GattService> {
    vec![GattService { uuid: govee_service(), characteristics: vec![govee_characteristic()] }]
}

/// Drives a connect to its end and gives the keep-alive job that was started.
fn connected() -> (GoveeLed, Heartbeat) {
    let mut led = govee();
    connect_again(&mut led);
    let heartbeat = Heartbeat { epoch: led.keep_alive.epoch, interval_secs: 2 };
    (led, heartbeat)
}

fn connect_again(led: &mut GoveeLed) -> Command {
    assert_eq!(led.connect(), Command::Discover(govee_addr()));
    assert_eq!(
        led.resume(Reply::Adapter(AdapterEvent::DeviceAdded(govee_addr()))),
        Command::QueryLink
    );
    assert_eq!(led.resume(Reply::LinkStatus(false)), Command::ConnectLink);
    assert_eq!(led.resume(Reply::LinkConnected), Command::ListGatt);
    led.resume(Reply::Listing(govee_listing()))
}

#[test]
fn new_light_is_disconnected_and_quiet() {
    let led = govee();
    assert_eq!(led.connection.state, ConnectionState::Disconnected);
    assert_eq!(led.connection.addr, govee_addr());
    assert_eq!(led.keep_alive.status, KeepAliveStatus::Idle);
    assert_eq!(led.keep_alive.interval_secs, 2);
    assert_eq!(KEEP_ALIVE_INTERVAL_SECS, 2);
    assert_eq!(led.keep_alive_tick(0), None);
    assert!(!led.is_degraded());
}

#[test]
fn connect_starts_the_keep_alive_job() {
    let mut led = govee();
    let last = connect_again(&mut led);
    let handle = CharacteristicHandle { service: 0, characteristic: 0 };
    assert_eq!(
        last,
        Command::Hold { handle, heartbeat: Some(Heartbeat { epoch: 1, interval_secs: 2 }) }
    );
    assert_eq!(led.connection.state, ConnectionState::CharacteristicResolved { handle, verifying: false });
    assert_eq!(led.keep_alive.status, KeepAliveStatus::Running);
    assert_eq!(led.keep_alive_tick(1), Some(encode_keep_alive()));
    assert_eq!(led.keep_alive_tick(1), Some(encode_keep_alive()));
    assert_eq!(led.keep_alive_tick(0), None);
    assert_eq!(led.keep_alive_tick(2), None);
}

#[test]
fn keep_alive_does_not_start_before_the_characteristic_is_resolved() {
    let mut led = govee();
    led.connect();
    assert_eq!(led.keep_alive_tick(0), None);
    assert_eq!(led.keep_alive_tick(1), None);
    led.resume(Reply::Adapter(AdapterEvent::DeviceAdded(govee_addr())));
    led.resume(Reply::LinkStatus(false));
    led.resume(Reply::LinkConnected);
    assert_eq!(led.keep_alive.status, KeepAliveStatus::Idle);
    assert_eq!(led.keep_alive_tick(0), None);
    assert_eq!(led.keep_alive_tick(1), None);
}

#[test]
fn no_heartbeat_after_disconnect() {
    let (mut led, heartbeat) = connected();
    assert_eq!(led.keep_alive_tick(heartbeat.epoch), Some(encode_keep_alive()));
    assert_eq!(led.disconnect(), Command::Release);
    assert_eq!(led.connection.state, ConnectionState::Disconnected);
    assert_eq!(led.keep_alive_tick(heartbeat.epoch), None);
    assert_eq!(led.keep_alive_tick(heartbeat.epoch), None);
    for epoch in [0, 1, 2, u64::MAX] {
        assert_eq!(led.keep_alive_tick(epoch), None);
    }
    assert_eq!(led.resume(Reply::Written), Command::Ignored);
    assert_eq!(led.keep_alive_tick(heartbeat.epoch), None);
    assert_eq!(led.disconnect(), Command::Idle);
}

#[test]
fn job_of_an_earlier_connection_stays_silent() {
    let (mut led, first) = connected();
    led.disconnect();
    let again = connect_again(&mut led);
    let second = match again {
        Command::Hold { heartbeat: Some(job), .. } => job,
        other => panic!("{:?}", other),
    };
    assert_ne!(first.epoch, second.epoch);
    assert_eq!(second, Heartbeat { epoch: 2, interval_secs: 2 });
    assert_eq!(led.keep_alive_tick(first.epoch), None);
    assert_eq!(led.keep_alive_tick(second.epoch), Some(encode_keep_alive()));
}

#[test]
fn second_connect_starts_no_second_job() {
    let (mut led, heartbeat) = connected();
    let before = led;
    assert_eq!(led.connect(), Command::QueryLink);
    assert_eq!(led.keep_alive_tick(heartbeat.epoch), Some(encode_keep_alive()));
    assert_eq!(led.on_event(Event::On), Command::Write(encode_on()));
    assert_eq!(led.resume(Reply::LinkStatus(true)), Command::Idle);
    assert_eq!(led, before);
    assert_eq!(led.resume(Reply::LinkStatus(false)), Command::Ignored);
    assert_eq!(led, before);
    assert_eq!(led.keep_alive.epoch, heartbeat.epoch);
}

#[test]
fn lost_link_stops_the_job() {
    let (mut led, heartbeat) = connected();
    led.connect();
    assert_eq!(led.resume(Reply::LinkStatus(false)), Command::Discover(govee_addr()));
    assert_eq!(led.keep_alive.status, KeepAliveStatus::Idle);
    assert_eq!(led.keep_alive_tick(heartbeat.epoch), None);
}

#[test]
fn failed_heartbeat_ends_the_job_and_degrades() {
    let (mut led, heartbeat) = connected();
    led.keep_alive_failed(heartbeat.epoch + 1);
    assert!(!led.is_degraded());
    assert_eq!(led.keep_alive_tick(heartbeat.epoch), Some(encode_keep_alive()));
    led.keep_alive_failed(heartbeat.epoch);
    assert!(led.is_degraded());
    assert_eq!(led.keep_alive.status, KeepAliveStatus::Failed);
    assert_eq!(led.keep_alive_tick(heartbeat.epoch), None);
    assert!(led.connection.is_resolved());
    assert_eq!(led.on_event(Event::On), Command::Write(encode_on()));
    led.disconnect();
    assert!(!led.is_degraded());
}

#[test]
fn events_are_written_when_connected() {
    let (mut led, _) = connected();
    let before = led;
    assert_eq!(led.on_event(Event::On), Command::Write(encode_on()));
    assert_eq!(led.on_event(Event::Off), Command::Write(encode_off()));
    assert_eq!(
        led.on_event(Event::Color("#FF8000".to_string())),
        Command::Write(encode_rgb(0xFF, 0x80, 0x00))
    );
    assert_eq!(led.on_event(Event::Brightness(0x64)), Command::Write(encode_brightness(0x64)));
    assert_eq!(led.on_event(Event::Other(Some("x".to_string()))), Command::Idle);
    assert_eq!(led.on_event(Event::Other(None)), Command::Idle);
    assert_eq!(led, before);
    assert_eq!(led.turn_on(), Command::Write(encode_on()));
    assert_eq!(led.turn_off(), Command::Write(encode_off()));
    assert_eq!(led.set_brightness(1), Command::Write(encode_brightness(1)));
    assert_eq!(led.set_color("#010203".to_string()), Command::Write(encode_rgb(1, 2, 3)));
}

#[test]
fn malformed_color_is_reported_to_the_caller() {
    let (mut led, _) = connected();
    assert_eq!(
        led.on_event(Event::Color("#ZZZZZZ".to_string())),
        Command::Fail(DeviceError::MalformedInput)
    );
    assert_eq!(
        led.on_event(Event::Color("#FFF".to_string())),
        Command::Fail(DeviceError::MalformedInput)
    );
    assert!(led.connection.is_resolved());
}

#[test]
fn events_on_a_disconnected_light_fail() {
    let mut led = govee();
    assert_eq!(led.on_event(Event::On), Command::Fail(DeviceError::NotConnected));
    assert_eq!(led.on_event(Event::Off), Command::Fail(DeviceError::NotConnected));
    assert_eq!(led.on_event(Event::Brightness(9)), Command::Fail(DeviceError::NotConnected));
    assert_eq!(
        led.on_event(Event::Color("#FF8000".to_string())),
        Command::Fail(DeviceError::NotConnected)
    );
    assert_eq!(
        led.on_event(Event::Color("nonsense".to_string())),
        Command::Fail(DeviceError::NotConnected)
    );
    assert_eq!(led.on_event(Event::Other(None)), Command::Idle);
    assert_eq!(led, govee());
    led.connect();
    assert_eq!(led.on_event(Event::On), Command::Fail(DeviceError::NotConnected));
}

#[test]
fn failed_write_is_an_error_that_keeps_the_link() {
    let (mut led, heartbeat) = connected();
    assert_eq!(led.on_event(Event::On), Command::Write(encode_on()));
    assert_eq!(
        led.resume(Reply::WriteFailed("gone".to_string())),
        Command::Fail(DeviceError::WriteFailure("gone".to_string()))
    );
    assert!(led.connection.is_resolved());
    assert_eq!(led.keep_alive_tick(heartbeat.epoch), Some(encode_keep_alive()));
    assert_eq!(led.on_event(Event::Off), Command::Write(encode_off()));
    assert_eq!(led.resume(Reply::Written), Command::Idle);
}

#[test]
fn failed_connect_leaves_nothing_behind() {
    let mut led = govee();
    led.connect();
    led.resume(Reply::Adapter(AdapterEvent::DeviceAdded(govee_addr())));
    led.resume(Reply::LinkStatus(false));
    led.resume(Reply::LinkConnectFailed("a".to_string()));
    led.resume(Reply::LinkConnectFailed("b".to_string()));
    assert_eq!(
        led.resume(Reply::LinkConnectFailed("c".to_string())),
        Command::Fail(DeviceError::ConnectionError {
            address: govee_addr(),
            cause: "c".to_string()
        })
    );
    assert_eq!(led, govee());
}

#[test]
fn epoch_wraps_around() {
    let mut led = govee();
    led.keep_alive.epoch = u64::MAX;
    let last = connect_again(&mut led);
    assert!(matches!(
        last,
        Command::Hold { heartbeat: Some(Heartbeat { epoch: 0, interval_secs: 2 }), .. }
    ));
    assert_eq!(led.keep_alive_tick(0), Some(encode_keep_alive()));
    assert_eq!(led.keep_alive_tick(u64::MAX), None);
}
