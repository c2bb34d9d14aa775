use devices::{DeviceAddress, Uuid};

#[test]
fn address_keeps_its_octets() {
    let octets = [0xA4, 0xC1, 0x38, 0xEC, 0x91, 0x32];
    let addr = DeviceAddress::new(octets);
    assert_eq!(addr.octets(), octets);
    assert_eq!(addr.b0, 0xA4);
    assert_eq!(addr.b5, 0x32);
    assert_eq!(DeviceAddress::new([0; 6]).octets(), [0; 6]);
    assert_eq!(DeviceAddress::new([255; 6]).octets(), [255; 6]);
}

#[test]
fn addresses_are_equal_when_their_octets_are() {
    let a = DeviceAddress::new([1, 2, 3, 4, 5, 6]);
    assert_eq!(a, DeviceAddress::new([1, 2, 3, 4, 5, 6]));
    assert_ne!(a, DeviceAddress::new([1, 2, 3, 4, 5, 7]));
    assert_ne!(a, DeviceAddress::new([6, 5, 4, 3, 2, 1]));
}

#[test]
fn address_is_written_in_upper_hex_with_colons() {
    assert_eq!(DeviceAddress::new([0xA4, 0xC1, 0x38, 0xEC, 0x91, 0x32]).name(), "A4:C1:38:EC:91:32");
    assert_eq!(DeviceAddress::new([0, 1, 0x0A, 0x10, 0x9F, 0xFF]).name(), "00:01:0A:10:9F:FF");
    assert_eq!(DeviceAddress::new([0xAB, 0xCD, 0xEF, 0x12, 0x34, 0x56]).name(), "AB:CD:EF:12:34:56");
}

#[test]
fn uuid_keeps_its_value() {
    let value = 0x000102030405060708090a0b0c0d1910u128;
    assert_eq!(Uuid::new(value).as_u128(), value);
    assert_eq!(Uuid::new(value), Uuid { value });
    assert_ne!(Uuid::new(1), Uuid::new(2));
    assert_eq!(Uuid::new(u128::MAX).as_u128(), u128::MAX);
}
