use devices::peripheral::{get_pixel_colors, PixelEvent, Rgb, NUM_LEDS};

#[test]
fn writes_are_read_by_their_first_byte() {
    assert_eq!(PixelEvent::from_bytes(&[0x01, 1]), PixelEvent::State(true));
    assert_eq!(PixelEvent::from_bytes(&[0x01, 0]), PixelEvent::State(false));
    assert_eq!(PixelEvent::from_bytes(&[0x01, 2]), PixelEvent::State(false));
    assert_eq!(PixelEvent::from_bytes(&[0x02, 0x64]), PixelEvent::Brightness(0x64));
    assert_eq!(PixelEvent::from_bytes(&[0x03, 1, 2, 3]), PixelEvent::Color((1, 2, 3)));
    assert_eq!(PixelEvent::from_bytes(&[0x03, 1, 2, 3, 4]), PixelEvent::Color((1, 2, 3)));
    assert_eq!(PixelEvent::from_bytes(&[0x33, 0x01, 0x01]), PixelEvent::Other(0x01));
    assert_eq!(PixelEvent::from_bytes(&[0x00, 9]), PixelEvent::Other(9));
}

#[test]
fn short_writes_are_not_read() {
    assert_eq!(PixelEvent::try_from_bytes(&[]), None);
    assert_eq!(PixelEvent::try_from_bytes(&[0x01]), None);
    assert_eq!(PixelEvent::try_from_bytes(&[0x03, 1, 2]), None);
    assert_eq!(PixelEvent::try_from_bytes(&[0x03, 1]), None);
    assert_eq!(PixelEvent::try_from_bytes(&[0x03, 1, 2, 3]), Some(PixelEvent::Color((1, 2, 3))));
    assert_eq!(PixelEvent::try_from_bytes(&[0x02, 7]), Some(PixelEvent::Brightness(7)));
    assert_eq!(PixelEvent::try_from_bytes(&[0x04, 7]), Some(PixelEvent::Other(7)));
}

#[test]
fn color_event_paints_every_pixel() {
    let pixels = get_pixel_colors(PixelEvent::Color((0xFF, 0x80, 0x00)));
    assert_eq!(pixels.len(), 60);
    assert_eq!(NUM_LEDS, 60);
    for pixel in pixels {
        assert_eq!(pixel, Rgb { r: 0xFF, g: 0x80, b: 0x00 });
    }
}

#[test]
fn other_events_leave_the_strip_dark() {
    for event in [
        PixelEvent::State(true),
        PixelEvent::State(false),
        PixelEvent::Brightness(200),
        PixelEvent::Other(3),
    ] {
        for pixel in get_pixel_colors(event) {
            assert_eq!(pixel, Rgb { r: 0, g: 0, b: 0 });
        }
    }
}
