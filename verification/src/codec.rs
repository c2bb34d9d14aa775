//! The command codec: the twenty-byte frames that the lights understand.
//!
//! Every frame ends in a checksum, the exclusive or of the nineteen bytes
//! before it.

use vstd::prelude::*;
use crate::error::{DeviceError, DeviceErrorView};
use crate::event::{Event, EventView};

verus! {

/// The length of every frame.
pub const FRAME_LEN: usize = 20;

/// The exclusive or of all the bytes.
pub open spec fn checksum(bytes: Seq<u8>) -> u8
    decreases bytes.len(),
{
    if bytes.len() == 0 {
        0
    } else {
        checksum(bytes.drop_last()) ^ bytes.last()
    }
}

/// The frame has the right length and ends in the checksum of what precedes it.
pub open spec fn sealed(frame: Seq<u8>) -> bool {
    &&& frame.len() == FRAME_LEN
    &&& frame[FRAME_LEN - 1] == checksum(frame.subrange(0, FRAME_LEN - 1))
}

/// `count` bytes of padding.
pub open spec fn padding(count: nat) -> Seq<u8> {
    Seq::new(count, |i: int| 0u8)
}

/// The frame that switches a light on.
pub open spec fn on_frame() -> Seq<u8> {
    seq![0x33u8, 0x01, 0x01] + padding(16) + seq![0x33u8]
}

/// The frame that switches a light off.
pub open spec fn off_frame() -> Seq<u8> {
    seq![0x33u8, 0x01, 0x00] + padding(16) + seq![0x32u8]
}

/// The frame that keeps an idle link alive.
pub open spec fn keep_alive_frame() -> Seq<u8> {
    seq![0xAAu8, 0x01] + padding(17) + seq![0xABu8]
}

/// The frame that sets the brightness to `level`.
pub open spec fn brightness_frame(level: u8) -> Seq<u8> {
    seq![0x33u8, 0x04, level] + padding(16) + seq![0x33u8 ^ 0x04u8 ^ level]
}

/// A colour frame without its checksum.
pub open spec fn color_body(red: u8, green: u8, blue: u8) -> Seq<u8> {
    seq![0x33u8, 0x05, 0x02, red, green, blue] + padding(13)
}

/// The frame that sets the colour.
pub open spec fn color_frame(red: u8, green: u8, blue: u8) -> Seq<u8> {
    color_body(red, green, blue).push(checksum(color_body(red, green, blue)))
}

/// The value of a hexadecimal digit of either case.
pub open spec fn hex_value(digit: char) -> Option<u8> {
    if '0' <= digit && digit <= '9' {
        Some((digit as u32 - '0' as u32) as u8)
    } else if 'a' <= digit && digit <= 'f' {
        Some((digit as u32 - 'a' as u32 + 10) as u8)
    } else if 'A' <= digit && digit <= 'F' {
        Some((digit as u32 - 'A' as u32 + 10) as u8)
    } else {
        None
    }
}

/// The byte that two hexadecimal digits spell.
pub open spec fn hex_byte(high: char, low: char) -> Option<u8> {
    match (hex_value(high), hex_value(low)) {
        (Some(h), Some(l)) => Some((h * 16 + l) as u8),
        _ => None,
    }
}

/// The red, green and blue that a colour text names.
///
/// A colour text has seven characters. The first is a marker and is not
/// looked at; the other six are hexadecimal digits. Every other text names
/// no colour.
pub open spec fn parse_color(color: Seq<char>) -> Option<(u8, u8, u8)> {
    if color.len() != 7 {
        None
    } else {
        match (
            hex_byte(color[1], color[2]),
            hex_byte(color[3], color[4]),
            hex_byte(color[5], color[6]),
        ) {
            (Some(red), Some(green), Some(blue)) => Some((red, green, blue)),
            _ => None,
        }
    }
}

/// The colour that a frame sets, if it is a colour frame.
pub open spec fn frame_color(frame: Seq<u8>) -> Option<(u8, u8, u8)> {
    if frame.len() == FRAME_LEN && frame == color_frame(frame[3], frame[4], frame[5]) {
        Some((frame[3], frame[4], frame[5]))
    } else {
        None
    }
}

/// The frame of an event: none for an event that no light acts on, and an
/// error for a colour that cannot be read.
pub open spec fn encode_spec(event: EventView) -> Result<Option<Seq<u8>>, DeviceErrorView> {
    match event {
        EventView::On => Ok(Some(on_frame())),
        EventView::Off => Ok(Some(off_frame())),
        EventView::Color(color) => match parse_color(color) {
            Some((red, green, blue)) => Ok(Some(color_frame(red, green, blue))),
            None => Err(DeviceErrorView::MalformedInput),
        },
        EventView::Brightness(level) => Ok(Some(brightness_frame(level))),
        EventView::Other(_) => Ok(None),
    }
}

/// The frame that switches a light on.
pub fn encode_on() -> (frame: Vec<u8>)
    ensures
        frame@ == on_frame(),
{
    let frame = vec![
        0x33u8, 0x01, 0x01, 0x00, 0x00, 0x00, 0x00, 0x00, 0x00, 0x00, 0x00, 0x00, 0x00, 0x00,
        0x00, 0x00, 0x00, 0x00, 0x00, 0x33,
    ];
    assert(frame@ =~= on_frame());
    frame
}

/// The frame that switches a light off.
pub fn encode_off() -> (frame: Vec<u8>)
    ensures
        frame@ == off_frame(),
{
    let frame = vec![
        0x33u8, 0x01, 0x00, 0x00, 0x00, 0x00, 0x00, 0x00, 0x00, 0x00, 0x00, 0x00, 0x00, 0x00,
        0x00, 0x00, 0x00, 0x00, 0x00, 0x32,
    ];
    assert(frame@ =~= off_frame());
    frame
}

/// The frame that keeps an idle link alive.
pub fn encode_keep_alive() -> (frame: Vec<u8>)
    ensures
        frame@ == keep_alive_frame(),
{
    let frame = vec![
        0xAAu8, 0x01, 0x00, 0x00, 0x00, 0x00, 0x00, 0x00, 0x00, 0x00, 0x00, 0x00, 0x00, 0x00,
        0x00, 0x00, 0x00, 0x00, 0x00, 0xAB,
    ];
    assert(frame@ =~= keep_alive_frame());
    frame
}

/// The frame that sets the brightness to `level`.
pub fn encode_brightness(level: u8) -> (frame: Vec<u8>)
    ensures
        frame@ == brightness_frame(level),
        sealed(frame@),
{
    proof {
        lemma_frames_sealed(0, 0, 0, level);
    }
    let mut frame = vec![
        0x33u8, 0x04, level, 0x00, 0x00, 0x00, 0x00, 0x00, 0x00, 0x00, 0x00, 0x00, 0x00, 0x00,
        0x00, 0x00, 0x00, 0x00, 0x00,
    ];
    frame.push(0x33 ^ 0x04 ^ level);
    assert(frame@ =~= brightness_frame(level));
    frame
}

/// Reads one hexadecimal digit.
fn hex_digit(digit: char) -> (value: Option<u8>)
    ensures
        value == hex_value(digit),
        value matches Some(v) ==> v < 16,
{
    if '0' <= digit && digit <= '9' {
        Some((digit as u32 - '0' as u32) as u8)
    } else if 'a' <= digit && digit <= 'f' {
        Some((digit as u32 - 'a' as u32 + 10) as u8)
    } else if 'A' <= digit && digit <= 'F' {
        Some((digit as u32 - 'A' as u32 + 10) as u8)
    } else {
        None
    }
}

/// Reads the byte that two hexadecimal digits spell.
fn hex_pair(high: char, low: char) -> (value: Option<u8>)
    ensures
        value == hex_byte(high, low),
{
    match hex_digit(high) {
        Some(h) => match hex_digit(low) {
            Some(l) => Some(h * 16 + l),
            None => None,
        },
        None => None,
    }
}

/// Reads the red, green and blue of a colour text such as `#FF8000`.
pub fn parse_rgb(color: &str) -> (rgb: Result<(u8, u8, u8), DeviceError>)
    ensures
        match parse_color(color@) {
            Some(channels) => rgb == Ok::<(u8, u8, u8), DeviceError>(channels),
            None => rgb matches Err(error) && error@ == DeviceErrorView::MalformedInput,
        },
{
    if color.unicode_len() != 7 {
        return Err(DeviceError::MalformedInput);
    }
    let red = hex_pair(color.get_char(1), color.get_char(2));
    let green = hex_pair(color.get_char(3), color.get_char(4));
    let blue = hex_pair(color.get_char(5), color.get_char(6));
    match (red, green, blue) {
        (Some(r), Some(g), Some(b)) => Ok((r, g, b)),
        _ => Err(DeviceError::MalformedInput),
    }
}

/// The frame that sets the colour to the given channels.
pub fn encode_rgb(red: u8, green: u8, blue: u8) -> (frame: Vec<u8>)
    ensures
        frame@ == color_frame(red, green, blue),
        sealed(frame@),
{
    proof {
        lemma_frames_sealed(red, green, blue, 0);
    }
    let mut frame = vec![0x33u8, 0x05, 0x02];
    frame.push(red);
    frame.push(green);
    frame.push(blue);
    let mut pad: usize = 0;
    while pad < 13
        invariant
            pad <= 13,
            frame@ == seq![0x33u8, 0x05, 0x02, red, green, blue] + padding(pad as nat),
        decreases 13 - pad,
    {
        frame.push(0x00);
        pad += 1;
        assert(frame@ =~= seq![0x33u8, 0x05, 0x02, red, green, blue] + padding(pad as nat));
    }
    let mut xor: u8 = 0;
    let mut i: usize = 0;
    while i < frame.len()
        invariant
            i <= frame.len(),
            xor == checksum(frame@.subrange(0, i as int)),
        decreases frame.len() - i,
    {
        assert(frame@.subrange(0, i + 1).drop_last() =~= frame@.subrange(0, i as int));
        xor = xor ^ frame[i];
        i += 1;
    }
    assert(frame@.subrange(0, i as int) =~= frame@);
    frame.push(xor);
    frame
}

/// The frame that sets the colour that `color` names.
///
/// A text that names no colour is rejected as malformed.
pub fn encode_color(color: &str) -> (frame: Result<Vec<u8>, DeviceError>)
    ensures
        match parse_color(color@) {
            Some((red, green, blue)) => frame matches Ok(bytes) && bytes@ == color_frame(
                red,
                green,
                blue,
            ) && sealed(bytes@),
            None => frame matches Err(error) && error@ == DeviceErrorView::MalformedInput,
        },
{
    match parse_rgb(color) {
        Ok((red, green, blue)) => Ok(encode_rgb(red, green, blue)),
        Err(error) => Err(error),
    }
}

/// The frame of an event, for the events that have one.
pub fn encode(event: &Event) -> (frame: Result<Option<Vec<u8>>, DeviceError>)
    ensures
        match frame {
            Ok(Some(bytes)) => encode_spec(event@) == Ok::<Option<Seq<u8>>, DeviceErrorView>(
                Some(bytes@),
            ),
            Ok(None) => encode_spec(event@) == Ok::<Option<Seq<u8>>, DeviceErrorView>(None),
            Err(error) => encode_spec(event@) == Err::<Option<Seq<u8>>, DeviceErrorView>(error@),
        },
        frame matches Ok(Some(bytes)) ==> sealed(bytes@),
{
    proof {
        lemma_encoded_frame_sealed(event@);
    }
    match event {
        Event::On => Ok(Some(encode_on())),
        Event::Off => Ok(Some(encode_off())),
        Event::Color(color) => match encode_color(color.as_str()) {
            Ok(bytes) => Ok(Some(bytes)),
            Err(error) => Err(error),
        },
        Event::Brightness(level) => Ok(Some(encode_brightness(*level))),
        Event::Other(_) => Ok(None),
    }
}

/// The colour that a frame sets, if the frame is a colour frame.
pub fn decode_rgb(frame: &[u8]) -> (rgb: Option<(u8, u8, u8)>)
    ensures
        rgb == frame_color(frame@),
{
    if frame.len() != FRAME_LEN {
        return None;
    }
    let red = frame[3];
    let green = frame[4];
    let blue = frame[5];
    let expected = encode_rgb(red, green, blue);
    let mut i: usize = 0;
    while i < FRAME_LEN
        invariant
            i <= FRAME_LEN,
            frame@.len() == FRAME_LEN,
            expected@.len() == FRAME_LEN,
            expected@ == color_frame(red, green, blue),
            red == frame@[3],
            green == frame@[4],
            blue == frame@[5],
            forall|k: int| 0 <= k < i ==> frame@[k] == expected@[k],
        decreases FRAME_LEN - i,
    {
        if frame[i] != expected[i] {
            assert(frame@[i as int] != color_frame(red, green, blue)[i as int]);
            return None;
        }
        i += 1;
    }
    assert(frame@ =~= expected@);
    Some((red, green, blue))
}

/// Appending a byte folds it into the checksum.
pub proof fn lemma_checksum_push(bytes: Seq<u8>, byte: u8)
    ensures
        checksum(bytes.push(byte)) == checksum(bytes) ^ byte,
{
    assert(bytes.push(byte).drop_last() =~= bytes);
}

/// Padding does not change the checksum.
pub proof fn lemma_checksum_padding(bytes: Seq<u8>, count: nat)
    ensures
        checksum(bytes + padding(count)) == checksum(bytes),
    decreases count,
{
    if count == 0 {
        assert(bytes + padding(count) =~= bytes);
    } else {
        let shorter = bytes + padding((count - 1) as nat);
        assert(bytes + padding(count) =~= shorter.push(0u8));
        lemma_checksum_push(shorter, 0u8);
        lemma_checksum_padding(bytes, (count - 1) as nat);
        let sum = checksum(shorter);
        assert(sum ^ 0u8 == sum) by (bit_vector);
    }
}

/// The checksum of three bytes is their exclusive or.
pub proof fn lemma_checksum_three(a: u8, b: u8, c: u8)
    ensures
        checksum(seq![a, b, c]) == a ^ b ^ c,
{
    let none = Seq::<u8>::empty();
    lemma_checksum_push(none, a);
    lemma_checksum_push(none.push(a), b);
    lemma_checksum_push(none.push(a).push(b), c);
    assert(seq![a, b, c] =~= none.push(a).push(b).push(c));
    assert(checksum(none) == 0u8);
    assert(((0u8 ^ a) ^ b) ^ c == a ^ b ^ c) by (bit_vector);
}

/// The checksum of a colour frame is the exclusive or of its header and of
/// the three channels.
pub proof fn lemma_color_checksum(red: u8, green: u8, blue: u8)
    ensures
        checksum(color_body(red, green, blue)) == 0x33u8 ^ 0x05u8 ^ 0x02u8 ^ red ^ green ^ blue,
        color_frame(red, green, blue) == seq![0x33u8, 0x05, 0x02, red, green, blue] + padding(13)
            + seq![0x33u8 ^ 0x05u8 ^ 0x02u8 ^ red ^ green ^ blue],
{
    let head = seq![0x33u8, 0x05, 0x02];
    lemma_checksum_three(0x33u8, 0x05u8, 0x02u8);
    lemma_checksum_push(head, red);
    lemma_checksum_push(head.push(red), green);
    lemma_checksum_push(head.push(red).push(green), blue);
    let data = seq![0x33u8, 0x05, 0x02, red, green, blue];
    assert(data =~= head.push(red).push(green).push(blue));
    lemma_checksum_padding(data, 13);
    let sum = checksum(color_body(red, green, blue));
    assert(color_frame(red, green, blue) =~= data + padding(13) + seq![sum]);
}

/// Every frame of the codec is twenty bytes long and ends in the exclusive
/// or of its first nineteen bytes.
pub proof fn lemma_frames_sealed(red: u8, green: u8, blue: u8, level: u8)
    ensures
        sealed(on_frame()),
        sealed(off_frame()),
        sealed(keep_alive_frame()),
        sealed(brightness_frame(level)),
        sealed(color_frame(red, green, blue)),
{
    lemma_checksum_three(0x33u8, 0x01u8, 0x01u8);
    lemma_checksum_padding(seq![0x33u8, 0x01u8, 0x01u8], 16);
    assert(on_frame().subrange(0, 19) =~= seq![0x33u8, 0x01u8, 0x01u8] + padding(16));
    assert(0x33u8 ^ 0x01u8 ^ 0x01u8 == 0x33u8) by (bit_vector);

    lemma_checksum_three(0x33u8, 0x01u8, 0x00u8);
    lemma_checksum_padding(seq![0x33u8, 0x01u8, 0x00u8], 16);
    assert(off_frame().subrange(0, 19) =~= seq![0x33u8, 0x01u8, 0x00u8] + padding(16));
    assert(0x33u8 ^ 0x01u8 ^ 0x00u8 == 0x32u8) by (bit_vector);

    lemma_checksum_three(0xAAu8, 0x01u8, 0x00u8);
    lemma_checksum_padding(seq![0xAAu8, 0x01u8, 0x00u8], 16);
    assert(keep_alive_frame().subrange(0, 19) =~= seq![0xAAu8, 0x01u8, 0x00u8] + padding(16));
    assert(0xAAu8 ^ 0x01u8 ^ 0x00u8 == 0xABu8) by (bit_vector);

    lemma_checksum_three(0x33u8, 0x04u8, level);
    lemma_checksum_padding(seq![0x33u8, 0x04u8, level], 16);
    assert(brightness_frame(level).subrange(0, 19) =~= seq![0x33u8, 0x04u8, level] + padding(16));

    assert(color_frame(red, green, blue).subrange(0, 19) =~= color_body(red, green, blue));
}

/// Whatever the event, the frame it is encoded as ends in the exclusive or
/// of the bytes before it.
pub proof fn lemma_encoded_frame_sealed(event: EventView)
    ensures
        encode_spec(event) matches Ok(Some(frame)) ==> sealed(frame),
{
    match event {
        EventView::Color(color) => {
            if let Some((red, green, blue)) = parse_color(color) {
                lemma_frames_sealed(red, green, blue, 0);
            }
        },
        EventView::Brightness(level) => {
            lemma_frames_sealed(0, 0, 0, level);
        },
        _ => {
            lemma_frames_sealed(0, 0, 0, 0);
        },
    }
}

/// A colour frame gives its colour back, and only a colour frame does.
pub proof fn lemma_color_round_trip(frame: Seq<u8>, red: u8, green: u8, blue: u8)
    ensures
        frame_color(color_frame(red, green, blue)) == Some((red, green, blue)),
        frame_color(frame) == Some((red, green, blue)) <==> frame == color_frame(red, green, blue),
{
    let encoded = color_frame(red, green, blue);
    assert(encoded.len() == FRAME_LEN);
    assert(encoded[3] == red && encoded[4] == green && encoded[5] == blue);
}

/// A colour text that can be read is encoded as the frame that gives its
/// channels back.
pub proof fn lemma_color_text_round_trip(color: Seq<char>)
    ensures
        match parse_color(color) {
            Some(channels) => encode_spec(EventView::Color(color)) matches Ok(Some(frame))
                && frame_color(frame) == Some(channels),
            None => encode_spec(EventView::Color(color)) == Err::<
                Option<Seq<u8>>,
                DeviceErrorView,
            >(DeviceErrorView::MalformedInput),
        },
{
    if let Some((red, green, blue)) = parse_color(color) {
        lemma_color_round_trip(color_frame(red, green, blue), red, green, blue);
    }
}

} // verus!
