//! The light strip on the far side of the link: how the strip reads what is
//! written to its characteristic, and the colours it then shows.

use vstd::prelude::*;

verus! {

/// The number of pixels of the strip.
pub const NUM_LEDS: usize = 60;

/// The colour of one pixel.
#[derive(Clone, Copy, Debug, PartialEq, Eq, Structural)]
pub struct Rgb {
    pub r: u8,
    pub g: u8,
    pub b: u8,
}

/// What a write asks of the strip.
#[derive(Clone, Copy, Debug, PartialEq, Eq)]
pub enum PixelEvent {
    /// Show one colour on every pixel.
    Color((u8, u8, u8)),
    /// Set the brightness.
    Brightness(u8),
    /// Switch the strip on or off.
    State(bool),
    /// A write of no known kind, with its second byte.
    Other(u8),
}

/// The event that the written bytes spell. The first byte names the kind
/// and the bytes after it are its arguments.
pub open spec fn pixel_event_of(value: Seq<u8>) -> PixelEvent {
    if value[0] == 0x01 {
        PixelEvent::State(value[1] == 1)
    } else if value[0] == 0x02 {
        PixelEvent::Brightness(value[1])
    } else if value[0] == 0x03 {
        PixelEvent::Color((value[1], value[2], value[3]))
    } else {
        PixelEvent::Other(value[1])
    }
}

/// The written bytes are long enough to be read: two bytes, and four for a
/// colour.
pub open spec fn readable(value: Seq<u8>) -> bool {
    &&& value.len() >= 2
    &&& value[0] == 0x03 ==> value.len() >= 4
}

/// The colour that every pixel shows after an event: the colour of a colour
/// event, and black after every other event.
pub open spec fn pixel_color(event: PixelEvent) -> Rgb {
    match event {
        PixelEvent::Color((r, g, b)) => Rgb { r, g, b },
        _ => Rgb { r: 0, g: 0, b: 0 },
    }
}

impl PixelEvent {
    /// Reads the bytes of a write.
    pub fn from_bytes(value: &[u8]) -> (event: PixelEvent)
        requires
            readable(value@),
        ensures
            event == pixel_event_of(value@),
    {
        match value[0] {
            0x01 => PixelEvent::State(value[1] == 1),
            0x02 => PixelEvent::Brightness(value[1]),
            0x03 => PixelEvent::Color((value[1], value[2], value[3])),
            _ => PixelEvent::Other(value[1]),
        }
    }

    /// Reads the bytes of a write, if they are long enough to be read.
    pub fn try_from_bytes(value: &[u8]) -> (event: Option<PixelEvent>)
        ensures
            event == if readable(value@) {
                Some(pixel_event_of(value@))
            } else {
                None
            },
    {
        if value.len() < 2 || (value[0] == 0x03 && value.len() < 4) {
            None
        } else {
            Some(PixelEvent::from_bytes(value))
        }
    }
}

/// The colours of all pixels after an event.
pub fn get_pixel_colors(e: PixelEvent) -> (pixels: [Rgb; NUM_LEDS])
    ensures
        forall|i: int| 0 <= i < NUM_LEDS ==> pixels@[i] == pixel_color(e),
{
    let mut pixels = [Rgb { r: 0, g: 0, b: 0 }; NUM_LEDS];
    match e {
        PixelEvent::Color((r, g, b)) => {
            let mut i: usize = 0;
            while i < NUM_LEDS
                invariant
                    i <= NUM_LEDS,
                    forall|k: int| 0 <= k < i ==> pixels@[k] == (Rgb { r, g, b }),
                decreases NUM_LEDS - i,
            {
                pixels[i] = Rgb { r, g, b };
                i += 1;
            }
        },
        _ => {},
    }
    pixels
}

} // verus!
