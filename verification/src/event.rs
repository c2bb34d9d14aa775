//! Lighting intents, and the request record they are built from.

use vstd::prelude::*;
use vstd::std_specs::convert::FromSpecImpl;

verus! {

/// What a caller wants a light to do.
#[derive(Clone, Debug, PartialEq, Eq)]
pub enum Event {
    /// Switch the light on.
    On,
    /// Switch the light off.
    Off,
    /// Show a colour, written as a marker character and six hex digits.
    Color(String),
    /// Set the brightness.
    Brightness(u8),
    /// Anything else; no device acts on it.
    Other(Option<String>),
}

/// The mathematical value of an [`Event`].
pub enum EventView {
    On,
    Off,
    Color(Seq<char>),
    Brightness(u8),
    Other(Option<Seq<char>>),
}

/// The value of a text that may be absent.
pub open spec fn text_view(text: Option<String>) -> Option<Seq<char>> {
    match text {
        Some(t) => Some(t@),
        None => None,
    }
}

impl View for Event {
    type V = EventView;

    open spec fn view(&self) -> EventView {
        match *self {
            Event::On => EventView::On,
            Event::Off => EventView::Off,
            Event::Color(color) => EventView::Color(color@),
            Event::Brightness(level) => EventView::Brightness(level),
            Event::Other(text) => EventView::Other(text_view(text)),
        }
    }
}

/// A request to set a light, as it arrives from outside.
#[derive(Clone, Debug, PartialEq, Eq)]
pub struct SetLedEvent {
    /// `"on"`, `"off"`, `"color"` or `"brightness"`; anything else is no
    /// known kind.
    pub event_type: String,
    /// The colour, for a `"color"` request.
    pub color: Option<String>,
    /// The level, for a `"brightness"` request.
    pub brightness: Option<u8>,
    /// Free text that is passed through when the request is of no known kind.
    pub other_ev: Option<String>,
}

/// The mathematical value of a [`SetLedEvent`].
pub struct SetLedEventView {
    pub event_type: Seq<char>,
    pub color: Option<Seq<char>>,
    pub brightness: Option<u8>,
    pub other_ev: Option<Seq<char>>,
}

impl View for SetLedEvent {
    type V = SetLedEventView;

    open spec fn view(&self) -> SetLedEventView {
        SetLedEventView {
            event_type: self.event_type@,
            color: text_view(self.color),
            brightness: self.brightness,
            other_ev: text_view(self.other_ev),
        }
    }
}

/// The event that a request stands for.
///
/// A request of a known kind whose companion field is present is that event.
/// Every other request, among them a `"color"` without a colour and a
/// `"brightness"` without a level, is `Other` with the free text of the
/// request.
pub open spec fn event_of(request: SetLedEventView) -> EventView {
    if request.event_type == "on"@ {
        EventView::On
    } else if request.event_type == "off"@ {
        EventView::Off
    } else if request.event_type == "color"@ && request.color is Some {
        EventView::Color(request.color->0)
    } else if request.event_type == "brightness"@ && request.brightness is Some {
        EventView::Brightness(request.brightness->0)
    } else {
        EventView::Other(request.other_ev)
    }
}

/// Whether two texts are the same, character by character.
fn same_text(text: &str, word: &str) -> (same: bool)
    ensures
        same == (text@ == word@),
{
    let n = text.unicode_len();
    if word.unicode_len() != n {
        return false;
    }
    let mut i: usize = 0;
    while i < n
        invariant
            i <= n,
            n == text@.len(),
            n == word@.len(),
            forall|k: int| 0 <= k < i ==> text@[k] == word@[k],
        decreases n - i,
    {
        if text.get_char(i) != word.get_char(i) {
            return false;
        }
        i += 1;
    }
    assert(text@ =~= word@);
    true
}

impl FromSpecImpl<SetLedEvent> for Event {
    open spec fn obeys_from_spec() -> bool {
        true
    }

    open spec fn from_spec(request: SetLedEvent) -> Event {
        if request.event_type@ == "on"@ {
            Event::On
        } else if request.event_type@ == "off"@ {
            Event::Off
        } else if request.event_type@ == "color"@ && request.color is Some {
            Event::Color(request.color->0)
        } else if request.event_type@ == "brightness"@ && request.brightness is Some {
            Event::Brightness(request.brightness->0)
        } else {
            Event::Other(request.other_ev)
        }
    }
}

impl From<SetLedEvent> for Event {
    /// Reads a request as the event it stands for.
    fn from(request: SetLedEvent) -> (event: Event)
        ensures
            event@ == event_of(request@),
    {
        let kind = request.event_type.as_str();
        if same_text(kind, "on") {
            Event::On
        } else if same_text(kind, "off") {
            Event::Off
        } else if same_text(kind, "color") && request.color.is_some() {
            Event::Color(request.color.unwrap())
        } else if same_text(kind, "brightness") && request.brightness.is_some() {
            Event::Brightness(request.brightness.unwrap())
        } else {
            Event::Other(request.other_ev)
        }
    }
}

} // verus!
