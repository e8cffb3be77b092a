//! Events, keys, and the fixed-size record an event travels in.
use vstd::prelude::*;

verus! {

/// Raw code of the Up key.
pub const KEY_UP: u8 = 0;
/// Raw code of the Down key.
pub const KEY_DOWN: u8 = 1;
/// Raw code of the Right key.
pub const KEY_RIGHT: u8 = 2;
/// Raw code of the Left key.
pub const KEY_LEFT: u8 = 3;
/// Raw code of the centre (confirm) key.
pub const KEY_CENTER: u8 = 4;
/// Raw code of the Back key.
pub const KEY_BACK: u8 = 5;

/// Record tag of an input event.
pub const TAG_INPUT: u8 = 0;
/// Record tag of a heartbeat tick.
pub const TAG_TICK: u8 = 1;

/// A physical key of the device, as far as the application tells keys apart.
#[derive(Clone, Copy, Debug, PartialEq, Eq, Structural)]
pub enum Key {
    Up,
    Down,
    Right,
    Left,
    Center,
    Back,
}

/// The key a raw code stands for, if any.
pub open spec fn key_of(code: u8) -> Option<Key> {
    if code == KEY_UP {
        Some(Key::Up)
    } else if code == KEY_DOWN {
        Some(Key::Down)
    } else if code == KEY_RIGHT {
        Some(Key::Right)
    } else if code == KEY_LEFT {
        Some(Key::Left)
    } else if code == KEY_CENTER {
        Some(Key::Center)
    } else if code == KEY_BACK {
        Some(Key::Back)
    } else {
        None
    }
}

impl Key {
    /// Classifies a raw key code; codes of no known key give `None`.
    pub fn from_code(code: u8) -> (r: Option<Key>)
        ensures
            r == key_of(code),
    {
        match code {
            KEY_UP => Some(Key::Up),
            KEY_DOWN => Some(Key::Down),
            KEY_RIGHT => Some(Key::Right),
            KEY_LEFT => Some(Key::Left),
            KEY_CENTER => Some(Key::Center),
            KEY_BACK => Some(Key::Back),
            _ => None,
        }
    }
}

/// One event of the merged stream. An input carries its key code by value,
/// so the event stays meaningful after its producer has returned.
#[derive(Clone, Copy, Debug, PartialEq, Eq, Structural)]
pub enum Event {
    Tick,
    Input { key: u8 },
}

/// The fixed-size, plain-data form of an event that the host queue copies.
#[derive(Clone, Copy, Debug, PartialEq, Eq, Structural)]
pub struct EventRecord {
    pub tag: u8,
    pub key: u8,
}

/// The record an event is written as.
pub open spec fn record_of(e: Event) -> EventRecord {
    match e {
        Event::Tick => EventRecord { tag: TAG_TICK, key: 0 },
        Event::Input { key } => EventRecord { tag: TAG_INPUT, key },
    }
}

/// The event a record holds; a record with an unknown tag holds none.
pub open spec fn event_of(r: EventRecord) -> Option<Event> {
    if r.tag == TAG_TICK {
        Some(Event::Tick)
    } else if r.tag == TAG_INPUT {
        Some(Event::Input { key: r.key })
    } else {
        None
    }
}

impl Event {
    /// The event a producer emits for a key transition.
    pub fn input(key: u8) -> (r: Event)
        ensures
            r == (Event::Input { key }),
    {
        Event::Input { key }
    }

    /// Writes the event as a queue record.
    pub fn encode(&self) -> (r: EventRecord)
        ensures
            r == record_of(*self),
    {
        match *self {
            Event::Tick => EventRecord { tag: TAG_TICK, key: 0 },
            Event::Input { key } => EventRecord { tag: TAG_INPUT, key },
        }
    }

    /// Reads an event back from a queue record.
    pub fn decode(r: &EventRecord) -> (e: Option<Event>)
        ensures
            e == event_of(*r),
    {
        if r.tag == TAG_TICK {
            Some(Event::Tick)
        } else if r.tag == TAG_INPUT {
            Some(Event::Input { key: r.key })
        } else {
            None
        }
    }
}

/// Reading back a written event gives that same event: a tick is never read
/// as an input, an input never as a tick, and an input keeps its key.
pub proof fn lemma_tag_round_trip(e: Event)
    ensures
        event_of(record_of(e)) == Some(e),
        (e is Tick) <==> record_of(e).tag == TAG_TICK,
        (e is Input) <==> record_of(e).tag == TAG_INPUT,
{
}

} // verus!
