//! What the consumer does with one event.
use vstd::prelude::*;
use crate::event::{Event, Key, key_of};

verus! {

/// A notification the host shows: a backlight or an LED flash.
#[derive(Clone, Copy, Debug, PartialEq, Eq, Structural)]
pub enum Effect {
    BacklightOn,
    BlinkRed,
    BlinkBlue,
    BlinkYellow,
    BlinkWhite,
    BlinkGreen,
}

/// The consumer's answer to one event.
#[derive(Clone, Copy, Debug, PartialEq, Eq, Structural)]
pub enum Action {
    /// Trigger this effect, then wait for the next event.
    Notify(Effect),
    /// Do nothing, then wait for the next event.
    Ignore,
    /// End the session.
    Stop,
}

/// The effect each direction key triggers.
pub open spec fn direction_effect(k: Key) -> Option<Effect> {
    match k {
        Key::Left => Some(Effect::BlinkRed),
        Key::Right => Some(Effect::BlinkBlue),
        Key::Down => Some(Effect::BlinkYellow),
        Key::Up => Some(Effect::BlinkWhite),
        _ => None,
    }
}

/// The heartbeat effect, triggered once per tick.
pub open spec fn heartbeat() -> Effect {
    Effect::BlinkGreen
}

/// The action an event calls for.
pub open spec fn action_of(e: Event) -> Action {
    match e {
        Event::Tick => Action::Notify(heartbeat()),
        Event::Input { key } => match key_of(key) {
            Some(Key::Back) => Action::Stop,
            Some(k) => match direction_effect(k) {
                Some(fx) => Action::Notify(fx),
                None => Action::Ignore,
            },
            None => Action::Ignore,
        },
    }
}

/// Whether a key is one of the four directions.
pub open spec fn is_direction(k: Key) -> bool {
    k == Key::Up || k == Key::Down || k == Key::Left || k == Key::Right
}

/// Decides what to do with one event: a tick flashes green, Back stops,
/// each direction key flashes its own colour, any other key is ignored.
pub fn dispatch(e: Event) -> (r: Action)
    ensures
        r == action_of(e),
{
    match e {
        Event::Tick => Action::Notify(Effect::BlinkGreen),
        Event::Input { key } => match Key::from_code(key) {
            Some(Key::Back) => Action::Stop,
            Some(Key::Left) => Action::Notify(Effect::BlinkRed),
            Some(Key::Right) => Action::Notify(Effect::BlinkBlue),
            Some(Key::Down) => Action::Notify(Effect::BlinkYellow),
            Some(Key::Up) => Action::Notify(Effect::BlinkWhite),
            _ => Action::Ignore,
        },
    }
}

/// Each direction key triggers exactly one effect, and two different
/// direction keys never trigger the same effect, nor the heartbeat's.
pub proof fn lemma_direction_effects(a: u8, b: u8)
    requires
        key_of(a) is Some && is_direction(key_of(a)->0),
        key_of(b) is Some && is_direction(key_of(b)->0),
    ensures
        action_of(Event::Input { key: a }) is Notify,
        action_of(Event::Input { key: a }) != Action::Notify(heartbeat()),
        key_of(a) != key_of(b) ==> action_of(Event::Input { key: a }) != action_of(
            Event::Input { key: b },
        ),
        key_of(a) == key_of(b) ==> action_of(Event::Input { key: a }) == action_of(
            Event::Input { key: b },
        ),
{
}

/// An input whose key is neither a direction nor Back triggers no effect and
/// does not end the session.
pub proof fn lemma_other_keys_ignored(code: u8)
    requires
        !(key_of(code) is Some && (is_direction(key_of(code)->0) || key_of(code)->0 == Key::Back)),
    ensures
        action_of(Event::Input { key: code }) == Action::Ignore,
{
}

/// Back is the only event that ends the session.
pub proof fn lemma_only_back_stops(e: Event)
    ensures
        action_of(e) == Action::Stop <==> (e matches Event::Input { key } && key_of(key) == Some(
            Key::Back,
        )),
{
}

} // verus!
