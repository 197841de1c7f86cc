//! The values exchanged between actors, the sponsor and the dispatch loop.

use vstd::prelude::*;

verus! {

/// A message: one 64-bit scalar, copied into each event.
pub type Message = i64;

/// What one reaction reports: `true` when the event was handled.
pub type Effect = bool;

/// What one call of `dispatch` came to.
///
/// `Idle` says the queue was empty; it is a value of its own, never a
/// failed `Effect`.
#[derive(Clone, Copy, Debug, PartialEq, Eq, Structural)]
pub enum Outcome {
    Handled(Effect),
    Idle,
}

/// The built-in reactions an actor can have.
#[derive(Clone, Copy, Debug, PartialEq, Eq, Structural)]
pub enum Behavior {
    /// Ignores the event and reports success.
    Sink,
    /// Records the actor's state and the message.
    Debug,
    /// Shows a rotating progress indicator chosen by the counter in the message.
    Tick,
    /// Feeds the scancode in the message to the key decoder and shows the key.
    Keyboard,
}

/// A key that the scancode decoder resolved.
#[derive(Debug, PartialEq, Eq)]
pub enum Key {
    /// A printable character.
    Unicode(char),
    /// A named key without a character, by its name.
    Raw(String),
}

/// One thing a reaction hands to the display.
#[derive(Debug, PartialEq, Eq)]
pub enum Output {
    /// A progress-indicator symbol for the status position.
    Status(u8),
    /// A diagnostic line: the actor's state, if it has one, and the message.
    Debug { state: Option<Message>, message: Message },
    /// A decoded key.
    Key(Key),
}

/// ASCII `/`.
pub const SLASH: u8 = 47;
/// ASCII `-`.
pub const DASH: u8 = 45;
/// ASCII `\`.
pub const BACKSLASH: u8 = 92;
/// ASCII `|`.
pub const BAR: u8 = 124;

/// The indicator symbol for phase `phase` (taken modulo 4).
pub open spec fn status_symbol(phase: int) -> u8 {
    let p = phase % 4;
    if p == 0 {
        SLASH
    } else if p == 1 {
        DASH
    } else if p == 2 {
        BACKSLASH
    } else {
        BAR
    }
}

/// The indicator symbol that a tick with counter `counter` shows.
pub open spec fn tick_symbol(counter: Message) -> u8 {
    status_symbol(counter as int)
}

/// The scancode byte that a keyboard message carries: its low byte.
pub open spec fn scancode_of(message: Message) -> u8 {
    (message as int % 256) as u8
}

/// Computes `scancode_of(message)`.
pub fn scancode(message: Message) -> (r: u8)
    ensures
        r == scancode_of(message),
{
    let low: i64 = match message.checked_rem_euclid(256) {
        Some(m) => m,
        None => 0,
    };
    low as u8
}

/// Computes `tick_symbol(counter)`: the symbol at `counter mod 4` of `/ - \ |`.
pub fn indicator(counter: Message) -> (r: u8)
    ensures
        r == tick_symbol(counter),
{
    let low: i64 = match counter.checked_rem_euclid(4) {
        Some(m) => m,
        None => 0,
    };
    if low == 0 {
        SLASH
    } else if low == 1 {
        DASH
    } else if low == 2 {
        BACKSLASH
    } else {
        BAR
    }
}

} // verus!
