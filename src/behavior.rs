//! The built-in reactions.

use vstd::prelude::*;
use crate::message::{indicator, scancode, scancode_of, tick_symbol, Effect, Key, Output};
use crate::sponsor::{Actor, Event, Sponsor};

verus! {

/// Ignores the event and reports success.
pub fn sink_beh(_event: &Event, _sponsor: &mut Sponsor) -> (r: Effect)
    ensures
        r,
        final(_sponsor)@ == old(_sponsor)@,
{
    true
}


/// Shows the progress-indicator symbol of the counter in the message.
pub fn tick_beh(event: &Event, sponsor: &mut Sponsor) -> (r: Effect)
    requires
        old(sponsor).wf(),
    ensures
        r,
        final(sponsor)@ == old(sponsor)@.emitted(Output::Status(tick_symbol(event.message))),
        final(sponsor).wf(),
{
    sponsor.emit(Output::Status(indicator(event.message)));
    true
}

/// Feeds the low byte of the message to the key decoder and shows the key
/// it resolves, if any. A scancode that completes no key is no failure.
pub fn keyboard_beh(event: &Event, sponsor: &mut Sponsor) -> (r: Effect)
    requires
        old(sponsor).wf(),
    ensures
        r,
        final(sponsor).wf(),
        exists|key: Option<Key>|
            final(sponsor)@ == #[trigger] old(sponsor)@.fed_byte(scancode_of(event.message)).shown(
                key,
            ),
{
    let key = sponsor.decode(scancode(event.message));
    sponsor.show_key(key);
    true
}

/// Records the target's state, if it has one, and the message.
pub fn debug_beh(event: &Event, sponsor: &mut Sponsor) -> (r: Effect)
    requires
        old(sponsor).wf(),
        old(sponsor)@.has_actor(event.target),
    ensures
        r,
        final(sponsor)@ == old(sponsor)@.emitted(
            Output::Debug { state: old(sponsor)@.actor(event.target).state, message: event.message },
        ),
        final(sponsor).wf(),
{
    let actor = sponsor.actor(event.target);
    sponsor.emit(Output::Debug { state: actor.state, message: event.message });
    true
}

} // verus!
