//! An actor-model execution core for a single-core, interrupt-driven kernel.
//!
//! Interrupt top-halves turn hardware signals into messages, a sponsor queues
//! them as events, and a foreground loop dispatches each event to the
//! reaction of its target actor.

pub mod behavior;
pub mod decoder;
pub mod laws;
pub mod message;
pub mod root;
pub mod sponsor;

pub use behavior::{debug_beh, keyboard_beh, sink_beh, tick_beh};
pub use message::{Behavior, Effect, Key, Message, Outcome, Output};
pub use root::{
    init, notify_keyboard_actor, notify_timer_actor, now, root_sponsor, try_actors, Root,
    RootModel,
};
pub use sponsor::{Actor, ActorHandle, Event, Sponsor, SponsorModel};
