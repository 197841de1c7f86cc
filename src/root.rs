//! The runtime context that interrupt top-halves and the dispatch loop share:
//! the root sponsor, the timer and keyboard actors, and the tick counter.

use vstd::prelude::*;
use crate::message::{Behavior, Message, Outcome, Output};
use crate::sponsor::{Actor, ActorHandle, Event, Sponsor, SponsorModel};

verus! {

/// The message that `try_actors` sends to its debug actor.
pub const TRY_MESSAGE: Message = 0xC0FFEEFACADE;

/// The root sponsor, the fixed interrupt-target actors and the tick counter.
///
/// Built once by `init` before interrupts are enabled. Only the timer
/// top-half writes the counter; foreground code only reads it.
pub struct Root {
    sponsor: Sponsor,
    timer: ActorHandle,
    keyboard: ActorHandle,
    ticks: Message,
}

/// What a `Root` holds, as mathematical values.
pub ghost struct RootModel {
    pub sponsor: SponsorModel,
    pub timer: ActorHandle,
    pub keyboard: ActorHandle,
    pub ticks: Message,
}

impl RootModel {
    /// The sponsor is well formed, the timer and keyboard handles name a tick
    /// and a keyboard actor, and the counter is not negative.
    pub open spec fn well_formed(self) -> bool {
        &&& self.sponsor.well_formed()
        &&& self.sponsor.has_actor(self.timer)
        &&& self.sponsor.has_actor(self.keyboard)
        &&& self.sponsor.actor(self.timer).behavior == Behavior::Tick
        &&& self.sponsor.actor(self.keyboard).behavior == Behavior::Keyboard
        &&& self.ticks >= 0
    }

    /// After one timer interrupt: the counter's value before the increment
    /// is sent to the timer actor.
    pub open spec fn ticked(self) -> RootModel {
        RootModel {
            sponsor: self.sponsor.sent(Event { target: self.timer, message: self.ticks }),
            ticks: (self.ticks + 1) as Message,
            ..self
        }
    }

    /// After one keyboard interrupt with `scancode`.
    pub open spec fn keyed(self, scancode: u8) -> RootModel {
        RootModel {
            sponsor: self.sponsor.sent(Event { target: self.keyboard, message: scancode as Message }),
            ..self
        }
    }
}

impl View for Root {
    type V = RootModel;

    closed spec fn view(&self) -> RootModel {
        RootModel {
            sponsor: self.sponsor@,
            timer: self.timer,
            keyboard: self.keyboard,
            ticks: self.ticks,
        }
    }
}

impl Root {
    /// The context's invariant.
    pub open spec fn wf(&self) -> bool {
        self@.well_formed()
    }

    /// Pops the root sponsor's head event and runs its reaction; `Idle`
    /// when none is pending.
    pub fn dispatch(&mut self) -> (r: Outcome)
        requires
            old(self).wf(),
        ensures
            final(self).wf(),
            final(self)@.timer == old(self)@.timer,
            final(self)@.keyboard == old(self)@.keyboard,
            final(self)@.ticks == old(self)@.ticks,
            old(self)@.sponsor.pending.len() == 0 ==> r == Outcome::Idle && final(self)@ == old(
                self,
            )@,
            old(self)@.sponsor.pending.len() > 0 ==> r == Outcome::Handled(true) && old(
                self,
            )@.sponsor.dispatched(final(self)@.sponsor),
    {
        self.sponsor.dispatch()
    }

    /// Takes the outputs that the root sponsor's reactions handed to the
    /// display so far, oldest first.
    pub fn take_output(&mut self) -> (r: Vec<Output>)
        requires
            old(self).wf(),
        ensures
            r@ == old(self)@.sponsor.log,
            final(self)@ == (RootModel {
                sponsor: SponsorModel { log: Seq::empty(), ..old(self)@.sponsor },
                ..old(self)@
            }),
            final(self).wf(),
    {
        self.sponsor.take_output()
    }
}

/// Builds the root context: a fresh sponsor with a tick actor (handle 0) and
/// a keyboard actor (handle 1), and the counter at zero.
pub fn init() -> (r: Root)
    ensures
        r.wf(),
        r@.sponsor.actors == seq![
            Actor { behavior: Behavior::Tick, state: None },
            Actor { behavior: Behavior::Keyboard, state: None },
        ],
        r@.sponsor.pending.len() == 0,
        r@.sponsor.log.len() == 0,
        r@.timer == 0,
        r@.keyboard == 1,
        r@.ticks == 0,
{
    let mut sponsor = Sponsor::new();
    let timer = sponsor.create(Behavior::Tick, None);
    let keyboard = sponsor.create(Behavior::Keyboard, None);
    proof {
        assert(sponsor@.actors =~= seq![
            Actor { behavior: Behavior::Tick, state: None },
            Actor { behavior: Behavior::Keyboard, state: None },
        ]);
    }
    Root { sponsor, timer, keyboard, ticks: 0 }
}

/// The timer top-half: sends the counter to the timer actor and increments it.
pub fn notify_timer_actor(root: &mut Root)
    requires
        old(root).wf(),
        old(root)@.ticks < Message::MAX,
    ensures
        final(root)@ == old(root)@.ticked(),
        final(root).wf(),
{
    let now = root.ticks;
    root.ticks = root.ticks + 1;
    root.sponsor.send(root.timer, &now);
}

/// The number of timer interrupts so far.
pub fn now(root: &Root) -> (r: Message)
    ensures
        r == root@.ticks,
{
    root.ticks
}

/// The keyboard top-half: sends the raw scancode to the keyboard actor.
pub fn notify_keyboard_actor(root: &mut Root, scancode: u8)
    requires
        old(root).wf(),
    ensures
        final(root)@ == old(root)@.keyed(scancode),
        final(root).wf(),
{
    let code: Message = scancode as Message;
    root.sponsor.send(root.keyboard, &code);
}

/// The root sponsor.
pub fn root_sponsor(root: &Root) -> (r: &Sponsor)
    ensures
        r@ == root@.sponsor,
{
    &root.sponsor
}

/// Creates a debug actor in the root sponsor and sends it `TRY_MESSAGE`;
/// returns the new actor's handle.
pub fn try_actors(root: &mut Root) -> (r: ActorHandle)
    requires
        old(root).wf(),
    ensures
        final(root).wf(),
        r == old(root)@.sponsor.actors.len(),
        final(root)@ == (RootModel {
            sponsor: old(root)@.sponsor.created(Actor { behavior: Behavior::Debug, state: None }).sent(
                Event { target: r, message: TRY_MESSAGE },
            ),
            ..old(root)@
        }),
{
    let debug = root.sponsor.create(Behavior::Debug, None);
    root.sponsor.send(debug, &TRY_MESSAGE);
    debug
}

} // verus!
