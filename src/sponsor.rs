//! Actors, events and the sponsor that owns them.

use vstd::prelude::*;
use std::collections::VecDeque;
use crate::behavior::{debug_beh, keyboard_beh, sink_beh, tick_beh};
use crate::decoder::{add_byte, new_decoder, process_keyevent, Decoder};
use crate::message::{scancode_of, tick_symbol, Behavior, Effect, Key, Message, Outcome, Output};

verus! {

/// Names an actor within the sponsor that created it: its place in the
/// registry, which only grows.
pub type ActorHandle = usize;

/// A unit of reactive behavior with optional private state.
#[derive(Clone, Copy, Debug, PartialEq, Eq, Structural)]
pub struct Actor {
    pub behavior: Behavior,
    pub state: Option<Message>,
}

/// One message bound to its target actor; dispatched once.
#[derive(Clone, Copy, Debug, PartialEq, Eq, Structural)]
pub struct Event {
    pub target: ActorHandle,
    pub message: Message,
}

/// The runtime: a registry of actors, a FIFO queue of pending events, the
/// outputs that reactions handed to the display, and the key decoder that
/// keyboard reactions feed, with the bytes fed to it so far.
///
/// Interrupt top-halves send and the foreground loop dispatches; whoever
/// embeds a sponsor masks interrupts around each call, so that every queue
/// mutation is atomic with respect to the others.
pub struct Sponsor {
    actors: Vec<Actor>,
    events: VecDeque<Event>,
    log: Vec<Output>,
    decoder: Decoder,
    fed: Ghost<Seq<u8>>,
}

/// What a sponsor holds, as mathematical values.
pub ghost struct SponsorModel {
    pub actors: Seq<Actor>,
    pub pending: Seq<Event>,
    pub log: Seq<Output>,
    /// The scancode bytes fed to the key decoder, oldest first.
    pub fed: Seq<u8>,
}

/// What a reaction of `actor` to `event` hands to the display, for every
/// behavior but the keyboard's, whose output depends on the decoder.
pub open spec fn reaction_output(actor: Actor, event: Event) -> Option<Output> {
    match actor.behavior {
        Behavior::Sink => None,
        Behavior::Debug => Some(Output::Debug { state: actor.state, message: event.message }),
        Behavior::Tick => Some(Output::Status(tick_symbol(event.message))),
        Behavior::Keyboard => None,
    }
}

impl SponsorModel {
    /// A sponsor with no actor, no pending event and no output.
    pub open spec fn empty() -> SponsorModel {
        SponsorModel {
            actors: Seq::empty(),
            pending: Seq::empty(),
            log: Seq::empty(),
            fed: Seq::empty(),
        }
    }

    /// Every pending event targets a registered actor.
    pub open spec fn well_formed(self) -> bool {
        forall|i: int| 0 <= i < self.pending.len() ==> #[trigger] self.pending[i].target
            < self.actors.len()
    }

    /// Whether `h` names an actor of this sponsor.
    pub open spec fn has_actor(self, h: ActorHandle) -> bool {
        h < self.actors.len()
    }

    /// The actor that handle `h` names.
    pub open spec fn actor(self, h: ActorHandle) -> Actor {
        self.actors[h as int]
    }

    /// After registering `a`.
    pub open spec fn created(self, a: Actor) -> SponsorModel {
        SponsorModel { actors: self.actors.push(a), ..self }
    }

    /// After appending `e` to the tail of the queue.
    pub open spec fn sent(self, e: Event) -> SponsorModel {
        SponsorModel { pending: self.pending.push(e), ..self }
    }

    /// After removing the head of the queue.
    pub open spec fn popped(self) -> SponsorModel {
        SponsorModel { pending: self.pending.drop_first(), ..self }
    }

    /// After handing `o` to the display.
    pub open spec fn emitted(self, o: Output) -> SponsorModel {
        SponsorModel { log: self.log.push(o), ..self }
    }

    /// After feeding `byte` to the key decoder.
    pub open spec fn fed_byte(self, byte: u8) -> SponsorModel {
        SponsorModel { fed: self.fed.push(byte), ..self }
    }

    /// After showing the key `key` that the decoder resolved, if any.
    pub open spec fn shown(self, key: Option<Key>) -> SponsorModel {
        match key {
            Some(k) => self.emitted(Output::Key(k)),
            None => self,
        }
    }

    /// `post` is what a reaction of `actor` to `event` may leave of `self`:
    /// registry and queue untouched. A keyboard actor feeds the low byte of
    /// the message to the decoder and shows the key that comes back, if any;
    /// every other actor adds the output of `reaction_output`.
    pub open spec fn reacted(self, actor: Actor, event: Event, post: SponsorModel) -> bool {
        if actor.behavior == Behavior::Keyboard {
            exists|key: Option<Key>| post == #[trigger] self.fed_byte(scancode_of(event.message)).shown(key)
        } else {
            post == match reaction_output(actor, event) {
                Some(o) => self.emitted(o),
                None => self,
            }
        }
    }

    /// `post` is what one dispatch may leave of `self`, when the queue is not
    /// empty: the head event is removed and its target's reaction is run.
    pub open spec fn dispatched(self, post: SponsorModel) -> bool {
        let e = self.pending[0];
        self.popped().reacted(self.actor(e.target), e, post)
    }
}

impl View for Sponsor {
    type V = SponsorModel;

    closed spec fn view(&self) -> SponsorModel {
        SponsorModel {
            actors: self.actors@,
            pending: self.events@,
            log: self.log@,
            fed: self.fed@,
        }
    }
}

impl Actor {
    /// An actor with the given reaction and initial state.
    pub fn new(behavior: Behavior, state: Option<Message>) -> (r: Actor)
        ensures
            r == (Actor { behavior, state }),
    {
        Actor { behavior, state }
    }

    /// Runs this actor's reaction to `event` against `sponsor`; the event
    /// targets this actor.
    pub fn react(&self, event: &Event, sponsor: &mut Sponsor) -> (r: Effect)
        requires
            old(sponsor).wf(),
            old(sponsor)@.has_actor(event.target),
            old(sponsor)@.actor(event.target) == *self,
        ensures
            r,
            final(sponsor).wf(),
            old(sponsor)@.reacted(*self, *event, final(sponsor)@),
    {
        match self.behavior {
            Behavior::Sink => sink_beh(event, sponsor),
            Behavior::Debug => debug_beh(event, sponsor),
            Behavior::Tick => tick_beh(event, sponsor),
            Behavior::Keyboard => keyboard_beh(event, sponsor),
        }
    }
}

impl Event {
    /// An event that carries a copy of `message` to `target`.
    pub fn new(target: ActorHandle, message: &Message) -> (r: Event)
        ensures
            r == (Event { target, message: *message }),
    {
        Event { target, message: *message }
    }

    /// Runs the target's reaction to this event, once.
    pub fn dispatch(&self, sponsor: &mut Sponsor) -> (r: Effect)
        requires
            old(sponsor).wf(),
            old(sponsor)@.has_actor(self.target),
        ensures
            r,
            final(sponsor).wf(),
            old(sponsor)@.reacted(old(sponsor)@.actor(self.target), *self, final(sponsor)@),
    {
        let actor = sponsor.actors[self.target];
        actor.react(self, sponsor)
    }
}

impl Sponsor {
    /// The sponsor's invariant.
    pub open spec fn wf(&self) -> bool {
        self@.well_formed()
    }

    /// A sponsor with no actor and no pending event.
    pub fn new() -> (r: Sponsor)
        ensures
            r@ == SponsorModel::empty(),
            r.wf(),
    {
        Sponsor {
            actors: Vec::new(),
            events: VecDeque::new(),
            log: Vec::new(),
            decoder: new_decoder(),
            fed: Ghost(Seq::empty()),
        }
    }

    /// Registers a new actor and returns its handle.
    pub fn create(&mut self, behavior: Behavior, state: Option<Message>) -> (r: ActorHandle)
        requires
            old(self).wf(),
        ensures
            r == old(self)@.actors.len(),
            final(self)@ == old(self)@.created(Actor { behavior, state }),
            final(self).wf(),
    {
        let handle = self.actors.len();
        self.actors.push(Actor::new(behavior, state));
        handle
    }

    /// Appends an event for `target` to the tail of the queue.
    pub fn send(&mut self, target: ActorHandle, message: &Message)
        requires
            old(self).wf(),
            old(self)@.has_actor(target),
        ensures
            final(self)@ == old(self)@.sent(Event { target, message: *message }),
            final(self).wf(),
    {
        let event = Event::new(target, message);
        self.events.push_back(event);
        assert forall|i: int| 0 <= i < self@.pending.len() implies #[trigger] self@.pending[i].target
            < self@.actors.len() by {
            if i < old(self)@.pending.len() {
                assert(self@.pending[i] == old(self)@.pending[i]);
            }
        }
    }

    /// Removes and returns the event at the head of the queue, if any.
    pub fn next_event(&mut self) -> (r: Option<Event>)
        requires
            old(self).wf(),
        ensures
            final(self).wf(),
            old(self)@.pending.len() == 0 ==> r is None && final(self)@ == old(self)@,
            old(self)@.pending.len() > 0 ==> r == Some(old(self)@.pending[0]) && final(self)@
                == old(self)@.popped(),
    {
        let r = self.events.pop_front();
        proof {
            assert(self@.pending =~= old(self)@.pending.drop_first() || r is None);
        }
        r
    }

    /// Pops the head event and runs its target's reaction; `Idle` when no
    /// event is pending, with nothing changed.
    pub fn dispatch(&mut self) -> (r: Outcome)
        requires
            old(self).wf(),
        ensures
            final(self).wf(),
            old(self)@.pending.len() == 0 ==> r == Outcome::Idle && final(self)@ == old(self)@,
            old(self)@.pending.len() > 0 ==> r == Outcome::Handled(true) && old(
                self,
            )@.dispatched(final(self)@),
    {
        match self.next_event() {
            Some(event) => Outcome::Handled(event.dispatch(self)),
            None => Outcome::Idle,
        }
    }

    /// The actor that `h` names.
    pub fn actor(&self, h: ActorHandle) -> (r: Actor)
        requires
            self@.has_actor(h),
        ensures
            r == self@.actor(h),
    {
        self.actors[h]
    }

    /// The number of registered actors.
    pub fn actor_count(&self) -> (r: usize)
        ensures
            r == self@.actors.len(),
    {
        self.actors.len()
    }

    /// The number of pending events.
    pub fn pending_count(&self) -> (r: usize)
        ensures
            r == self@.pending.len(),
    {
        self.events.len()
    }

    /// The pending event at position `i` from the head.
    pub fn pending_at(&self, i: usize) -> (r: Event)
        requires
            i < self@.pending.len(),
        ensures
            r == self@.pending[i as int],
    {
        self.events[i]
    }

    /// The outputs that reactions handed to the display and that nobody
    /// took yet, oldest first.
    pub fn output(&self) -> (r: &Vec<Output>)
        ensures
            r@ == self@.log,
    {
        &self.log
    }

    /// Takes the outputs handed to the display so far, oldest first.
    pub fn take_output(&mut self) -> (r: Vec<Output>)
        requires
            old(self).wf(),
        ensures
            r@ == old(self)@.log,
            final(self)@ == (SponsorModel { log: Seq::empty(), ..old(self)@ }),
            final(self).wf(),
    {
        let mut taken: Vec<Output> = Vec::new();
        std::mem::swap(&mut taken, &mut self.log);
        assert(self@.pending == old(self)@.pending);
        taken
    }

    /// Hands `o` to the display.
    pub(crate) fn emit(&mut self, o: Output)
        requires
            old(self).wf(),
        ensures
            final(self)@ == old(self)@.emitted(o),
            final(self).wf(),
    {
        self.log.push(o);
        assert(self@.pending == old(self)@.pending);
        assert(self@.actors == old(self)@.actors);
    }

    /// Feeds one scancode byte to the key decoder; the key it resolves, if any.
    pub fn decode(&mut self, byte: u8) -> (r: Option<Key>)
        requires
            old(self).wf(),
        ensures
            final(self)@ == old(self)@.fed_byte(byte),
            final(self).wf(),
    {
        self.fed = Ghost(self.fed@.push(byte));
        assert(self@.pending == old(self)@.pending);
        match add_byte(&mut self.decoder, byte) {
            Some(ev) => process_keyevent(&mut self.decoder, ev),
            None => None,
        }
    }

    /// Shows the key that the decoder resolved, if any: `Some(k)` adds
    /// `Output::Key(k)` to the display output, `None` adds nothing.
    pub fn show_key(&mut self, key: Option<Key>)
        requires
            old(self).wf(),
        ensures
            final(self)@ == old(self)@.shown(key),
            final(self).wf(),
    {
        match key {
            Some(k) => self.emit(Output::Key(k)),
            None => {},
        }
    }
}

} // verus!
