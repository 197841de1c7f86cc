//! Properties that relate several operations of the core.

use vstd::prelude::*;
use crate::message::{status_symbol, tick_symbol, Behavior, Message, Output};
use crate::root::RootModel;
use crate::sponsor::{Event, SponsorModel};

verus! {

/// The sponsor after sending `es`, in order.
pub open spec fn send_all(m: SponsorModel, es: Seq<Event>) -> SponsorModel
    decreases es.len(),
{
    if es.len() == 0 {
        m
    } else {
        send_all(m, es.drop_last()).sent(es.last())
    }
}

/// The root context after `k` timer interrupts.
pub open spec fn ticked_n(r: RootModel, k: nat) -> RootModel
    decreases k,
{
    if k == 0 {
        r
    } else {
        ticked_n(r, (k - 1) as nat).ticked()
    }
}

/// The events that `k` timer interrupts send from a zero counter: the
/// counter values `0, 1, ..., k - 1`, all to the timer actor.
pub open spec fn tick_events(timer: usize, k: nat) -> Seq<Event> {
    Seq::new(k, |i: int| Event { target: timer, message: i as Message })
}

/// The display outputs of dispatching those events: the indicator symbols
/// of `0, 1, ..., k - 1`.
pub open spec fn tick_outputs(k: nat) -> Seq<Output> {
    Seq::new(k, |i: int| Output::Status(status_symbol(i)))
}

/// Sending appends at the tail: after sends `es` the queue is the old queue
/// followed by `es`, whatever context each send came from.
pub proof fn lemma_send_all(m: SponsorModel, es: Seq<Event>)
    ensures
        send_all(m, es).pending == m.pending + es,
        send_all(m, es).actors == m.actors,
        send_all(m, es).log == m.log,
    decreases es.len(),
{
    if es.len() > 0 {
        lemma_send_all(m, es.drop_last());
        assert(m.pending + es =~= (m.pending + es.drop_last()).push(es.last()));
    }
}

/// First in, first out: starting from an empty queue, sending `es` and then
/// dispatching `es.len()` times delivers `es[i]` at the `i`-th dispatch, runs
/// its target's reaction on it, and leaves the queue empty. `ms` are the
/// states between the dispatches; `ms[i].dispatched(ms[i + 1])` is what
/// `Sponsor::dispatch` ensures of each call on a non-empty queue, which also
/// returns `Handled(true)`.
pub proof fn lemma_fifo(m: SponsorModel, es: Seq<Event>, ms: Seq<SponsorModel>)
    requires
        m.pending.len() == 0,
        ms.len() == es.len() + 1,
        ms[0] == send_all(m, es),
        forall|i: int| 0 <= i < es.len() ==> (#[trigger] ms[i]).dispatched(ms[i + 1]),
    ensures
        forall|i: int| 0 <= i < es.len() ==> (#[trigger] ms[i]).pending[0] == es[i],
        forall|i: int|
            0 <= i < es.len() ==> (#[trigger] ms[i]).popped().reacted(
                ms[i].actor(es[i].target),
                es[i],
                ms[i + 1],
            ),
        ms[es.len() as int].pending.len() == 0,
{
    lemma_send_all(m, es);
    assert(ms[0].pending =~= es.subrange(0, es.len() as int));
    lemma_queue_drains(es, ms, 0);
}

/// Dispatch `j` onward: the queue at state `j` is what is left of `es`.
proof fn lemma_queue_drains(es: Seq<Event>, ms: Seq<SponsorModel>, j: int)
    requires
        0 <= j <= es.len(),
        ms.len() == es.len() + 1,
        ms[j].pending == es.subrange(j, es.len() as int),
        forall|i: int| 0 <= i < es.len() ==> (#[trigger] ms[i]).dispatched(ms[i + 1]),
    ensures
        forall|i: int| j <= i < es.len() ==> (#[trigger] ms[i]).pending[0] == es[i],
        ms[es.len() as int].pending.len() == 0,
    decreases es.len() - j,
{
    if j < es.len() {
        assert(ms[j].dispatched(ms[j + 1]));
        assert(ms[j + 1].pending =~= es.subrange(j + 1, es.len() as int));
        lemma_queue_drains(es, ms, j + 1);
    }
}

/// A send that lands while a dispatch pops (before or after the pop, as the
/// masked critical sections allow) loses and duplicates nothing: the same
/// event is popped and the queue holds the rest followed by the new event.
/// `popped` and `sent` are what `Sponsor::next_event` (the pop inside
/// `Sponsor::dispatch`) and `Sponsor::send` ensure.
pub proof fn lemma_send_during_pop(m: SponsorModel, e: Event)
    requires
        m.pending.len() > 0,
    ensures
        m.popped().sent(e) == m.sent(e).popped(),
        m.sent(e).pending[0] == m.pending[0],
        m.popped().sent(e).pending == m.pending.drop_first().push(e),
        m.popped().sent(e).pending.len() == m.pending.len(),
{
    assert(m.popped().sent(e).pending =~= m.sent(e).popped().pending);
}

/// Dispatching an event to a sink actor has no observable effect beyond
/// removing that event: registry, queue rest and display output stay as
/// they were.
pub proof fn lemma_sink_silent(pre: SponsorModel, post: SponsorModel)
    requires
        pre.pending.len() > 0,
        pre.actor(pre.pending[0].target).behavior == Behavior::Sink,
        pre.dispatched(post),
    ensures
        post == pre.popped(),
{
}

/// `k` timer interrupts from a zero counter and an empty queue queue the
/// counter values `0..k` for the timer actor and leave the counter at `k`.
pub proof fn lemma_ticks_queued(r: RootModel, k: nat)
    requires
        r.ticks == 0,
        r.sponsor.pending.len() == 0,
        k <= Message::MAX,
    ensures
        ticked_n(r, k).ticks == k,
        ticked_n(r, k).sponsor.pending == tick_events(r.timer, k),
        ticked_n(r, k).sponsor.actors == r.sponsor.actors,
        ticked_n(r, k).sponsor.log == r.sponsor.log,
        ticked_n(r, k).timer == r.timer,
    decreases k,
{
    if k > 0 {
        lemma_ticks_queued(r, (k - 1) as nat);
        assert(tick_events(r.timer, k) =~= tick_events(r.timer, (k - 1) as nat).push(
            Event { target: r.timer, message: (k - 1) as Message },
        ));
    }
}

/// `k` timer interrupts on a fresh, well-formed context, then `k`
/// dispatches through the states `ms` (each step what `Sponsor::dispatch`
/// ensures): the counter reads `k`, the `i`-th dispatch delivers counter
/// value `i` to the tick actor, and the tick reaction showed the symbols of
/// `0, 1, ..., k - 1` in that order, each one of `/ - \ |`.
pub proof fn lemma_ticks_shown(r: RootModel, k: nat, ms: Seq<SponsorModel>)
    requires
        r.well_formed(),
        r.ticks == 0,
        r.sponsor.pending.len() == 0,
        k <= Message::MAX,
        ms.len() == k + 1,
        ms[0] == ticked_n(r, k).sponsor,
        forall|i: int| 0 <= i < k ==> (#[trigger] ms[i]).dispatched(ms[i + 1]),
    ensures
        ticked_n(r, k).ticks == k,
        ms[k as int].pending.len() == 0,
        ms[k as int].log == r.sponsor.log + tick_outputs(k),
        forall|i: int|
            0 <= i < k ==> (#[trigger] ms[i]).pending[0] == (Event {
                target: r.timer,
                message: i as Message,
            }),
        forall|i: int|
            0 <= i < k ==> {
                let s = #[trigger] tick_symbol(i as Message);
                s == status_symbol(i) && (s == '/' as u8 || s == '-' as u8 || s == '\\' as u8
                    || s == '|' as u8)
            },
{
    lemma_ticks_queued(r, k);
    assert(ms[0].pending =~= tick_events(r.timer, k).subrange(0, k as int));
    assert(ms[0].log =~= r.sponsor.log + tick_outputs(0));
    lemma_ticks_logged(r, k, ms, 0);
}

proof fn lemma_ticks_logged(r: RootModel, k: nat, ms: Seq<SponsorModel>, j: int)
    requires
        r.well_formed(),
        0 <= j <= k,
        k <= Message::MAX,
        ms.len() == k + 1,
        ms[j].pending == tick_events(r.timer, k).subrange(j, k as int),
        ms[j].actors == r.sponsor.actors,
        ms[j].log == r.sponsor.log + tick_outputs(j as nat),
        forall|i: int| 0 <= i < k ==> (#[trigger] ms[i]).dispatched(ms[i + 1]),
    ensures
        ms[k as int].pending.len() == 0,
        ms[k as int].log == r.sponsor.log + tick_outputs(k),
        forall|i: int|
            j <= i < k ==> (#[trigger] ms[i]).pending[0] == (Event {
                target: r.timer,
                message: i as Message,
            }),
    decreases k - j,
{
    if j < k {
        assert(ms[j].dispatched(ms[j + 1]));
        let e = ms[j].pending[0];
        assert(e == Event { target: r.timer, message: j as Message });
        assert(ms[j].actor(e.target).behavior == Behavior::Tick);
        assert(ms[j + 1].pending =~= tick_events(r.timer, k).subrange(j + 1, k as int));
        assert(tick_outputs((j + 1) as nat) =~= tick_outputs(j as nat).push(
            Output::Status(status_symbol(j)),
        ));
        assert(ms[j + 1].log =~= r.sponsor.log + tick_outputs((j + 1) as nat));
        lemma_ticks_logged(r, k, ms, j + 1);
    } else {
        assert(tick_outputs(k) =~= tick_outputs(j as nat));
    }
}

} // verus!
