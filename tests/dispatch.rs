use actor_core::{
    debug_beh, init, notify_keyboard_actor, notify_timer_actor, now, root_sponsor, sink_beh,
    tick_beh, try_actors, Actor, Behavior, Event, Key, Outcome, Output, Sponsor,
};
use actor_core::message::{indicator, scancode};
use actor_core::root::TRY_MESSAGE;

#[test]
fn fifo_across_two_contexts() {
    let mut s = Sponsor::new();
    let a = s.create(Behavior::Debug, Some(1));
    let b = s.create(Behavior::Debug, Some(2));
    // foreground and interrupt sends, interleaved
    s.send(a, &10);
    s.send(b, &20);
    s.send(a, &11);
    s.send(b, &21);
    for _ in 0..4 {
        assert_eq!(s.dispatch(), Outcome::Handled(true));
    }
    assert_eq!(s.dispatch(), Outcome::Idle);
    assert_eq!(
        s.output(),
        &vec![
            Output::Debug { state: Some(1), message: 10 },
            Output::Debug { state: Some(2), message: 20 },
            Output::Debug { state: Some(1), message: 11 },
            Output::Debug { state: Some(2), message: 21 },
        ]
    );
}

#[test]
fn idle_on_empty_queue() {
    let mut s = Sponsor::new();
    let a = s.create(Behavior::Sink, None);
    assert_eq!(s.dispatch(), Outcome::Idle);
    assert_ne!(s.dispatch(), Outcome::Handled(false));
    assert_eq!(s.actor_count(), 1);
    assert_eq!(s.pending_count(), 0);
    assert_eq!(s.actor(a), Actor { behavior: Behavior::Sink, state: None });
}

#[test]
fn sink_handles_without_output() {
    let mut s = Sponsor::new();
    let a = s.create(Behavior::Sink, None);
    s.send(a, &42);
    s.send(a, &-1);
    assert_eq!(s.dispatch(), Outcome::Handled(true));
    assert_eq!(s.dispatch(), Outcome::Handled(true));
    assert!(s.output().is_empty());
    assert_eq!(s.pending_count(), 0);
    let e = Event::new(a, &3);
    assert!(sink_beh(&e, &mut s));
    assert!(s.output().is_empty());
}

#[test]
fn debug_records_state_and_message() {
    let mut s = Sponsor::new();
    let a = s.create(Behavior::Debug, Some(0x55));
    s.send(a, &0xC0FFEE);
    assert_eq!(s.dispatch(), Outcome::Handled(true));
    assert_eq!(s.output(), &vec![Output::Debug { state: Some(0x55), message: 0xC0FFEE }]);
    let b = s.create(Behavior::Debug, None);
    assert!(debug_beh(&Event::new(b, &9), &mut s));
    assert_eq!(s.output()[1], Output::Debug { state: None, message: 9 });
}

#[test]
fn timer_ticks_show_rotating_symbols() {
    let mut root = init();
    let k: i64 = 6;
    for _ in 0..k {
        notify_timer_actor(&mut root);
    }
    assert_eq!(now(&root), k);
    assert_eq!(root_sponsor(&root).pending_count(), 6);
    for i in 0..6 {
        let e = root_sponsor(&root).pending_at(i);
        assert_eq!(e, Event { target: 0, message: i as i64 });
    }
    for _ in 0..k {
        assert_eq!(root.dispatch(), Outcome::Handled(true));
    }
    assert_eq!(root.dispatch(), Outcome::Idle);
    assert_eq!(
        root.take_output(),
        vec![
            Output::Status(b'/'),
            Output::Status(b'-'),
            Output::Status(b'\\'),
            Output::Status(b'|'),
            Output::Status(b'/'),
            Output::Status(b'-'),
        ]
    );
    assert!(root_sponsor(&root).output().is_empty());
    assert_eq!(now(&root), 6);
}

#[test]
fn indicator_symbols() {
    assert_eq!(indicator(0), b'/');
    assert_eq!(indicator(1), b'-');
    assert_eq!(indicator(2), b'\\');
    assert_eq!(indicator(3), b'|');
    assert_eq!(indicator(4), b'/');
    assert_eq!(indicator(-1), b'|');
    assert_eq!(indicator(i64::MAX), b'|');
    assert_eq!(indicator(i64::MIN), b'/');
}

#[test]
fn tick_beh_shows_symbol() {
    let mut s = Sponsor::new();
    let t = s.create(Behavior::Tick, None);
    assert!(tick_beh(&Event::new(t, &7), &mut s));
    assert_eq!(s.output(), &vec![Output::Status(b'|')]);
}

#[test]
fn send_during_pop_keeps_queue() {
    let mut s = Sponsor::new();
    let a = s.create(Behavior::Sink, None);
    s.send(a, &1);
    s.send(a, &2);
    // the interrupt's send lands right after the masked pop
    let popped = s.next_event();
    s.send(a, &3);
    assert_eq!(popped, Some(Event { target: a, message: 1 }));
    assert_eq!(s.pending_count(), 2);
    assert_eq!(s.pending_at(0), Event { target: a, message: 2 });
    assert_eq!(s.pending_at(1), Event { target: a, message: 3 });
    // and right before it
    let mut t = Sponsor::new();
    let b = t.create(Behavior::Sink, None);
    t.send(b, &1);
    t.send(b, &2);
    t.send(b, &3);
    assert_eq!(t.next_event(), Some(Event { target: b, message: 1 }));
    assert_eq!(t.pending_count(), 2);
    assert_eq!(t.pending_at(0), Event { target: b, message: 2 });
    assert_eq!(t.pending_at(1), Event { target: b, message: 3 });
}

#[test]
fn init_registers_timer_and_keyboard() {
    let root = init();
    let s = root_sponsor(&root);
    assert_eq!(s.actor_count(), 2);
    assert_eq!(s.actor(0).behavior, Behavior::Tick);
    assert_eq!(s.actor(1).behavior, Behavior::Keyboard);
    assert_eq!(now(&root), 0);
}

#[test]
fn keyboard_decodes_scancodes() {
    let mut root = init();
    // 'A' key press (0x1E), then its release (0x9E)
    notify_keyboard_actor(&mut root, 0x1E);
    notify_keyboard_actor(&mut root, 0x9E);
    assert_eq!(root_sponsor(&root).pending_at(0), Event { target: 1, message: 0x1E });
    assert_eq!(root.dispatch(), Outcome::Handled(true));
    assert_eq!(root.dispatch(), Outcome::Handled(true));
    assert_eq!(root.take_output(), vec![Output::Key(Key::Unicode('a'))]);
}

#[test]
fn keyboard_partial_sequence_is_success() {
    let mut root = init();
    // an extended-code prefix alone completes no key
    notify_keyboard_actor(&mut root, 0xE0);
    assert_eq!(root.dispatch(), Outcome::Handled(true));
    assert!(root.take_output().is_empty());
}

#[test]
fn keyboard_named_key() {
    let mut root = init();
    // F1 press
    notify_keyboard_actor(&mut root, 0x3B);
    assert_eq!(root.dispatch(), Outcome::Handled(true));
    assert_eq!(root.take_output(), vec![Output::Key(Key::Raw(String::from("F1")))]);
}

#[test]
fn try_actors_sends_to_debug_actor() {
    let mut root = init();
    let h = try_actors(&mut root);
    assert_eq!(h, 2);
    assert_eq!(root.dispatch(), Outcome::Handled(true));
    assert_eq!(root.take_output(), vec![Output::Debug { state: None, message: TRY_MESSAGE }]);
    assert_eq!(TRY_MESSAGE, 0xC0FFEEFACADE);
}

#[test]
fn scancode_is_low_byte() {
    assert_eq!(scancode(0x1E), 0x1E);
    assert_eq!(scancode(0x11E), 0x1E);
    assert_eq!(scancode(-1), 0xFF);
    assert_eq!(scancode(255), 255);
}

#[test]
fn decode_then_show_key() {
    let mut s = Sponsor::new();
    // 'S' key press (0x1F)
    let key = s.decode(0x1F);
    assert_eq!(key, Some(Key::Unicode('s')));
    s.show_key(key);
    s.show_key(None);
    assert_eq!(s.output(), &vec![Output::Key(Key::Unicode('s'))]);
    assert_eq!(s.decode(0x9F), None);
}

#[test]
fn keyboard_uses_low_byte_of_message() {
    let mut s = Sponsor::new();
    let k = s.create(Behavior::Keyboard, None);
    s.send(k, &0x11E);
    assert_eq!(s.dispatch(), Outcome::Handled(true));
    assert_eq!(s.output(), &vec![Output::Key(Key::Unicode('a'))]);
}
