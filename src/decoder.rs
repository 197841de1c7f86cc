//! The scancode decoder: pc-keyboard's `Keyboard`, with a US 104-key layout
//! and scancode set 1. Its state is the decoder's own and opaque here.

use vstd::prelude::*;
use pc_keyboard::layouts::Us104Key;
use pc_keyboard::{DecodedKey, HandleControl, KeyEvent, Keyboard, ScancodeSet1};
use crate::message::Key;

verus! {

#[verifier::external_type_specification]
#[verifier::external_body]
pub struct ExKeyEvent(KeyEvent);

/// The scancode decoder that keyboard reactions feed: pc-keyboard's
/// `Keyboard` with a US 104-key layout and scancode set 1. What it holds
/// belongs to the decoder and is not modelled here; the sponsor records the
/// bytes fed to it instead.
#[verifier::external_body]
pub struct Decoder {
    keyboard: Keyboard<Us104Key, ScancodeSet1>,
}

/// Relies on pc_keyboard::Keyboard::new: a decoder in its start state, with
/// Ctrl combinations left as plain letters.
#[verifier::external_body]
pub(crate) fn new_decoder() -> (r: Decoder) {
    Decoder { keyboard: Keyboard::new(Us104Key, ScancodeSet1, HandleControl::Ignore) }
}

/// Relies on pc_keyboard::Keyboard::add_byte: feeds one scancode byte and
/// gives the key event that completes, if any. A byte that the decoder
/// rejects gives no event.
#[verifier::external_body]
pub(crate) fn add_byte(decoder: &mut Decoder, byte: u8) -> (r: Option<KeyEvent>) {
    match decoder.keyboard.add_byte(byte) {
        Ok(ev) => ev,
        Err(_) => None,
    }
}

/// Relies on pc_keyboard::Keyboard::process_keyevent: turns a key event into
/// a character or a named key, or nothing (a release, a modifier).
#[verifier::external_body]
pub(crate) fn process_keyevent(decoder: &mut Decoder, ev: KeyEvent) -> (r: Option<Key>) {
    match decoder.keyboard.process_keyevent(ev) {
        Some(DecodedKey::Unicode(c)) => Some(Key::Unicode(c)),
        Some(DecodedKey::RawKey(code)) => Some(Key::Raw(format!("{:?}", code))),
        None => None,
    }
}

} // verus!
