//! Input-event codes and key names, taken from the `evdev` crate.

use vstd::prelude::*;

verus! {

/// Event type of key and button changes (`EV_KEY`).
pub open spec fn ev_key() -> u16 {
    0x01
}

/// Event type of synchronization reports (`EV_SYN`).
pub open spec fn ev_syn() -> u16 {
    0x00
}

/// Scancode of the left mouse button (`BTN_LEFT`).
pub open spec fn btn_left() -> u16 {
    0x110
}

/// Scancode of the F8 key (`KEY_F8`).
pub open spec fn key_f8() -> u16 {
    66
}

/// The text that `evdev` writes for the key with scancode `code` when it is
/// formatted with `{:?}`.
pub uninterp spec fn evdev_key_name(code: u16) -> Seq<char>;

/// `evdev::EventType::KEY`: evdev declares the key event type as `0x01`.
#[verifier::external_body]
pub(crate) fn key_event_type() -> (t: u16)
    ensures
        t == ev_key(),
{
    evdev::EventType::KEY.0
}

/// `evdev::EventType::SYNCHRONIZATION`: evdev declares it as `0x00`.
#[verifier::external_body]
pub(crate) fn sync_event_type() -> (t: u16)
    ensures
        t == ev_syn(),
{
    evdev::EventType::SYNCHRONIZATION.0
}

/// `evdev::Key::code` on `evdev::Key::BTN_LEFT`: evdev declares the left
/// mouse button as `0x110`, and `code` returns the scancode it holds.
#[verifier::external_body]
pub(crate) fn left_button_code() -> (c: u16)
    ensures
        c == btn_left(),
{
    evdev::Key::BTN_LEFT.code()
}

/// `evdev::Key::code` on `evdev::Key::KEY_F8`: evdev declares F8 as `66`.
#[verifier::external_body]
pub(crate) fn f8_key_code() -> (c: u16)
    ensures
        c == key_f8(),
{
    evdev::Key::KEY_F8.code()
}

/// The `Debug` text of `evdev::Key::new(code)`: the key's constant name in
/// evdev's table, or `unknown key: ` and the number. The contract only names
/// that text; the table itself is evdev's.
#[verifier::external_body]
pub(crate) fn key_name(code: u16) -> (s: String)
    ensures
        s@ == evdev_key_name(code),
{
    format!("{:?}", evdev::Key::new(code))
}

} // verus!
