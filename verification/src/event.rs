//! Input events as plain values, and which of them a grabbed device passes on.

use vstd::prelude::*;
use crate::codes::{ev_key, ev_syn, btn_left, key_event_type, sync_event_type, left_button_code};

verus! {

/// One input event: its type, its code within that type, and its value
/// (for keys: `0` release, `1` press, `2` auto-repeat).
#[derive(Clone, Copy, Debug, PartialEq, Eq, Structural)]
pub struct InputEvent {
    pub event_type: u16,
    pub code: u16,
    pub value: i32,
}

impl InputEvent {
    pub fn new(event_type: u16, code: u16, value: i32) -> (e: InputEvent)
        ensures
            e == (InputEvent { event_type, code, value }),
    {
        InputEvent { event_type, code, value }
    }
}

/// An event is passed on from a grabbed device unless it is a change of the
/// left mouse button, or a synchronization report (the forwarding device
/// writes its own).
pub open spec fn is_forwardable(e: InputEvent) -> bool {
    &&& !(e.event_type == ev_key() && e.code == btn_left())
    &&& e.event_type != ev_syn()
}

/// Whether `e` is passed on from a grabbed device.
pub fn forwardable(e: &InputEvent) -> (b: bool)
    ensures
        b == is_forwardable(*e),
{
    let key = key_event_type();
    let syn = sync_event_type();
    let left = left_button_code();
    if e.event_type == key && e.code == left {
        false
    } else {
        e.event_type != syn
    }
}

/// The events of a batch that a grabbed device passes on, in their order.
pub fn forwarded_events(events: &Vec<InputEvent>) -> (out: Vec<InputEvent>)
    ensures
        out@ == events@.filter(|e: InputEvent| is_forwardable(e)),
{
    let ghost pred = |e: InputEvent| is_forwardable(e);
    let mut out: Vec<InputEvent> = Vec::new();
    let mut i: usize = 0;
    while i < events.len()
        invariant
            i <= events.len(),
            pred == (|e: InputEvent| is_forwardable(e)),
            out@ == events@.subrange(0, i as int).filter(pred),
        decreases events.len() - i,
    {
        let e = events[i];
        proof {
            events@.subrange(0, i as int).lemma_filter_push(e, pred);
            assert(events@.subrange(0, i as int).push(e) =~= events@.subrange(0, i + 1));
        }
        let keep = forwardable(&e);
        if keep {
            out.push(e);
        }
        i = i + 1;
    }
    assert(events@.subrange(0, events.len() as int) =~= events@);
    out
}

} // verus!
