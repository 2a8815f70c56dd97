//! A hotkey listener's own state: which devices it watches, and when it
//! grabs a pointing device and passes the device's other events on.

use vstd::prelude::*;
use crate::event::{InputEvent, is_forwardable, forwarded_events};
use crate::state::{SharedState, grabs};

verus! {

/// What a listener does about its grab before it handles a batch of events.
#[derive(Clone, Copy, Debug, PartialEq, Eq, Structural)]
pub enum GrabAction {
    /// Take the device for this program alone.
    Grab,
    /// Give the device back.
    Release,
    /// Leave it as it is.
    Keep,
}

/// One listener: whether it owns a forwarding device (it does for devices
/// with a left mouse button, when one could be made), and whether its
/// device is grabbed.
#[derive(Clone, Copy, Debug, PartialEq, Eq, Structural)]
pub struct Listener {
    pub has_forwarder: bool,
    pub grabbed: bool,
}

/// A listener never holds a grab without a forwarding device, or the
/// device's other events would be lost.
pub open spec fn listener_ok(l: Listener) -> bool {
    l.grabbed ==> l.has_forwarder
}

/// The grab decision: only listeners with a forwarding device grab; they
/// grab when the shared state asks for it and they do not hold a grab yet,
/// and release when it no longer asks and they hold one.
pub open spec fn grab_plan(l: Listener, s: SharedState) -> GrabAction {
    if !l.has_forwarder {
        GrabAction::Keep
    } else if grabs(s) && !l.grabbed {
        GrabAction::Grab
    } else if !grabs(s) && l.grabbed {
        GrabAction::Release
    } else {
        GrabAction::Keep
    }
}

/// The listener after the planned action was tried: a grab holds only if it
/// succeeded; a release always counts as done.
pub open spec fn after_grab(l: Listener, a: GrabAction, succeeded: bool) -> Listener {
    match a {
        GrabAction::Grab => if succeeded {
            Listener { grabbed: true, ..l }
        } else {
            l
        },
        GrabAction::Release => Listener { grabbed: false, ..l },
        GrabAction::Keep => l,
    }
}

/// The events of a batch to pass on: those `is_forwardable` lets through,
/// when the device is grabbed and there is something to send.
pub open spec fn forward_plan(l: Listener, events: Seq<InputEvent>) -> Option<Seq<InputEvent>> {
    let kept = events.filter(|e: InputEvent| is_forwardable(e));
    if l.grabbed && l.has_forwarder && kept.len() > 0 {
        Some(kept)
    } else {
        None
    }
}

impl Listener {
    /// A new listener holds no grab.
    pub fn new(has_forwarder: bool) -> (l: Listener)
        ensures
            l == (Listener { has_forwarder, grabbed: false }),
            listener_ok(l),
    {
        Listener { has_forwarder, grabbed: false }
    }

    /// What to do about the grab, given the shared state.
    pub fn plan_grab(&self, shared: &SharedState) -> (a: GrabAction)
        ensures
            a == grab_plan(*self, *shared),
    {
        if !self.has_forwarder {
            return GrabAction::Keep;
        }
        let want = shared.should_grab();
        if want && !self.grabbed {
            GrabAction::Grab
        } else if !want && self.grabbed {
            GrabAction::Release
        } else {
            GrabAction::Keep
        }
    }

    /// Records how the planned action went.
    pub fn record_grab(&mut self, action: GrabAction, succeeded: bool)
        ensures
            *final(self) == after_grab(*old(self), action, succeeded),
    {
        match action {
            GrabAction::Grab => {
                if succeeded {
                    self.grabbed = true;
                }
            },
            GrabAction::Release => {
                self.grabbed = false;
            },
            GrabAction::Keep => {},
        }
    }

    /// The events of a fetched batch to send through the forwarding device.
    pub fn forward_batch(&self, events: &Vec<InputEvent>) -> (r: Option<Vec<InputEvent>>)
        ensures
            match r {
                Some(v) => forward_plan(*self, events@) == Some(v@),
                None => forward_plan(*self, events@) is None,
            },
    {
        if !(self.grabbed && self.has_forwarder) {
            return None;
        }
        let kept = forwarded_events(events);
        if kept.len() > 0 {
            Some(kept)
        } else {
            None
        }
    }
}

/// `name` begins with `event`, as the kernel names input event devices.
pub open spec fn is_event_device(name: Seq<char>) -> bool {
    "event"@.is_prefix_of(name)
}

/// Whether a file name under `/dev/input` is an input event device.
pub fn is_event_device_name(name: &str) -> (b: bool)
    ensures
        b == is_event_device(name@),
{
    let prefix = "event";
    proof { reveal_strlit("event"); }
    let n = name.unicode_len();
    if n < 5 {
        return false;
    }
    let mut i: usize = 0;
    while i < 5
        invariant
            i <= 5,
            n == name@.len(),
            n >= 5,
            prefix@ == "event"@,
            prefix@.len() == 5,
            forall|j: int| 0 <= j < i ==> prefix@[j] == name@[j],
        decreases 5 - i,
    {
        if prefix.get_char(i) != name.get_char(i) {
            return false;
        }
        i = i + 1;
    }
    true
}

/// A device gets a listener when its file is an input event device and it
/// reports at least one key.
pub fn should_listen(name: &str, key_count: usize) -> (b: bool)
    ensures
        b == (is_event_device(name@) && key_count > 0),
{
    is_event_device_name(name) && key_count > 0
}

} // verus!
