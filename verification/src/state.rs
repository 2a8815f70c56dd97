//! The state that the settings panel, the hotkey listeners and the clicker
//! share, and every decision each of them takes on it.

use vstd::prelude::*;
use crate::codes::{ev_key, btn_left, evdev_key_name, key_event_type, left_button_code, key_name};
use crate::config::Config;
use crate::decimal::{decimal_text, parse_u64_result, parse_u64, format_u64};
use crate::event::InputEvent;
use crate::mode::{ClickMode, mode_code, mode_of_code};

verus! {

/// The shared state, as plain values.
#[derive(Clone, Copy, Debug, PartialEq, Eq, Structural)]
pub struct SharedState {
    /// Clicking switched on from the panel's Start/Stop button.
    pub clicking: bool,
    /// Clicking switched on by the hotkey.
    pub active: bool,
    /// Pause between two clicks, in milliseconds.
    pub delay_ms: u64,
    /// Scancode of the hotkey.
    pub hotkey: u16,
    /// The panel waits for the next key press to become the hotkey.
    pub rebinding: bool,
    /// A key captured while rebinding, not yet taken over by the panel.
    pub new_key: Option<u16>,
    /// The click mode, encoded as a byte.
    pub mode: u8,
    /// The physical left mouse button is down.
    pub mouse_held: bool,
}

/// The state at start-up, from the saved settings.
pub open spec fn state_from_config(cfg: Config) -> SharedState {
    SharedState {
        clicking: false,
        active: false,
        delay_ms: cfg.delay_ms,
        hotkey: cfg.hotkey,
        rebinding: false,
        new_key: None,
        mode: mode_code(cfg.mode),
        mouse_held: false,
    }
}

/// The settings that the panel saves: delay and hotkey; the mode is written
/// as the default mode.
pub open spec fn config_of_state(s: SharedState) -> Config {
    Config { delay_ms: s.delay_ms, hotkey: s.hotkey, mode: ClickMode::Auto }
}

/// The state after the Start/Stop button.
pub open spec fn toggled(s: SharedState) -> SharedState {
    SharedState { clicking: !s.clicking, ..s }
}

/// What one input event does to the state, as a hotkey listener sees it.
/// Only key events count. Left-button presses and releases set and clear
/// `mouse_held` and nothing else. Otherwise a press (value 1) either ends a
/// pending rebind by capturing the key, or, with no rebind pending, toggles
/// `active` when the key is the hotkey. Releases and repeats change nothing.
pub open spec fn apply_event(s: SharedState, e: InputEvent) -> SharedState {
    if e.event_type != ev_key() {
        s
    } else if e.code == btn_left() {
        if e.value == 1 {
            SharedState { mouse_held: true, ..s }
        } else if e.value == 0 {
            SharedState { mouse_held: false, ..s }
        } else {
            s
        }
    } else if e.value == 1 && s.rebinding {
        SharedState { rebinding: false, new_key: Some(e.code), ..s }
    } else if e.value == 1 && e.code == s.hotkey {
        SharedState { active: !s.active, ..s }
    } else {
        s
    }
}

/// What a batch of events does, one after the other.
pub open spec fn apply_events(s: SharedState, es: Seq<InputEvent>) -> SharedState
    decreases es.len(),
{
    if es.len() == 0 {
        s
    } else {
        apply_event(apply_events(s, es.drop_last()), es.last())
    }
}

/// Taking over a captured key: it becomes the hotkey and the capture is
/// cleared; the flag says whether the settings are to be saved.
pub open spec fn complete_rebind_result(s: SharedState) -> (SharedState, bool) {
    match s.new_key {
        Some(k) => (SharedState { hotkey: k, new_key: None, ..s }, true),
        None => (s, false),
    }
}

/// Committing the delay field: a text that reads as a `u64` above zero
/// becomes the delay, and the settings are to be saved; any other text
/// leaves the state as it was.
pub open spec fn commit_delay_result(s: SharedState, input: Seq<char>) -> (SharedState, bool) {
    match parse_u64_result(input) {
        Some(v) => if v > 0 {
            (SharedState { delay_ms: v, ..s }, true)
        } else {
            (s, false)
        },
        None => (s, false),
    }
}

/// The clicker clicks while clicking is on by hotkey, and, in `Hold` mode,
/// only while the left button is down.
pub open spec fn clicks(s: SharedState) -> bool {
    s.active && match mode_of_code(s.mode) {
        ClickMode::Auto => true,
        ClickMode::Hold => s.mouse_held,
    }
}

/// The listeners grab their pointing device while clicking is on by hotkey
/// in `Hold` mode, so that the physical left button stays theirs.
pub open spec fn grabs(s: SharedState) -> bool {
    s.active && mode_of_code(s.mode) == ClickMode::Hold
}

/// One turn of the clicker.
#[derive(Clone, Copy, Debug, PartialEq, Eq, Structural)]
pub enum ClickAction {
    /// Press the left button, hold it `hold_ms`, release it, then pause `delay_ms`.
    Click { hold_ms: u64, delay_ms: u64 },
    /// Do nothing for `wait_ms` and look again.
    Wait { wait_ms: u64 },
}

/// The clicker's next turn: a click followed by the delay (at least 1 ms),
/// or a 10 ms wait.
pub open spec fn click_action(s: SharedState) -> ClickAction {
    if clicks(s) {
        ClickAction::Click { hold_ms: 1, delay_ms: if s.delay_ms < 1 { 1 } else { s.delay_ms } }
    } else {
        ClickAction::Wait { wait_ms: 10 }
    }
}

impl SharedState {
    /// The state at start-up: nothing running, no rebind pending, delay,
    /// hotkey and mode from the settings.
    pub fn from_config(cfg: &Config) -> (s: SharedState)
        ensures
            s == state_from_config(*cfg),
    {
        SharedState {
            clicking: false,
            active: false,
            delay_ms: cfg.delay_ms,
            hotkey: cfg.hotkey,
            rebinding: false,
            new_key: None,
            mode: cfg.mode.as_u8(),
            mouse_held: false,
        }
    }

    /// The settings to save for this state.
    pub fn to_config(&self) -> (c: Config)
        ensures
            c == config_of_state(*self),
    {
        Config { delay_ms: self.delay_ms, hotkey: self.hotkey, mode: ClickMode::Auto }
    }

    /// Takes over a key captured by a rebind; `true` when there was one and
    /// the settings are to be saved.
    pub fn complete_rebind(&mut self) -> (saved: bool)
        ensures
            (*final(self), saved) == complete_rebind_result(*old(self)),
    {
        match self.new_key {
            Some(k) => {
                self.hotkey = k;
                self.new_key = None;
                true
            },
            None => false,
        }
    }

    /// The hotkey button was clicked: wait for the next key press, unless
    /// already waiting.
    pub fn request_rebind(&mut self)
        ensures
            *final(self) == (SharedState { rebinding: true, ..*old(self) }),
    {
        if !self.rebinding {
            self.rebinding = true;
        }
    }

    /// The Start/Stop button was clicked.
    pub fn toggle_clicking(&mut self)
        ensures
            *final(self) == toggled(*old(self)),
    {
        self.clicking = !self.clicking;
    }

    /// The delay field lost focus with `input` in it. Returns the text the
    /// field shows afterwards (the delay then in force) and whether the
    /// settings are to be saved.
    pub fn commit_delay_input(&mut self, input: &str) -> (r: (String, bool))
        ensures
            (*final(self), r.1) == commit_delay_result(*old(self), input@),
            r.0@ == decimal_text(final(self).delay_ms as nat),
    {
        let saved = match parse_u64(input) {
            Some(v) => if v > 0 {
                self.delay_ms = v;
                true
            } else {
                false
            },
            None => false,
        };
        (format_u64(self.delay_ms), saved)
    }

    /// The delay as the panel's field shows it.
    pub fn delay_text(&self) -> (t: String)
        ensures
            t@ == decimal_text(self.delay_ms as nat),
    {
        format_u64(self.delay_ms)
    }

    /// The status banner's text.
    pub fn status_label(&self) -> (t: &'static str)
        ensures
            t@ == (if self.clicking { "CLICKING"@ } else { "STOPPED"@ }),
    {
        if self.clicking {
            "CLICKING"
        } else {
            "STOPPED"
        }
    }

    /// The Start/Stop button's text.
    pub fn toggle_label(&self) -> (t: &'static str)
        ensures
            t@ == (if self.clicking { "Stop"@ } else { "Start"@ }),
    {
        if self.clicking {
            "Stop"
        } else {
            "Start"
        }
    }

    /// The hotkey button's text: a prompt while a rebind is pending, else
    /// the hotkey's name.
    pub fn hotkey_label(&self) -> (t: String)
        ensures
            t@ == (if self.rebinding { "press a key..."@ } else { evdev_key_name(self.hotkey) }),
    {
        if self.rebinding {
            String::from_str("press a key...")
        } else {
            key_name(self.hotkey)
        }
    }

    /// Applies one input event (see `apply_event`).
    pub fn handle_event(&mut self, e: &InputEvent)
        ensures
            *final(self) == apply_event(*old(self), *e),
    {
        let key = key_event_type();
        let left = left_button_code();
        if e.event_type != key {
            return ;
        }
        if e.code == left {
            if e.value == 1 {
                self.mouse_held = true;
            } else if e.value == 0 {
                self.mouse_held = false;
            }
            return ;
        }
        if e.value == 1 && self.rebinding {
            self.rebinding = false;
            self.new_key = Some(e.code);
            return ;
        }
        if e.value == 1 && e.code == self.hotkey {
            self.active = !self.active;
        }
    }

    /// Applies a batch of input events in order.
    pub fn handle_events(&mut self, events: &Vec<InputEvent>)
        ensures
            *final(self) == apply_events(*old(self), events@),
    {
        let mut i: usize = 0;
        while i < events.len()
            invariant
                i <= events.len(),
                *self == apply_events(*old(self), events@.subrange(0, i as int)),
            decreases events.len() - i,
        {
            proof {
                let next = events@.subrange(0, i + 1);
                assert(next.drop_last() =~= events@.subrange(0, i as int));
            }
            self.handle_event(&events[i]);
            i = i + 1;
        }
        assert(events@.subrange(0, events.len() as int) =~= events@);
    }

    /// Whether the clicker clicks in this state.
    pub fn should_click(&self) -> (b: bool)
        ensures
            b == clicks(*self),
    {
        self.active && match ClickMode::from_u8(self.mode) {
            ClickMode::Auto => true,
            ClickMode::Hold => self.mouse_held,
        }
    }

    /// Whether the listeners hold their pointing devices grabbed.
    pub fn should_grab(&self) -> (b: bool)
        ensures
            b == grabs(*self),
    {
        self.active && match ClickMode::from_u8(self.mode) {
            ClickMode::Auto => false,
            ClickMode::Hold => true,
        }
    }

    /// The clicker's next turn.
    pub fn click_step(&self) -> (a: ClickAction)
        ensures
            a == click_action(*self),
            a matches ClickAction::Click { delay_ms, .. } ==> delay_ms >= 1,
    {
        if self.should_click() {
            let delay_ms = if self.delay_ms < 1 { 1 } else { self.delay_ms };
            ClickAction::Click { hold_ms: 1, delay_ms }
        } else {
            ClickAction::Wait { wait_ms: 10 }
        }
    }
}

} // verus!
