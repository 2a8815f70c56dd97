//! Properties that span several operations of the library.

use vstd::prelude::*;
use crate::access::access_report;
use crate::codes::{ev_key, ev_syn, btn_left};
use crate::config::{Config, config_file_path};
use crate::decimal::{
    decimal_text, parse_u64_result, parses_as_u64, unsigned_body, lemma_decimal_text_value, is_digit,
    all_digits,
};
use crate::event::{InputEvent, is_forwardable};
use crate::listener::{Listener, listener_ok, grab_plan, after_grab, forward_plan, GrabAction};
use crate::mode::{ClickMode, mode_code, mode_of_code};
use crate::state::{
    SharedState, apply_event, apply_events, complete_rebind_result, commit_delay_result,
    config_of_state, state_from_config, toggled, click_action, ClickAction, grabs,
};

verus! {

/// With no rebind pending, a press of the hotkey flips `active` and nothing
/// else, so a second press restores the state.
pub proof fn lemma_hotkey_press_toggles(s: SharedState, e: InputEvent)
    requires
        e.event_type == ev_key(),
        e.code == s.hotkey,
        e.code != btn_left(),
        e.value == 1,
        !s.rebinding,
    ensures
        apply_event(s, e) == (SharedState { active: !s.active, ..s }),
        apply_event(apply_event(s, e), e) == s,
{
}

/// Events other than key events change nothing.
pub proof fn lemma_only_key_events_count(s: SharedState, e: InputEvent)
    requires
        e.event_type != ev_key(),
    ensures
        apply_event(s, e) == s,
{
}

/// Key releases and auto-repeats change nothing, except the left button's
/// release, which only clears `mouse_held`.
pub proof fn lemma_only_presses_count(s: SharedState, e: InputEvent)
    requires
        e.value != 1,
        !(e.event_type == ev_key() && e.code == btn_left()),
    ensures
        apply_event(s, e) == s,
{
}

/// Left-button events only ever move `mouse_held`: down on a press, up on a
/// release.
pub proof fn lemma_left_button_tracks_hold(s: SharedState, e: InputEvent)
    requires
        e.event_type == ev_key(),
        e.code == btn_left(),
    ensures
        apply_event(s, e) == (SharedState { mouse_held: apply_event(s, e).mouse_held, ..s }),
        e.value == 1 ==> apply_event(s, e).mouse_held,
        e.value == 0 ==> !apply_event(s, e).mouse_held,
{
}

/// Rebinding: once the hotkey button asked for a key, the next press of any
/// key but the left button is captured (without toggling clicking, even if
/// it is the current hotkey), and taking the capture over makes it the
/// hotkey and asks for the settings to be saved.
pub proof fn lemma_rebind_captures_next_press(s: SharedState, e: InputEvent)
    requires
        e.event_type == ev_key(),
        e.code != btn_left(),
        e.value == 1,
    ensures
        ({
            let waiting = SharedState { rebinding: true, ..s };
            let captured = apply_event(waiting, e);
            &&& !captured.rebinding
            &&& captured.new_key == Some(e.code)
            &&& captured.active == s.active
            &&& complete_rebind_result(captured) == (
                SharedState { hotkey: e.code, rebinding: false, new_key: None, ..s },
                true,
            )
        }),
{
}

/// Handling two batches one after the other is handling their concatenation.
pub proof fn lemma_apply_events_append(s: SharedState, a: Seq<InputEvent>, b: Seq<InputEvent>)
    ensures
        apply_events(s, a + b) == apply_events(apply_events(s, a), b),
    decreases b.len(),
{
    if b.len() == 0 {
        assert(a + b =~= a);
    } else {
        assert((a + b).drop_last() =~= a + b.drop_last());
        lemma_apply_events_append(s, a, b.drop_last());
    }
}

/// The text written for a number reads back as that number.
pub proof fn lemma_format_parse_roundtrip(n: u64)
    ensures
        parse_u64_result(decimal_text(n as nat)) == Some(n),
{
    lemma_decimal_text_value(n as nat);
    assert(unsigned_body(decimal_text(n as nat)) == decimal_text(n as nat));
    assert(parses_as_u64(decimal_text(n as nat)));
}

/// After a commit, the field shows text that, committed again, changes
/// nothing: the shown delay is the delay in force.
pub proof fn lemma_committed_text_is_stable(s: SharedState, input: Seq<char>)
    ensures
        ({
            let t = commit_delay_result(s, input).0;
            commit_delay_result(t, decimal_text(t.delay_ms as nat)).0 == t
        }),
{
    let t = commit_delay_result(s, input).0;
    lemma_format_parse_roundtrip(t.delay_ms);
}

/// A commit never sets the delay to zero: a positive delay stays positive.
pub proof fn lemma_commit_keeps_delay_positive(s: SharedState, input: Seq<char>)
    requires
        s.delay_ms > 0,
    ensures
        commit_delay_result(s, input).0.delay_ms > 0,
{
}

/// The byte encoding of a mode reads back as the same mode.
pub proof fn lemma_mode_code_roundtrip(m: ClickMode)
    ensures
        mode_of_code(mode_code(m)) == m,
{
}

/// Two clicks of the Start/Stop button restore the state.
pub proof fn lemma_toggle_twice(s: SharedState)
    ensures
        toggled(toggled(s)) == s,
{
}

/// Saving right after start-up writes back the loaded delay and hotkey.
pub proof fn lemma_settings_roundtrip(c: Config)
    ensures
        config_of_state(state_from_config(c)) == (Config { mode: ClickMode::Auto, ..c }),
{
}

/// Without the hotkey switched on the clicker never clicks, and when it
/// clicks the pause after a click is at least one millisecond.
pub proof fn lemma_click_pacing(s: SharedState)
    ensures
        !s.active ==> click_action(s) == (ClickAction::Wait { wait_ms: 10 }),
        click_action(s) matches ClickAction::Click { delay_ms, .. } ==> delay_ms >= 1
            && delay_ms >= s.delay_ms,
{
}

/// Carrying out a grab plan keeps a listener from holding a grab without a
/// forwarding device.
pub proof fn lemma_grab_keeps_listener_ok(l: Listener, s: SharedState, succeeded: bool)
    requires
        listener_ok(l),
    ensures
        listener_ok(after_grab(l, grab_plan(l, s), succeeded)),
{
}

/// When the planned action succeeds, a listener with a forwarding device
/// holds a grab exactly when the shared state asks for one.
pub proof fn lemma_grab_follows_state(l: Listener, s: SharedState)
    requires
        listener_ok(l),
    ensures
        after_grab(l, grab_plan(l, s), true).grabbed == (l.has_forwarder && grabs(s)),
{
}

/// Nothing passed on from a grabbed device is a left-button event or a
/// synchronization report, and every event passed on came from the batch.
pub proof fn lemma_forwarded_events_exclude_left_button(l: Listener, events: Seq<InputEvent>)
    ensures
        forward_plan(l, events) matches Some(v) ==> forall|i: int|
            0 <= i < v.len() ==> #[trigger] is_forwardable(v[i]) && events.contains(v[i]),
{
    let pred = |e: InputEvent| is_forwardable(e);
    if let Some(v) = forward_plan(l, events) {
        assert forall|i: int| 0 <= i < v.len() implies #[trigger] is_forwardable(v[i])
            && events.contains(v[i]) by {
            assert(v == events.filter(pred));
            events.lemma_filter_pred(pred, i);
            assert(events.filter(pred).contains(v[i]));
            events.lemma_filter_contains_rev(pred, v[i]);
        }
    }
}

/// The permission report is empty exactly when both devices are accessible.
pub proof fn lemma_access_report_empty_iff(uinput_writable: bool, input_readable: bool)
    ensures
        (access_report(uinput_writable, input_readable).len() == 0) <==> (uinput_writable
            && input_readable),
{
}

/// Only the hotkey switches clicking: with no rebind pending, a press of
/// any other key (not the left button) leaves the whole state as it was,
/// whether clicking is on or off.
pub proof fn lemma_other_key_press_changes_nothing(s: SharedState, e: InputEvent)
    requires
        e.event_type == ev_key(),
        e.value == 1,
        e.code != btn_left(),
        e.code != s.hotkey,
        !s.rebinding,
    ensures
        apply_event(s, e) == s,
        apply_event(s, e).active == s.active,
{
}

/// Whether a device is grabbed does not depend on the left button: in Hold
/// mode with the hotkey on the grab is wanted whether the button is up or
/// down, and no left-button event changes that.
pub proof fn lemma_grab_ignores_left_button(s: SharedState, held: bool, e: InputEvent)
    requires
        e.event_type == ev_key(),
        e.code == btn_left(),
    ensures
        grabs(SharedState { mouse_held: held, ..s }) == grabs(s),
        grabs(apply_event(s, e)) == grabs(s),
        s.active && mode_of_code(s.mode) == ClickMode::Hold ==> grabs(s),
        !s.active ==> !grabs(s),
        mode_of_code(s.mode) == ClickMode::Auto ==> !grabs(s),
{
}

/// A listener holding its grab keeps it while the hotkey is on in Hold
/// mode, whatever the left button does.
pub proof fn lemma_grab_kept_while_holding(l: Listener, s: SharedState)
    requires
        l.has_forwarder,
        l.grabbed,
        s.active,
        mode_of_code(s.mode) == ClickMode::Hold,
    ensures
        grab_plan(l, s) == GrabAction::Keep,
        grab_plan(l, SharedState { mouse_held: !s.mouse_held, ..s }) == GrabAction::Keep,
{
}

/// A grabbed listener passes on every forwardable event of a batch, in
/// order, as soon as there is at least one; it passes on nothing when it is
/// not grabbed.
pub proof fn lemma_forwarding_is_complete(l: Listener, events: Seq<InputEvent>, k: int)
    requires
        0 <= k < events.len(),
        is_forwardable(events[k]),
    ensures
        l.grabbed && l.has_forwarder ==> forward_plan(l, events) == Some(
            events.filter(|e: InputEvent| is_forwardable(e)),
        ),
        l.grabbed && l.has_forwarder ==> (forward_plan(l, events) matches Some(v) && v.contains(
            events[k],
        )),
        !l.grabbed ==> forward_plan(l, events) is None,
{
    let pred = |e: InputEvent| is_forwardable(e);
    events.lemma_filter_contains(pred, k);
    let kept = events.filter(pred);
    assert(kept.contains(events[k]));
    assert(kept.len() > 0);
}

/// In Auto mode with the hotkey on, the clicker clicks at the set delay
/// (at least 1 ms) whatever the left button does; in Hold mode it clicks
/// exactly while the button is down.
pub proof fn lemma_click_modes(s: SharedState)
    requires
        s.active,
    ensures
        mode_of_code(s.mode) == ClickMode::Auto ==> click_action(s) == (ClickAction::Click {
            hold_ms: 1,
            delay_ms: if s.delay_ms == 0 { 1 } else { s.delay_ms },
        }),
        mode_of_code(s.mode) == ClickMode::Hold && s.mouse_held ==> click_action(s) == (
        ClickAction::Click { hold_ms: 1, delay_ms: if s.delay_ms == 0 { 1 } else { s.delay_ms } }),
        mode_of_code(s.mode) == ClickMode::Hold && !s.mouse_held ==> click_action(s) == (
        ClickAction::Wait { wait_ms: 10 }),
{
}

/// Any text that reads as a number above zero becomes the delay and is
/// saved; every other text leaves the state unchanged and is not saved.
pub proof fn lemma_commit_takes_any_positive_number(s: SharedState, input: Seq<char>, v: u64)
    ensures
        parse_u64_result(input) == Some(v) && v > 0 ==> commit_delay_result(s, input) == (
        SharedState { delay_ms: v, ..s }, true),
        parse_u64_result(input) is None ==> commit_delay_result(s, input) == (s, false),
        parse_u64_result(input) == Some(0u64) ==> commit_delay_result(s, input) == (s, false),
{
}

/// Typing the decimal text of any positive number, with or without a
/// leading `+`, sets the delay to that number.
pub proof fn lemma_commit_of_number_text(s: SharedState, v: u64)
    requires
        v > 0,
    ensures
        commit_delay_result(s, decimal_text(v as nat)) == (SharedState { delay_ms: v, ..s }, true),
        commit_delay_result(s, seq!['+'] + decimal_text(v as nat)) == (
        SharedState { delay_ms: v, ..s }, true),
{
    lemma_format_parse_roundtrip(v);
    lemma_plus_prefix_reads_same(v);
}

/// A leading `+` does not change what a number text reads as.
pub proof fn lemma_plus_prefix_reads_same(n: u64)
    ensures
        parse_u64_result(seq!['+'] + decimal_text(n as nat)) == Some(n),
{
    lemma_decimal_text_value(n as nat);
    let t = seq!['+'] + decimal_text(n as nat);
    assert(t.drop_first() =~= decimal_text(n as nat));
    assert(unsigned_body(t) == decimal_text(n as nat));
}

/// Text holding any character that is not a digit (other than one leading
/// `+`) does not read as a number, and neither does empty text.
pub proof fn lemma_parse_rejects_non_digits(s: Seq<char>, i: int)
    requires
        0 <= i < s.len(),
        !is_digit(s[i]),
        !(i == 0 && s[i] == '+'),
    ensures
        parse_u64_result(s) is None,
        parse_u64_result(Seq::<char>::empty()) is None,
{
    let body = unsigned_body(s);
    if s.len() > 0 && s[0] == '+' {
        assert(body[i - 1] == s[i]);
        assert(!is_digit(body[i - 1]));
    } else {
        assert(!is_digit(body[i]));
    }
    assert(!all_digits(body));
}

/// Taking over a capture when none is pending changes nothing and asks for
/// no save.
pub proof fn lemma_complete_rebind_without_capture(s: SharedState)
    requires
        s.new_key is None,
    ensures
        complete_rebind_result(s) == (s, false),
{
}

/// The Start/Stop button flips `clicking` and nothing else.
pub proof fn lemma_toggle_flips_clicking(s: SharedState)
    ensures
        toggled(s).clicking != s.clicking,
        toggled(s) == (SharedState { clicking: toggled(s).clicking, ..s }),
{
}

/// At start-up nothing runs, nothing is pending, and the delay, hotkey and
/// mode are the saved ones.
pub proof fn lemma_start_up_is_idle(c: Config)
    ensures
        !state_from_config(c).clicking,
        !state_from_config(c).active,
        !state_from_config(c).rebinding,
        !state_from_config(c).mouse_held,
        state_from_config(c).new_key is None,
        state_from_config(c).delay_ms == c.delay_ms,
        state_from_config(c).hotkey == c.hotkey,
        mode_of_code(state_from_config(c).mode) == c.mode,
{
}

/// A failed grab leaves the listener as it was; a release always leaves it
/// ungrabbed.
pub proof fn lemma_grab_outcomes(l: Listener, succeeded: bool)
    ensures
        after_grab(l, GrabAction::Grab, false) == l,
        after_grab(l, GrabAction::Grab, true).grabbed,
        !after_grab(l, GrabAction::Release, succeeded).grabbed,
        after_grab(l, GrabAction::Keep, succeeded) == l,
        after_grab(l, GrabAction::Release, succeeded).has_forwarder == l.has_forwarder,
{
}

/// Every event other than a synchronization report and a left-button change
/// is passed on: motion, other buttons, other keys.
pub proof fn lemma_forwardable_events(e: InputEvent)
    ensures
        e.event_type != ev_syn() && !(e.event_type == ev_key() && e.code == btn_left())
            ==> is_forwardable(e),
        e.event_type == ev_syn() ==> !is_forwardable(e),
        e.event_type == ev_key() && e.code == btn_left() ==> !is_forwardable(e),
{
}

/// The settings file sits at `<base>/wclicker/config.toml`, where the base
/// is `XDG_CONFIG_HOME` when set, else `$HOME/.config`.
pub proof fn lemma_config_file_location(x: Seq<char>, h: Seq<char>)
    requires
        x.len() > 0,
        x.last() != '/',
        h.len() > 0,
        h.last() != '/',
    ensures
        config_file_path(Some(x), Some(h)) == x + "/wclicker/config.toml"@,
        config_file_path(Some(x), None) == x + "/wclicker/config.toml"@,
        config_file_path(None, Some(h)) == h + "/.config/wclicker/config.toml"@,
        config_file_path(None, None) == ".config/wclicker/config.toml"@,
{
    reveal_strlit("/wclicker/config.toml");
    reveal_strlit("/.config/wclicker/config.toml");
    reveal_strlit(".config/wclicker/config.toml");
    reveal_strlit(".config");
    reveal_strlit("wclicker");
    reveal_strlit("config.toml");
    assert(x + seq!['/'] + "wclicker"@ + seq!['/'] + "config.toml"@ =~= x + "/wclicker/config.toml"@);
    let hc = h + seq!['/'] + ".config"@;
    assert(hc.last() == 'g');
    assert(hc + seq!['/'] + "wclicker"@ + seq!['/'] + "config.toml"@ =~= h
        + "/.config/wclicker/config.toml"@);
    assert(".config"@ + seq!['/'] + "wclicker"@ + seq!['/'] + "config.toml"@
        =~= ".config/wclicker/config.toml"@);
}

/// The text written for a positive number has no leading zero.
pub proof fn lemma_decimal_text_no_leading_zero(n: nat)
    requires
        n > 0,
    ensures
        decimal_text(n)[0] != '0',
    decreases n,
{
    if n >= 10 {
        lemma_decimal_text_no_leading_zero(n / 10);
        assert(decimal_text(n)[0] == decimal_text(n / 10)[0]);
    }
}

} // verus!
