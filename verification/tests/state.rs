use wclicker::config::Config;
use wclicker::event::InputEvent;
use wclicker::mode::ClickMode;
use wclicker::state::{ClickAction, SharedState};

const EV_KEY: u16 = 1;
const EV_REL: u16 = 2;
const BTN_LEFT: u16 = 0x110;
const KEY_F8: u16 = 66;
const KEY_A: u16 = 30;

fn idle() -> SharedState {
    SharedState::from_config(&Config::default())
}

fn key(code: u16, value: i32) -> InputEvent {
    InputEvent::new(EV_KEY, code, value)
}

#[test]
fn hotkey_press_toggles_active_twice_restores() {
    let mut s = idle();
    let before = s;
    s.handle_event(&key(KEY_F8, 1));
    assert!(s.active);
    assert_eq!(s, SharedState { active: true, ..before });
    s.handle_event(&key(KEY_F8, 1));
    assert_eq!(s, before);
}

#[test]
fn releases_and_repeats_change_nothing() {
    let mut s = idle();
    let before = s;
    s.handle_event(&key(KEY_F8, 0));
    s.handle_event(&key(KEY_F8, 2));
    s.handle_event(&key(KEY_A, 0));
    assert_eq!(s, before);
}

#[test]
fn other_keys_and_non_key_events_change_nothing() {
    let mut s = idle();
    let before = s;
    s.handle_event(&key(KEY_A, 1));
    s.handle_event(&InputEvent::new(EV_REL, 0, 5));
    s.handle_event(&InputEvent::new(EV_REL, KEY_F8, 1));
    assert_eq!(s, before);
}

#[test]
fn left_button_tracks_hold_only() {
    let mut s = idle();
    s.handle_event(&key(BTN_LEFT, 1));
    assert!(s.mouse_held);
    assert!(!s.active);
    s.handle_event(&key(BTN_LEFT, 2));
    assert!(s.mouse_held);
    s.handle_event(&key(BTN_LEFT, 0));
    assert!(!s.mouse_held);
}

#[test]
fn left_button_is_never_captured_by_a_rebind() {
    let mut s = idle();
    s.request_rebind();
    s.handle_event(&key(BTN_LEFT, 1));
    assert!(s.rebinding);
    assert_eq!(s.new_key, None);
}

#[test]
fn rebind_captures_next_press_and_becomes_hotkey() {
    let mut s = idle();
    s.request_rebind();
    assert!(s.rebinding);
    s.handle_event(&key(KEY_A, 0));
    assert!(s.rebinding);
    s.handle_event(&key(KEY_A, 1));
    assert!(!s.rebinding);
    assert_eq!(s.new_key, Some(KEY_A));
    assert!(!s.active);
    assert!(s.complete_rebind());
    assert_eq!(s.hotkey, KEY_A);
    assert_eq!(s.new_key, None);
    assert!(!s.complete_rebind());
    s.handle_event(&key(KEY_A, 1));
    assert!(s.active);
}

#[test]
fn capturing_the_current_hotkey_does_not_toggle() {
    let mut s = idle();
    s.request_rebind();
    s.request_rebind();
    s.handle_event(&key(KEY_F8, 1));
    assert!(!s.active);
    assert_eq!(s.new_key, Some(KEY_F8));
}

#[test]
fn batch_is_handled_in_order() {
    let mut one = idle();
    let events = vec![key(KEY_F8, 1), key(KEY_F8, 0), key(BTN_LEFT, 1), key(KEY_F8, 1), key(KEY_F8, 1)];
    one.handle_events(&events);
    let mut each = idle();
    for e in &events {
        each.handle_event(e);
    }
    assert_eq!(one, each);
    assert!(one.active);
    assert!(one.mouse_held);
}

#[test]
fn toggle_clicking_twice_restores() {
    let mut s = idle();
    s.toggle_clicking();
    assert!(s.clicking);
    assert_eq!(s.status_label(), "CLICKING");
    assert_eq!(s.toggle_label(), "Stop");
    s.toggle_clicking();
    assert!(!s.clicking);
    assert_eq!(s.status_label(), "STOPPED");
    assert_eq!(s.toggle_label(), "Start");
}

#[test]
fn hotkey_label_names_the_key() {
    let mut s = idle();
    assert_eq!(s.hotkey_label(), "KEY_F8");
    s.hotkey = BTN_LEFT;
    assert_eq!(s.hotkey_label(), "BTN_LEFT");
    s.hotkey = 0xffff;
    assert_eq!(s.hotkey_label(), "unknown key: 65535");
    s.request_rebind();
    assert_eq!(s.hotkey_label(), "press a key...");
}

#[test]
fn commit_accepts_positive_delay() {
    let mut s = idle();
    let (text, saved) = s.commit_delay_input("120");
    assert!(saved);
    assert_eq!(s.delay_ms, 120);
    assert_eq!(text, "120");
    let (text, saved) = s.commit_delay_input("+0200");
    assert!(saved);
    assert_eq!(s.delay_ms, 200);
    assert_eq!(text, "200");
}

#[test]
fn commit_rejects_zero_and_garbage() {
    let mut s = idle();
    for input in ["0", "", "abc", "-5", "1.5", "99999999999999999999"] {
        let (text, saved) = s.commit_delay_input(input);
        assert!(!saved, "{input:?}");
        assert_eq!(s.delay_ms, 50);
        assert_eq!(text, "50");
    }
}

#[test]
fn committing_the_shown_text_changes_nothing() {
    let mut s = idle();
    let (text, _) = s.commit_delay_input("  7");
    let before = s;
    let (again, _) = s.commit_delay_input(&text);
    assert_eq!(s, before);
    assert_eq!(again, text);
    assert_eq!(s.delay_text(), "50");
}

#[test]
fn clicker_waits_without_hotkey() {
    let mut s = idle();
    s.toggle_clicking();
    assert!(!s.should_click());
    assert_eq!(s.click_step(), ClickAction::Wait { wait_ms: 10 });
}

#[test]
fn auto_mode_clicks_at_the_delay() {
    let mut s = idle();
    s.handle_event(&key(KEY_F8, 1));
    assert!(s.should_click());
    assert!(!s.should_grab());
    assert_eq!(s.click_step(), ClickAction::Click { hold_ms: 1, delay_ms: 50 });
    s.delay_ms = 0;
    assert_eq!(s.click_step(), ClickAction::Click { hold_ms: 1, delay_ms: 1 });
}

#[test]
fn hold_mode_clicks_only_while_held() {
    let mut s = SharedState::from_config(&Config { delay_ms: 30, hotkey: KEY_F8, mode: ClickMode::Hold });
    s.handle_event(&key(KEY_F8, 1));
    assert!(s.should_grab());
    assert_eq!(s.click_step(), ClickAction::Wait { wait_ms: 10 });
    s.handle_event(&key(BTN_LEFT, 1));
    assert_eq!(s.click_step(), ClickAction::Click { hold_ms: 1, delay_ms: 30 });
    s.handle_event(&key(BTN_LEFT, 0));
    assert!(!s.should_click());
}
