use wclicker::config::Config;
use wclicker::event::{forwarded_events, InputEvent};
use wclicker::listener::{is_event_device_name, should_listen, GrabAction, Listener};
use wclicker::mode::ClickMode;
use wclicker::state::SharedState;

const EV_SYN: u16 = 0;
const EV_KEY: u16 = 1;
const EV_REL: u16 = 2;
const BTN_LEFT: u16 = 0x110;
const BTN_RIGHT: u16 = 0x111;

fn hold_active() -> SharedState {
    let mut s = SharedState::from_config(&Config { delay_ms: 50, hotkey: 66, mode: ClickMode::Hold });
    s.handle_event(&InputEvent::new(EV_KEY, 66, 1));
    s
}

#[test]
fn grab_follows_hold_mode_activation() {
    let mut l = Listener::new(true);
    let s = hold_active();
    let a = l.plan_grab(&s);
    assert_eq!(a, GrabAction::Grab);
    l.record_grab(a, true);
    assert!(l.grabbed);
    assert_eq!(l.plan_grab(&s), GrabAction::Keep);
    let mut off = s;
    off.handle_event(&InputEvent::new(EV_KEY, 66, 1));
    let a = l.plan_grab(&off);
    assert_eq!(a, GrabAction::Release);
    l.record_grab(a, false);
    assert!(!l.grabbed);
}

#[test]
fn failed_grab_is_not_held() {
    let mut l = Listener::new(true);
    let a = l.plan_grab(&hold_active());
    l.record_grab(a, false);
    assert!(!l.grabbed);
}

#[test]
fn no_forwarder_never_grabs() {
    let l = Listener::new(false);
    assert_eq!(l.plan_grab(&hold_active()), GrabAction::Keep);
}

#[test]
fn auto_mode_never_grabs() {
    let l = Listener::new(true);
    let mut s = SharedState::from_config(&Config::default());
    s.handle_event(&InputEvent::new(EV_KEY, 66, 1));
    assert_eq!(l.plan_grab(&s), GrabAction::Keep);
}

#[test]
fn forwarding_drops_left_button_and_sync() {
    let events = vec![
        InputEvent::new(EV_REL, 0, 3),
        InputEvent::new(EV_KEY, BTN_LEFT, 1),
        InputEvent::new(EV_SYN, 0, 0),
        InputEvent::new(EV_KEY, BTN_RIGHT, 1),
        InputEvent::new(EV_REL, BTN_LEFT, 1),
    ];
    let kept = forwarded_events(&events);
    assert_eq!(kept, vec![events[0], events[3], events[4]]);
    let mut l = Listener::new(true);
    assert_eq!(l.forward_batch(&events), None);
    l.record_grab(GrabAction::Grab, true);
    assert_eq!(l.forward_batch(&events), Some(kept));
    let only_dropped = vec![InputEvent::new(EV_KEY, BTN_LEFT, 0), InputEvent::new(EV_SYN, 0, 0)];
    assert_eq!(l.forward_batch(&only_dropped), None);
}

#[test]
fn event_device_names() {
    assert!(is_event_device_name("event0"));
    assert!(is_event_device_name("event12"));
    assert!(is_event_device_name("event"));
    assert!(!is_event_device_name("mouse0"));
    assert!(!is_event_device_name("even"));
    assert!(!is_event_device_name("by-id"));
    assert!(should_listen("event3", 4));
    assert!(!should_listen("event3", 0));
    assert!(!should_listen("js0", 4));
}
