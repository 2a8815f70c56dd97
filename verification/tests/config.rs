use wclicker::config::Config;
use wclicker::mode::ClickMode;
use wclicker::state::SharedState;

#[test]
fn default_settings() {
    let c = Config::default();
    assert_eq!(c.delay_ms, 50);
    assert_eq!(c.hotkey, 66);
    assert_eq!(c.mode, ClickMode::Auto);
}

#[test]
fn path_prefers_xdg_config_home() {
    assert_eq!(Config::path(Some("/x"), Some("/home/u")), "/x/wclicker/config.toml");
    assert_eq!(Config::path(Some("/x/"), None), "/x/wclicker/config.toml");
}

#[test]
fn path_falls_back_to_home() {
    assert_eq!(Config::path(None, Some("/home/u")), "/home/u/.config/wclicker/config.toml");
    assert_eq!(Config::path(None, Some("/home/u/")), "/home/u/.config/wclicker/config.toml");
}

#[test]
fn path_without_home_is_relative() {
    assert_eq!(Config::path(None, None), ".config/wclicker/config.toml");
    assert_eq!(Config::path(Some(""), Some("/home/u")), "wclicker/config.toml");
}

#[test]
fn path_matches_pathbuf_join() {
    for (xdg, home) in [(Some("/a/b"), None), (None, Some("/h")), (None, None), (Some("rel"), None)] {
        let dir = match xdg {
            Some(x) => std::path::PathBuf::from(x),
            None => std::path::PathBuf::from(home.unwrap_or("")).join(".config"),
        }
        .join("wclicker")
        .join("config.toml");
        assert_eq!(Config::path(xdg, home), dir.to_str().unwrap());
    }
}

#[test]
fn state_from_config_starts_idle() {
    let c = Config { delay_ms: 120, hotkey: 30, mode: ClickMode::Hold };
    let s = SharedState::from_config(&c);
    assert!(!s.clicking);
    assert!(!s.active);
    assert!(!s.rebinding);
    assert!(!s.mouse_held);
    assert_eq!(s.new_key, None);
    assert_eq!(s.delay_ms, 120);
    assert_eq!(s.hotkey, 30);
    assert_eq!(s.mode, 1);
}

#[test]
fn saved_settings_keep_delay_and_hotkey() {
    let c = Config { delay_ms: 75, hotkey: 59, mode: ClickMode::Hold };
    let back = SharedState::from_config(&c).to_config();
    assert_eq!(back, Config { delay_ms: 75, hotkey: 59, mode: ClickMode::Auto });
}

#[test]
fn mode_byte_roundtrip() {
    assert_eq!(ClickMode::from_u8(ClickMode::Auto.as_u8()), ClickMode::Auto);
    assert_eq!(ClickMode::from_u8(ClickMode::Hold.as_u8()), ClickMode::Hold);
    assert_eq!(ClickMode::Hold.as_u8(), 1);
    assert_eq!(ClickMode::from_u8(7), ClickMode::Auto);
    assert_eq!(ClickMode::default(), ClickMode::Auto);
}
