//! Saved settings: their defaults and where the settings file lives.

use vstd::prelude::*;
use crate::codes::{key_f8, f8_key_code};
use crate::mode::ClickMode;

verus! {

/// The settings that are kept between runs.
#[derive(Clone, Copy, Debug, PartialEq, Eq, Structural)]
pub struct Config {
    /// Pause between two clicks, in milliseconds.
    pub delay_ms: u64,
    /// Scancode of the key that switches clicking on and off.
    pub hotkey: u16,
    /// Whether clicking runs freely or only while the left button is held.
    pub mode: ClickMode,
}

impl Default for Config {
    /// 50 ms between clicks, F8 as the hotkey, free-running clicks.
    fn default() -> (c: Config)
        ensures
            c.delay_ms == 50,
            c.hotkey == key_f8(),
            c.mode == ClickMode::Auto,
    {
        Config { delay_ms: 50, hotkey: f8_key_code(), mode: ClickMode::Auto }
    }
}

/// `base` with `part` appended as one more path component: a `/` goes
/// between them unless `base` is empty or already ends with `/`.
pub open spec fn join_path(base: Seq<char>, part: Seq<char>) -> Seq<char> {
    if base.len() == 0 {
        part
    } else if base.last() == '/' {
        base + part
    } else {
        base + seq!['/'] + part
    }
}

/// The directory of the settings file: `wclicker` inside `$XDG_CONFIG_HOME`
/// when that variable is set (even to the empty string), else inside
/// `$HOME/.config`, with an unset `HOME` read as the empty path.
pub open spec fn config_dir_path(
    xdg_config_home: Option<Seq<char>>,
    home: Option<Seq<char>>,
) -> Seq<char> {
    let base = match xdg_config_home {
        Some(x) => x,
        None => join_path(
            match home {
                Some(h) => h,
                None => Seq::empty(),
            },
            ".config"@,
        ),
    };
    join_path(base, "wclicker"@)
}

/// The settings file: `config.toml` in the settings directory.
pub open spec fn config_file_path(
    xdg_config_home: Option<Seq<char>>,
    home: Option<Seq<char>>,
) -> Seq<char> {
    join_path(config_dir_path(xdg_config_home, home), "config.toml"@)
}

/// The view of an optional string.
pub open spec fn opt_str_view(s: Option<&str>) -> Option<Seq<char>> {
    match s {
        Some(t) => Some(t@),
        None => None,
    }
}

fn join(base: String, part: &str) -> (p: String)
    ensures
        p@ == join_path(base@, part@),
{
    let n = base.as_str().unicode_len();
    if n == 0 {
        String::from_str(part)
    } else if base.as_str().get_char(n - 1) == '/' {
        base.concat(part)
    } else {
        proof { reveal_strlit("/"); }
        let with_sep = base.concat("/");
        with_sep.concat(part)
    }
}

/// The settings directory for the given values of `XDG_CONFIG_HOME` and `HOME`.
fn config_dir(xdg_config_home: Option<&str>, home: Option<&str>) -> (p: String)
    ensures
        p@ == config_dir_path(opt_str_view(xdg_config_home), opt_str_view(home)),
{
    let base = match xdg_config_home {
        Some(x) => String::from_str(x),
        None => {
            let h = match home {
                Some(h) => String::from_str(h),
                None => String::new(),
            };
            join(h, ".config")
        },
    };
    join(base, "wclicker")
}

impl Config {
    /// Where the settings file lives, given the values of the environment
    /// variables `XDG_CONFIG_HOME` and `HOME` (`None` where unset).
    pub fn path(xdg_config_home: Option<&str>, home: Option<&str>) -> (p: String)
        ensures
            p@ == config_file_path(opt_str_view(xdg_config_home), opt_str_view(home)),
    {
        join(config_dir(xdg_config_home, home), "config.toml")
    }
}

} // verus!
