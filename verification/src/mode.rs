//! The two ways the clicker can run, and their one-byte encoding.

use vstd::prelude::*;

verus! {

/// `Auto` clicks for as long as clicking is switched on; `Hold` clicks only
/// while the physical left button is held down.
#[derive(Clone, Copy, Debug, PartialEq, Eq, Structural)]
pub enum ClickMode {
    Auto,
    Hold,
}

/// The byte that stands for a mode.
pub open spec fn mode_code(m: ClickMode) -> u8 {
    match m {
        ClickMode::Auto => 0,
        ClickMode::Hold => 1,
    }
}

/// The mode that a byte stands for: `1` is `Hold`, every other byte `Auto`.
pub open spec fn mode_of_code(v: u8) -> ClickMode {
    if v == 1 {
        ClickMode::Hold
    } else {
        ClickMode::Auto
    }
}

impl ClickMode {
    /// The byte that stands for this mode.
    pub fn as_u8(&self) -> (v: u8)
        ensures
            v == mode_code(*self),
    {
        match self {
            ClickMode::Auto => 0,
            ClickMode::Hold => 1,
        }
    }

    /// The mode that `v` stands for; unknown bytes read as `Auto`.
    pub fn from_u8(v: u8) -> (m: ClickMode)
        ensures
            m == mode_of_code(v),
    {
        if v == 1 {
            ClickMode::Hold
        } else {
            ClickMode::Auto
        }
    }
}

impl Default for ClickMode {
    fn default() -> (m: ClickMode)
        ensures
            m == ClickMode::Auto,
    {
        ClickMode::Auto
    }
}

} // verus!
