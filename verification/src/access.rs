//! The report of missing device permissions shown instead of the controls.

use vstd::prelude::*;

verus! {

/// The complaint when `/dev/uinput` cannot be opened for writing.
pub open spec fn uinput_message() -> Seq<char> {
    "Cannot write to /dev/uinput \u{2014} add yourself to the 'uinput' group or set up a udev rule"@
}

/// The complaint when no `/dev/input/event*` device can be read.
pub open spec fn input_message() -> Seq<char> {
    "Cannot read /dev/input/event* \u{2014} add yourself to the 'input' group"@
}

/// The complaints, in the order the devices are checked: first the uinput
/// device, then the input event devices.
pub open spec fn access_report(uinput_writable: bool, input_readable: bool) -> Seq<Seq<char>> {
    let first = if uinput_writable { Seq::empty() } else { seq![uinput_message()] };
    let second = if input_readable { Seq::empty() } else { seq![input_message()] };
    first + second
}

/// Human-readable complaints for each required device that is not
/// accessible, given whether `/dev/uinput` opened for writing and whether
/// some `/dev/input/event*` device opened for reading.
pub fn check_device_access(uinput_writable: bool, input_readable: bool) -> (errors: Vec<String>)
    ensures
        errors@.len() == access_report(uinput_writable, input_readable).len(),
        forall|i: int|
            0 <= i < errors@.len() ==> #[trigger] errors@[i]@ == access_report(
                uinput_writable,
                input_readable,
            )[i],
{
    let mut errors: Vec<String> = Vec::new();
    if !uinput_writable {
        errors.push(
            String::from_str(
                "Cannot write to /dev/uinput \u{2014} add yourself to the 'uinput' group or set up a udev rule",
            ),
        );
    }
    if !input_readable {
        errors.push(
            String::from_str("Cannot read /dev/input/event* \u{2014} add yourself to the 'input' group"),
        );
    }
    errors
}

} // verus!
