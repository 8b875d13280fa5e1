//! Small helpers for the diagnostic lines the scanner logs at startup.

use vstd::prelude::*;

verus! {

/// The text for a capture device's raw position code. The device description
/// encodes its position as a platform integer: 0 for an unspecified mount, 1
/// for a back camera, 2 for a front camera; anything else is invalid.
pub open spec fn spec_position_str(position: isize) -> Seq<char> {
    if position == 0 {
        "Unspecified"@
    } else if position == 1 {
        "Back"@
    } else if position == 2 {
        "Front"@
    } else {
        "Invalid"@
    }
}

/// Render a capture device's raw position code for a diagnostic line.
pub fn position_to_str(position: isize) -> (s: &'static str)
    ensures
        s@ == spec_position_str(position),
{
    match position {
        0 => "Unspecified",
        1 => "Back",
        2 => "Front",
        _ => "Invalid",
    }
}

} // verus!
