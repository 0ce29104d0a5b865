//! The tray icon's show/hide entry.

use vstd::prelude::*;

verus! {

/// After a click on the tray icon or its menu entry: whether to show the pet
/// (else hide it), given whether it is visible now, and the menu entry's new
/// label, which offers the opposite next time.
pub fn toggle_visibility_plan(visible: bool) -> (r: (bool, &'static str))
    ensures
        r.0 == !visible,
        r.1@ == (if visible { "显示"@ } else { "隐藏"@ }),
{
    if visible {
        (false, "显示")
    } else {
        (true, "隐藏")
    }
}

} // verus!
