//! Readings of the pointer, its buttons and the screen, as the system gives them.

use vstd::prelude::*;

verus! {

/// Whether a key-state reading (`GetAsyncKeyState`) says the key is down: its
/// most significant bit is set.
pub fn key_is_down(state: i16) -> (down: bool)
    ensures
        down == ((state as u16) & 0x8000u16 != 0),
        down == (state < 0),
{
    assert(((state as u16) & 0x8000u16 != 0) == (state < 0)) by (bit_vector);
    (state as u16) & 0x8000u16 != 0
}

/// The part of a monitor not covered by the task bar.
#[derive(Clone, Copy, PartialEq, Eq, Debug, Structural)]
pub struct WorkArea {
    pub x: i32,
    pub y: i32,
    pub width: i64,
    pub height: i64,
}

/// The work area of a monitor, from its rectangle's edges.
pub fn work_area_from_rect(left: i32, top: i32, right: i32, bottom: i32) -> (a: WorkArea)
    ensures
        a.x == left,
        a.y == top,
        a.width == right - left,
        a.height == bottom - top,
{
    WorkArea { x: left, y: top, width: (right as i64) - (left as i64), height: (bottom as i64) - (top as i64) }
}

} // verus!
