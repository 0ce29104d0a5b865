//! The left mouse button on the pet: a short press makes it jump, a long press
//! or a press that moves drags it.

use vstd::prelude::*;

verus! {

/// A press held longer than this (nanoseconds) is a drag, not a click.
pub const DRAG_HOLD_NS: u64 = 250_000_000;

/// A press that moves the pointer farther than this (pixels) is a drag.
pub const DRAG_MOVE_THRESHOLD: i64 = 6;

/// Where and when the button went down on the pet.
#[derive(Clone, Copy, PartialEq, Eq, Debug, Structural)]
pub struct Press {
    /// Monotonic clock reading, in nanoseconds.
    pub start_ns: u64,
    pub x: i32,
    pub y: i32,
}

/// What the left button has been doing.
#[derive(Clone, Copy, PartialEq, Eq, Debug, Structural)]
pub struct PressTracker {
    pub mouse_was_down: bool,
    /// The press in progress that began on the pet, if any.
    pub press: Option<Press>,
    pub dragging: bool,
}

/// What a frame's button reading amounts to.
#[derive(Clone, Copy, PartialEq, Eq, Debug, Structural)]
pub enum PressEvent {
    Nothing,
    /// The press became a drag; the pet now follows the pointer.
    DragStarted,
    /// A drag ended with the release of the button.
    DragEnded,
    /// A press on the pet was released before it became a drag: the pet jumps.
    Clicked,
}

/// Nanoseconds from `start` to `now`, 0 where the clock reads earlier.
pub open spec fn held_ns(start: u64, now: u64) -> int {
    if now >= start { now - start } else { 0 }
}

/// Whether the pointer is farther than `DRAG_MOVE_THRESHOLD` from where the
/// press began.
pub open spec fn moved_far(p: Press, x: i32, y: i32) -> bool {
    (x - p.x) * (x - p.x) + (y - p.y) * (y - p.y) > DRAG_MOVE_THRESHOLD * DRAG_MOVE_THRESHOLD
}

pub open spec fn becomes_drag(p: Press, now_ns: u64, x: i32, y: i32) -> bool {
    held_ns(p.start_ns, now_ns) > DRAG_HOLD_NS || moved_far(p, x, y)
}

/// The tracker after one frame, and what happened in it. `down` is the button
/// now, `hovered` whether the pointer is on the pet, (`x`, `y`) the pointer.
pub open spec fn press_step(s: PressTracker, down: bool, hovered: bool, now_ns: u64, x: i32, y: i32) -> (PressTracker, PressEvent) {
    let press = if down && !s.mouse_was_down && hovered {
        Some(Press { start_ns: now_ns, x: x, y: y })
    } else {
        s.press
    };
    let starts = down && press is Some && !s.dragging && becomes_drag(press->0, now_ns, x, y);
    let dragging = s.dragging || starts;
    if !down && s.mouse_was_down {
        let ev = if dragging {
            PressEvent::DragEnded
        } else if press is Some {
            PressEvent::Clicked
        } else {
            PressEvent::Nothing
        };
        (PressTracker { mouse_was_down: down, press: None, dragging: false }, ev)
    } else {
        (
            PressTracker { mouse_was_down: down, press: press, dragging: dragging },
            if starts { PressEvent::DragStarted } else { PressEvent::Nothing },
        )
    }
}

/// One frame's reading of the left button and the pointer.
pub struct PressInput {
    pub down: bool,
    pub hovered: bool,
    pub now_ns: u64,
    pub x: i32,
    pub y: i32,
}

/// The tracker's state after each frame of a run of frames, and what happened
/// in each, starting from `t`.
pub open spec fn press_run(t: PressTracker, ins: Seq<PressInput>) -> Seq<(PressTracker, PressEvent)>
    decreases ins.len(),
{
    if ins.len() == 0 {
        Seq::empty()
    } else {
        let i = ins[0];
        let o = press_step(t, i.down, i.hovered, i.now_ns, i.x, i.y);
        seq![o] + press_run(o.0, ins.drop_first())
    }
}

impl PressTracker {
    /// Button up, nothing in progress.
    pub fn new() -> (t: PressTracker)
        ensures
            t == (PressTracker { mouse_was_down: false, press: None, dragging: false }),
    {
        PressTracker { mouse_was_down: false, press: None, dragging: false }
    }

    /// Takes one frame's reading of the button and the pointer.
    pub fn update(&mut self, down: bool, hovered: bool, now_ns: u64, x: i32, y: i32) -> (ev: PressEvent)
        ensures
            (*final(self), ev) == press_step(*old(self), down, hovered, now_ns, x, y),
    {
        if down && !self.mouse_was_down && hovered {
            self.press = Some(Press { start_ns: now_ns, x, y });
        }
        let mut ev = PressEvent::Nothing;
        if down {
            if let Some(p) = self.press {
                if !self.dragging {
                    let held: u64 = if now_ns >= p.start_ns { now_ns - p.start_ns } else { 0 };
                    let dx: i128 = (x as i128) - (p.x as i128);
                    let dy: i128 = (y as i128) - (p.y as i128);
                    assert(0 <= dx * dx <= 0x1_0000_0000 * 0x1_0000_0000) by (nonlinear_arith)
                        requires -0x1_0000_0000 <= dx <= 0x1_0000_0000;
                    assert(0 <= dy * dy <= 0x1_0000_0000 * 0x1_0000_0000) by (nonlinear_arith)
                        requires -0x1_0000_0000 <= dy <= 0x1_0000_0000;
                    let dist2: i128 = dx * dx + dy * dy;
                    if held > DRAG_HOLD_NS || dist2 > (DRAG_MOVE_THRESHOLD * DRAG_MOVE_THRESHOLD) as i128 {
                        self.dragging = true;
                        ev = PressEvent::DragStarted;
                    }
                }
            }
        }
        if !down && self.mouse_was_down {
            if self.dragging {
                self.dragging = false;
                ev = PressEvent::DragEnded;
            } else if self.press.is_some() {
                ev = PressEvent::Clicked;
            }
            self.press = None;
        }
        self.mouse_was_down = down;
        ev
    }
}

} // verus!
