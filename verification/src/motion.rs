//! What the pet is up to and where it heads, frame by frame.
//!
//! The pet chases the pointer, parking beside it; when the pointer is flung
//! away (far, or fast) it gives up and walks down to the bottom of the screen,
//! waits there a while, strolls left or right, waits again, and so on; when
//! the pointer comes near again it resumes the chase. Hovering over the pet
//! stops it, and a press on it can become a drag (see `pointer`).
//!
//! Distances, speeds and timers are measured by the caller, which hands over
//! the outcome of each comparison as a `Sense`; the decisions are taken here.

use vstd::prelude::*;
use crate::pointer::{press_step, PressEvent, PressTracker};

verus! {

/// How often (milliseconds) the pointer's motion is sampled to tell whether it
/// was flung away from the pet.
pub const ESCAPE_SAMPLE_WINDOW_MS: u128 = 120;

#[derive(Clone, Copy, PartialEq, Eq, Debug, Structural)]
pub enum Mode {
    /// Following the pointer.
    Chase,
    /// Walking straight down to the bottom of the screen.
    Retreat,
    /// Waiting at the bottom.
    BottomIdle,
    /// Strolling along the bottom to a chosen spot.
    BottomWalk,
}

/// Which side of the pointer the pet parks on while chasing.
#[derive(Clone, Copy, PartialEq, Eq, Debug, Structural)]
pub enum Side {
    Left,
    Right,
}

/// The pet's state of mind.
#[derive(Clone, Copy, PartialEq, Eq, Debug, Structural)]
pub struct Pet {
    pub mode: Mode,
    pub chase_side: Side,
    /// Whether the pointer is on the pet.
    pub hovered: bool,
    pub press: PressTracker,
    /// Pointer position at the last escape sample.
    pub sample_x: i32,
    pub sample_y: i32,
    /// Wall-clock time (milliseconds) of the last escape sample.
    pub sample_ms: u128,
}

/// The outcome of the caller's measurements for one frame.
#[derive(Clone, Copy, PartialEq, Eq, Debug, Structural)]
pub struct Sense {
    /// The pointer is within the distance at which a chase resumes.
    pub cursor_near: bool,
    /// The pet is left of the pointer, or level with it.
    pub pet_left_of_cursor: bool,
    /// Since the last escape sample the pointer got far from the pet, or moved
    /// away from it fast.
    pub escaping: bool,
    /// Another resting pet occupies the parking spot left of the pointer.
    pub left_spot_taken: bool,
    /// Another resting pet occupies the parking spot right of the pointer.
    pub right_spot_taken: bool,
    /// The pet is at the bottom of the screen, straight below where it is.
    pub at_bottom: bool,
    /// Another resting pet occupies that spot at the bottom.
    pub bottom_spot_taken: bool,
    /// The pet has reached its strolling destination.
    pub at_wander_target: bool,
    /// The idle wait runs out within this frame.
    pub idle_elapsed: bool,
}

/// Where the pet heads this frame.
#[derive(Clone, Copy, PartialEq, Eq, Debug, Structural)]
pub enum Target {
    /// Where it is.
    Here,
    /// The parking spot on that side of the pointer.
    BesideCursor(Side),
    /// The bottom of the screen, straight below.
    Bottom,
    /// The strolling destination at the bottom.
    WanderSpot,
}

/// What to do with the idle wait.
#[derive(Clone, Copy, PartialEq, Eq, Debug, Structural)]
pub enum IdleTimer {
    Keep,
    /// Draw a fresh waiting time.
    Restart,
    /// Let this frame's time run off it.
    Run,
}

/// How fast the pet may move.
#[derive(Clone, Copy, PartialEq, Eq, Debug, Structural)]
pub enum Gait {
    Brisk,
    /// The slow pace of strolling along the bottom.
    Stroll,
}

/// The frame's steering decision.
#[derive(Clone, Copy, PartialEq, Eq, Debug, Structural)]
pub struct Steer {
    pub target: Target,
    /// Whether to accelerate towards the target (else the pet brakes).
    pub seek: bool,
    pub idle_timer: IdleTimer,
    /// Whether to choose a new strolling destination.
    pub pick_wander: bool,
    /// Whether the pet turns to the pointer (else to its own heading).
    pub face_cursor: bool,
    pub gait: Gait,
}

/// What the frame's pointer reading changed.
#[derive(Clone, Copy, PartialEq, Eq, Debug, Structural)]
pub struct PointerOutcome {
    /// Whether the pointer entered or left the pet.
    pub hover_changed: bool,
    pub event: PressEvent,
}

pub open spec fn elapsed_ms(now: u128, since: u128) -> int {
    if now >= since { now - since } else { 0 }
}

pub open spec fn flip(s: Side) -> Side {
    match s {
        Side::Left => Side::Right,
        Side::Right => Side::Left,
    }
}

pub open spec fn spot_taken(sense: Sense, side: Side) -> bool {
    match side {
        Side::Left => sense.left_spot_taken,
        Side::Right => sense.right_spot_taken,
    }
}

pub open spec fn gait_of(m: Mode) -> Gait {
    if m == Mode::BottomWalk { Gait::Stroll } else { Gait::Brisk }
}

/// The state after the frame's pointer reading.
pub open spec fn pointer_step(p: Pet, now_hovered: bool, down: bool, now_ns: u64, x: i32, y: i32) -> (Pet, PointerOutcome) {
    let (press, ev) = press_step(p.press, down, now_hovered, now_ns, x, y);
    (
        Pet {
            hovered: now_hovered,
            press: press,
            mode: if ev == PressEvent::DragEnded { Mode::Retreat } else { p.mode },
            ..p
        },
        PointerOutcome { hover_changed: p.hovered != now_hovered, event: ev },
    )
}

/// Chase resumes when the pointer comes near; a chase is abandoned when an
/// escape sample finds the pointer flung away.
pub open spec fn reconsider(p: Pet, now_ms: u128, x: i32, y: i32, sense: Sense) -> Pet {
    if p.mode != Mode::Chase {
        if sense.cursor_near {
            Pet {
                mode: Mode::Chase,
                chase_side: if sense.pet_left_of_cursor { Side::Left } else { Side::Right },
                ..p
            }
        } else {
            p
        }
    } else if elapsed_ms(now_ms, p.sample_ms) >= ESCAPE_SAMPLE_WINDOW_MS {
        Pet {
            mode: if sense.escaping { Mode::Retreat } else { Mode::Chase },
            sample_x: x,
            sample_y: y,
            sample_ms: now_ms,
            ..p
        }
    } else {
        p
    }
}

pub open spec fn steer_of(target: Target, seek: bool, timer: IdleTimer, pick: bool, hovered: bool, m: Mode) -> Steer {
    Steer {
        target: target,
        seek: seek,
        idle_timer: timer,
        pick_wander: pick,
        face_cursor: hovered || m == Mode::Chase,
        gait: gait_of(m),
    }
}

/// The state and the decision after the frame's steering.
pub open spec fn steer_step(p: Pet, frozen: bool, now_ms: u128, x: i32, y: i32, sense: Sense) -> (Pet, Steer) {
    let q = reconsider(p, now_ms, x, y, sense);
    if q.hovered || frozen {
        (q, steer_of(Target::Here, false, IdleTimer::Keep, false, q.hovered, q.mode))
    } else {
        match q.mode {
            Mode::Chase => {
                let side = if spot_taken(sense, q.chase_side) { flip(q.chase_side) } else { q.chase_side };
                (
                    Pet { chase_side: side, ..q },
                    steer_of(Target::BesideCursor(side), true, IdleTimer::Keep, false, q.hovered, Mode::Chase),
                )
            },
            Mode::Retreat => {
                let (m, timer, pick) = if !sense.at_bottom {
                    (Mode::Retreat, IdleTimer::Keep, false)
                } else if sense.bottom_spot_taken {
                    (Mode::BottomWalk, IdleTimer::Keep, true)
                } else {
                    (Mode::BottomIdle, IdleTimer::Restart, false)
                };
                (Pet { mode: m, ..q }, steer_of(Target::Bottom, true, timer, pick, q.hovered, m))
            },
            Mode::BottomIdle => {
                let m = if sense.idle_elapsed { Mode::BottomWalk } else { Mode::BottomIdle };
                (
                    Pet { mode: m, ..q },
                    steer_of(Target::Bottom, false, IdleTimer::Run, sense.idle_elapsed, q.hovered, m),
                )
            },
            Mode::BottomWalk => {
                let (m, timer) = if sense.at_wander_target {
                    (Mode::BottomIdle, IdleTimer::Restart)
                } else {
                    (Mode::BottomWalk, IdleTimer::Keep)
                };
                (Pet { mode: m, ..q }, steer_of(Target::WanderSpot, true, timer, false, q.hovered, m))
            },
        }
    }
}

impl Pet {
    /// A pet that starts out chasing the pointer at (`x`, `y`), sampled at
    /// `now_ms`; it parks on the side of the pointer it comes from.
    pub fn new(pet_left_of_cursor: bool, x: i32, y: i32, now_ms: u128) -> (p: Pet)
        ensures
            p.mode == Mode::Chase,
            p.chase_side == (if pet_left_of_cursor { Side::Left } else { Side::Right }),
            !p.hovered,
            p.press == (PressTracker { mouse_was_down: false, press: None, dragging: false }),
            p.sample_x == x,
            p.sample_y == y,
            p.sample_ms == now_ms,
    {
        Pet {
            mode: Mode::Chase,
            chase_side: if pet_left_of_cursor { Side::Left } else { Side::Right },
            hovered: false,
            press: PressTracker::new(),
            sample_x: x,
            sample_y: y,
            sample_ms: now_ms,
        }
    }

    /// Whether the pet is being dragged.
    pub fn dragging(&self) -> (b: bool)
        ensures
            b == self.press.dragging,
    {
        self.press.dragging
    }

    /// Takes the frame's pointer reading: whether the pointer is on the pet, the
    /// left button, a monotonic clock (nanoseconds) and the pointer position.
    /// A drag released puts the pet on its way back to the bottom.
    pub fn pointer(&mut self, now_hovered: bool, down: bool, now_ns: u64, x: i32, y: i32) -> (out: PointerOutcome)
        ensures
            (*final(self), out) == pointer_step(*old(self), now_hovered, down, now_ns, x, y),
    {
        let hover_changed = self.hovered != now_hovered;
        self.hovered = now_hovered;
        let event = self.press.update(down, now_hovered, now_ns, x, y);
        if event == PressEvent::DragEnded {
            self.mode = Mode::Retreat;
        }
        PointerOutcome { hover_changed, event }
    }

    /// Decides the frame's heading, when the pet is not being dragged. `frozen`
    /// tells that a panel holds the pet still; `now_ms` is the wall clock and
    /// (`x`, `y`) the pointer.
    pub fn steer(&mut self, frozen: bool, now_ms: u128, x: i32, y: i32, sense: Sense) -> (s: Steer)
        requires
            !old(self).press.dragging,
        ensures
            (*final(self), s) == steer_step(*old(self), frozen, now_ms, x, y, sense),
    {
        if self.mode != Mode::Chase {
            if sense.cursor_near {
                self.mode = Mode::Chase;
                self.chase_side = if sense.pet_left_of_cursor { Side::Left } else { Side::Right };
            }
        } else {
            let elapsed: u128 = if now_ms >= self.sample_ms { now_ms - self.sample_ms } else { 0 };
            if elapsed >= ESCAPE_SAMPLE_WINDOW_MS {
                if sense.escaping {
                    self.mode = Mode::Retreat;
                }
                self.sample_x = x;
                self.sample_y = y;
                self.sample_ms = now_ms;
            }
        }
        let hovered = self.hovered;
        if hovered || frozen {
            return Steer {
                target: Target::Here,
                seek: false,
                idle_timer: IdleTimer::Keep,
                pick_wander: false,
                face_cursor: hovered || self.mode == Mode::Chase,
                gait: if self.mode == Mode::BottomWalk { Gait::Stroll } else { Gait::Brisk },
            };
        }
        let mut target = Target::Here;
        let mut seek = true;
        let mut idle_timer = IdleTimer::Keep;
        let mut pick_wander = false;
        match self.mode {
            Mode::Chase => {
                let taken = match self.chase_side {
                    Side::Left => sense.left_spot_taken,
                    Side::Right => sense.right_spot_taken,
                };
                if taken {
                    self.chase_side = match self.chase_side {
                        Side::Left => Side::Right,
                        Side::Right => Side::Left,
                    };
                }
                target = Target::BesideCursor(self.chase_side);
            },
            Mode::Retreat => {
                target = Target::Bottom;
                if sense.at_bottom {
                    if sense.bottom_spot_taken {
                        self.mode = Mode::BottomWalk;
                        pick_wander = true;
                    } else {
                        self.mode = Mode::BottomIdle;
                        idle_timer = IdleTimer::Restart;
                    }
                }
            },
            Mode::BottomIdle => {
                target = Target::Bottom;
                seek = false;
                idle_timer = IdleTimer::Run;
                if sense.idle_elapsed {
                    self.mode = Mode::BottomWalk;
                    pick_wander = true;
                }
            },
            Mode::BottomWalk => {
                target = Target::WanderSpot;
                if sense.at_wander_target {
                    self.mode = Mode::BottomIdle;
                    idle_timer = IdleTimer::Restart;
                }
            },
        }
        Steer {
            target,
            seek,
            idle_timer,
            pick_wander,
            face_cursor: hovered || self.mode == Mode::Chase,
            gait: if self.mode == Mode::BottomWalk { Gait::Stroll } else { Gait::Brisk },
        }
    }
}

} // verus!
