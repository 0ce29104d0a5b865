//! The sprite frame shown each frame, and the pace of periodic chores.

use vstd::prelude::*;

verus! {

/// Time (milliseconds) each walking frame stays on screen.
pub const ANIM_FRAME_INTERVAL_MS: u128 = 180;

/// How often (milliseconds) a resting pet announces where it rests.
pub const PUBLISH_INTERVAL_MS: u128 = 500;

/// A sprite frame.
#[derive(Clone, Copy, PartialEq, Eq, Debug, Structural)]
pub enum Frame {
    Idle,
    Walk1,
    Walk2,
    Walk3,
}

/// The walking cycle: walk1, walk2, walk3, walk2, and again.
pub open spec fn walk_cycle(i: int) -> Frame {
    if i == 0 {
        Frame::Walk1
    } else if i == 2 {
        Frame::Walk3
    } else {
        Frame::Walk2
    }
}

/// Milliseconds from `since` to `now`, 0 where the clock reads earlier.
pub open spec fn elapsed(now: u128, since: u128) -> int {
    if now >= since { now - since } else { 0 }
}

/// Whether at least `interval` milliseconds have passed from `since` to `now`.
pub fn interval_elapsed(now: u128, since: u128, interval: u128) -> (b: bool)
    ensures
        b == (elapsed(now, since) >= interval),
{
    let e: u128 = if now >= since { now - since } else { 0 };
    e >= interval
}

/// A paced chore at one frame: it fires when `may_run` holds and at least
/// `interval` milliseconds have passed since it last fired (`last`); the new
/// `last` and whether it fired.
pub open spec fn pace_step(last: u128, now: u128, may_run: bool, interval: u128) -> (u128, bool) {
    let fire = may_run && elapsed(now, last) >= interval;
    (if fire { now } else { last }, fire)
}

/// One frame of a paced chore: the clock, and whether the chore may run.
pub struct PaceTick {
    pub now: u128,
    pub may_run: bool,
}

/// After a run of frames: the chore's `last`, and the times at which it fired.
pub open spec fn pace_trace(last0: u128, ticks: Seq<PaceTick>, interval: u128) -> (u128, Seq<u128>)
    decreases ticks.len(),
{
    if ticks.len() == 0 {
        (last0, Seq::empty())
    } else {
        let (last, fires) = pace_trace(last0, ticks.drop_last(), interval);
        let t = ticks.last();
        let (next, fired) = pace_step(last, t.now, t.may_run, interval);
        (next, if fired { fires.push(t.now) } else { fires })
    }
}

/// The walking cycle at one frame: it moves once `ANIM_FRAME_INTERVAL_MS` has
/// passed, one step on while walking, back to its start otherwise.
pub open spec fn anim_step(index: int, last: u128, now: u128, walking: bool) -> (int, u128) {
    let (next, fired) = pace_step(last, now, true, ANIM_FRAME_INTERVAL_MS);
    (if fired { if walking { (index + 1) % 4 } else { 0 } } else { index }, next)
}

/// One frame of the animation: the clock, and whether the pet walks.
pub struct AnimTick {
    pub now: u128,
    pub walking: bool,
}

/// After a run of frames: the cycle's position, when it last moved, and how
/// many times it moved.
pub open spec fn anim_trace(index0: int, last0: u128, ticks: Seq<AnimTick>) -> (int, u128, nat)
    decreases ticks.len(),
{
    if ticks.len() == 0 {
        (index0, last0, 0)
    } else {
        let (i, l, c) = anim_trace(index0, last0, ticks.drop_last());
        let t = ticks.last();
        let (i2, l2) = anim_step(i, l, t.now, t.walking);
        (i2, l2, if pace_step(l, t.now, true, ANIM_FRAME_INTERVAL_MS).1 { c + 1 } else { c })
    }
}

impl Frame {
    pub open spec fn spec_name(self) -> Seq<char> {
        match self {
            Frame::Idle => "idle"@,
            Frame::Walk1 => "walk1"@,
            Frame::Walk2 => "walk2"@,
            Frame::Walk3 => "walk3"@,
        }
    }

    /// The sprite's name, as the front end knows it.
    pub fn name(self) -> (s: &'static str)
        ensures
            s@ == self.spec_name(),
    {
        match self {
            Frame::Idle => "idle",
            Frame::Walk1 => "walk1",
            Frame::Walk2 => "walk2",
            Frame::Walk3 => "walk3",
        }
    }
}

/// Where the walking cycle stands.
pub struct Animation {
    index: usize,
    last_ms: u128,
}

impl Animation {
    #[verifier::type_invariant]
    spec fn wf(self) -> bool {
        self.index < 4
    }

    /// Position in the walking cycle (0 ..= 3).
    pub closed spec fn index(self) -> int {
        self.index as int
    }

    /// When the cycle last moved.
    pub closed spec fn last_ms(self) -> u128 {
        self.last_ms
    }

    /// At the start of the cycle, last moved at `now_ms`.
    pub fn new(now_ms: u128) -> (a: Animation)
        ensures
            a.index() == 0,
            a.last_ms() == now_ms,
    {
        Animation { index: 0, last_ms: now_ms }
    }

    /// The frame to show at `now_ms`. Every `ANIM_FRAME_INTERVAL_MS` the cycle
    /// moves on one step while walking, and goes back to its start otherwise;
    /// a pet that is not walking shows the idle sprite.
    pub fn advance(&mut self, now_ms: u128, walking: bool) -> (f: Frame)
        ensures
            0 <= final(self).index() < 4,
            elapsed(now_ms, old(self).last_ms()) >= ANIM_FRAME_INTERVAL_MS ==> {
                &&& final(self).last_ms() == now_ms
                &&& final(self).index() == (if walking { (old(self).index() + 1) % 4 } else { 0 })
            },
            elapsed(now_ms, old(self).last_ms()) < ANIM_FRAME_INTERVAL_MS ==> *final(self) == *old(self),
            f == (if walking { walk_cycle(final(self).index()) } else { Frame::Idle }),
            (final(self).index(), final(self).last_ms()) == anim_step(old(self).index(), old(self).last_ms(), now_ms, walking),
    {
        proof {
            use_type_invariant(&*self);
        }
        if interval_elapsed(now_ms, self.last_ms, ANIM_FRAME_INTERVAL_MS) {
            let next = if walking { (self.index + 1) % 4 } else { 0 };
            self.index = next;
            self.last_ms = now_ms;
        }
        if walking {
            match self.index {
                0 => Frame::Walk1,
                2 => Frame::Walk3,
                _ => Frame::Walk2,
            }
        } else {
            Frame::Idle
        }
    }
}

/// When a resting pet last announced where it rests.
pub struct RestBeacon {
    pub last_ms: u128,
}

impl RestBeacon {
    /// Never announced yet.
    pub fn new() -> (b: RestBeacon)
        ensures
            b.last_ms == 0,
    {
        RestBeacon { last_ms: 0 }
    }

    /// Whether to announce the resting place now: only a pet that neither walks
    /// nor is dragged announces, at most once per `PUBLISH_INTERVAL_MS`.
    pub fn due(&mut self, now_ms: u128, walking: bool, dragging: bool) -> (b: bool)
        ensures
            b == (!walking && !dragging && elapsed(now_ms, old(self).last_ms) >= PUBLISH_INTERVAL_MS),
            final(self).last_ms == (if b { now_ms } else { old(self).last_ms }),
            (final(self).last_ms, b) == pace_step(old(self).last_ms, now_ms, !walking && !dragging, PUBLISH_INTERVAL_MS),
    {
        if !walking && !dragging && interval_elapsed(now_ms, self.last_ms, PUBLISH_INTERVAL_MS) {
            self.last_ms = now_ms;
            true
        } else {
            false
        }
    }
}

} // verus!
