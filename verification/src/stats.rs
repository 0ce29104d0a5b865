//! The system-status panel (CPU, memory, battery) that a right click on the pet
//! opens and closes.

use vstd::prelude::*;
use crate::animation::{elapsed, interval_elapsed};

verus! {

/// How often (milliseconds) an open panel gets fresh figures.
pub const STATS_REFRESH_INTERVAL_MS: u128 = 1000;

/// `BatteryFlag` value meaning that the machine has no battery.
pub const NO_BATTERY_FLAG: u8 = 128;

/// `BatteryLifePercent` value meaning that the charge is unknown.
pub const UNKNOWN_BATTERY_PERCENT: u8 = 255;

/// The state of the panel and of the right button that toggles it.
#[derive(Clone, Copy, PartialEq, Eq, Debug, Structural)]
pub struct StatsPanel {
    pub mouse_was_down_right: bool,
    /// A right press began on the pet and has not been released yet.
    pub right_press_active: bool,
    pub stats_open: bool,
    /// When the figures were last sent (0: send at once).
    pub last_stats_emit_ms: u128,
}

/// What the frame did to the panel's window.
#[derive(Clone, Copy, PartialEq, Eq, Debug, Structural)]
pub enum PanelChange {
    Unchanged,
    Shown,
    Hidden,
}

/// The panel after one frame's reading of the right button: a right press that
/// began on the pet toggles the panel when it is released.
pub open spec fn right_button_step(s: StatsPanel, down: bool, hovered: bool) -> (StatsPanel, PanelChange) {
    let active = if down && !s.mouse_was_down_right && hovered { true } else { s.right_press_active };
    if !down && s.mouse_was_down_right {
        if active {
            let open = !s.stats_open;
            (
                StatsPanel {
                    mouse_was_down_right: down,
                    right_press_active: false,
                    stats_open: open,
                    last_stats_emit_ms: if open { 0 } else { s.last_stats_emit_ms },
                },
                if open { PanelChange::Shown } else { PanelChange::Hidden },
            )
        } else {
            (StatsPanel { mouse_was_down_right: down, right_press_active: false, ..s }, PanelChange::Unchanged)
        }
    } else {
        (StatsPanel { mouse_was_down_right: down, right_press_active: active, ..s }, PanelChange::Unchanged)
    }
}

/// The panel's state after each frame of a run of right-button readings
/// (button down, pointer on the pet), and what each frame did to the panel.
pub open spec fn right_button_run(s: StatsPanel, ins: Seq<(bool, bool)>) -> Seq<(StatsPanel, PanelChange)>
    decreases ins.len(),
{
    if ins.len() == 0 {
        Seq::empty()
    } else {
        let o = right_button_step(s, ins[0].0, ins[0].1);
        seq![o] + right_button_run(o.0, ins.drop_first())
    }
}

impl StatsPanel {
    /// Closed, button up.
    pub fn new() -> (p: StatsPanel)
        ensures
            p == (StatsPanel {
                mouse_was_down_right: false,
                right_press_active: false,
                stats_open: false,
                last_stats_emit_ms: 0,
            }),
    {
        StatsPanel { mouse_was_down_right: false, right_press_active: false, stats_open: false, last_stats_emit_ms: 0 }
    }

    /// Takes the frame's right-button reading; `hovered` tells whether the
    /// pointer is on the pet. While the panel is open the pet holds still.
    pub fn on_right_button(&mut self, down: bool, hovered: bool) -> (change: PanelChange)
        ensures
            (*final(self), change) == right_button_step(*old(self), down, hovered),
    {
        if down && !self.mouse_was_down_right && hovered {
            self.right_press_active = true;
        }
        let mut change = PanelChange::Unchanged;
        if !down && self.mouse_was_down_right {
            if self.right_press_active {
                self.stats_open = !self.stats_open;
                if self.stats_open {
                    self.last_stats_emit_ms = 0;
                    change = PanelChange::Shown;
                } else {
                    change = PanelChange::Hidden;
                }
            }
            self.right_press_active = false;
        }
        self.mouse_was_down_right = down;
        change
    }

    /// Whether the pet is held still: as long as the panel is open.
    pub fn should_freeze(&self) -> (b: bool)
        ensures
            b == self.stats_open,
    {
        self.stats_open
    }

    /// Whether an open panel is due for fresh figures at `now_ms`; at most one
    /// refresh per `STATS_REFRESH_INTERVAL_MS`, a closed panel none.
    pub fn refresh_due(&mut self, now_ms: u128) -> (b: bool)
        ensures
            b == (old(self).stats_open && elapsed(now_ms, old(self).last_stats_emit_ms) >= STATS_REFRESH_INTERVAL_MS),
            *final(self) == (if b { StatsPanel { last_stats_emit_ms: now_ms, ..*old(self) } } else { *old(self) }),
    {
        if self.stats_open && interval_elapsed(now_ms, self.last_stats_emit_ms, STATS_REFRESH_INTERVAL_MS) {
            self.last_stats_emit_ms = now_ms;
            true
        } else {
            false
        }
    }
}

/// The fields of the system's power status that the panel reads.
#[derive(Clone, Copy, PartialEq, Eq, Debug, Structural)]
pub struct PowerStatus {
    pub ac_line_status: u8,
    pub battery_flag: u8,
    pub battery_life_percent: u8,
}

/// The battery charge (percent) and whether mains power is connected, from the
/// power status where it could be read. A machine without battery, an unknown
/// charge or an unreadable status gives neither.
pub fn power_reading(status: Option<PowerStatus>) -> (r: (Option<u8>, Option<bool>))
    ensures
        r == (match status {
            Some(s) => if s.battery_flag == NO_BATTERY_FLAG || s.battery_life_percent == UNKNOWN_BATTERY_PERCENT {
                (None, None)
            } else {
                (Some(s.battery_life_percent), Some(s.ac_line_status == 1))
            },
            None => (None, None),
        }),
{
    match status {
        Some(s) => {
            if s.battery_flag == NO_BATTERY_FLAG || s.battery_life_percent == UNKNOWN_BATTERY_PERCENT {
                (None, None)
            } else {
                (Some(s.battery_life_percent), Some(s.ac_line_status == 1))
            }
        },
        None => (None, None),
    }
}

} // verus!
