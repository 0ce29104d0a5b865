use desktop_pet::animation::{interval_elapsed, Animation, Frame, RestBeacon};
use desktop_pet::input::{key_is_down, work_area_from_rect, WorkArea};
use desktop_pet::instances::{live_other_instances, InstanceRecord};
use desktop_pet::motion::{Gait, IdleTimer, Mode, Pet, Sense, Side, Target};
use desktop_pet::pointer::{PressEvent, PressTracker};
use desktop_pet::stats::{power_reading, PanelChange, PowerStatus, StatsPanel};
use desktop_pet::tray::toggle_visibility_plan;
use desktop_pet::util::{clock_since_epoch, millis_of, now_ms};

const MS: u64 = 1_000_000;

fn calm() -> Sense {
    Sense {
        cursor_near: false,
        pet_left_of_cursor: true,
        escaping: false,
        left_spot_taken: false,
        right_spot_taken: false,
        at_bottom: false,
        bottom_spot_taken: false,
        at_wander_target: false,
        idle_elapsed: false,
    }
}

#[test]
fn click_on_pet_jumps() {
    let mut t = PressTracker::new();
    assert_eq!(t.update(true, true, 10 * MS, 100, 100), PressEvent::Nothing);
    assert_eq!(t.update(true, true, 100 * MS, 102, 101), PressEvent::Nothing);
    assert_eq!(t.update(false, true, 120 * MS, 102, 101), PressEvent::Clicked);
    assert!(!t.dragging);
    assert_eq!(t.press, None);
}

#[test]
fn press_off_pet_does_nothing() {
    let mut t = PressTracker::new();
    assert_eq!(t.update(true, false, 0, 0, 0), PressEvent::Nothing);
    assert_eq!(t.update(true, true, 900 * MS, 50, 50), PressEvent::Nothing);
    assert_eq!(t.update(false, true, 901 * MS, 50, 50), PressEvent::Nothing);
}

#[test]
fn long_press_becomes_drag() {
    let mut t = PressTracker::new();
    t.update(true, true, 0, 10, 10);
    assert_eq!(t.update(true, true, 250 * MS, 10, 10), PressEvent::Nothing);
    assert_eq!(t.update(true, true, 250 * MS + 1, 10, 10), PressEvent::DragStarted);
    assert!(t.dragging);
    assert_eq!(t.update(true, false, 400 * MS, 500, 10), PressEvent::Nothing);
    assert_eq!(t.update(false, false, 401 * MS, 500, 10), PressEvent::DragEnded);
    assert!(!t.dragging);
}

#[test]
fn moving_press_becomes_drag() {
    let mut t = PressTracker::new();
    t.update(true, true, 0, 0, 0);
    assert_eq!(t.update(true, true, MS, 6, 0), PressEvent::Nothing);
    assert_eq!(t.update(true, true, MS, 0, -6), PressEvent::Nothing);
    assert_eq!(t.update(true, true, 2 * MS, 5, 4), PressEvent::DragStarted);
}

#[test]
fn far_apart_pointer_readings_do_not_overflow() {
    let mut t = PressTracker::new();
    t.update(true, true, 0, i32::MIN, i32::MIN);
    assert_eq!(t.update(true, true, 1, i32::MAX, i32::MAX), PressEvent::DragStarted);
}

#[test]
fn hover_changes_are_reported() {
    let mut p = Pet::new(true, 0, 0, 0);
    assert!(p.pointer(true, false, 0, 0, 0).hover_changed);
    assert!(p.hovered);
    assert!(!p.pointer(true, false, 1, 0, 0).hover_changed);
    assert!(p.pointer(false, false, 2, 0, 0).hover_changed);
}

#[test]
fn drop_sends_pet_down() {
    let mut p = Pet::new(false, 0, 0, 0);
    assert_eq!(p.chase_side, Side::Right);
    p.pointer(true, true, 0, 0, 0);
    assert_eq!(p.pointer(true, true, 300 * MS, 0, 0).event, PressEvent::DragStarted);
    assert!(p.dragging());
    let out = p.pointer(false, false, 301 * MS, 0, 0);
    assert_eq!(out.event, PressEvent::DragEnded);
    assert_eq!(p.mode, Mode::Retreat);
    let s = p.steer(false, 1000, 0, 0, calm());
    assert_eq!(s.target, Target::Bottom);
    assert!(s.seek);
    assert!(!s.face_cursor);
}

#[test]
fn hovered_pet_stops() {
    let mut p = Pet::new(true, 0, 0, 0);
    p.pointer(true, false, 0, 0, 0);
    let s = p.steer(false, 10, 0, 0, calm());
    assert_eq!(s.target, Target::Here);
    assert!(!s.seek);
    assert!(s.face_cursor);
}

#[test]
fn frozen_pet_stops() {
    let mut p = Pet::new(true, 0, 0, 0);
    let s = p.steer(true, 10, 0, 0, calm());
    assert_eq!(s.target, Target::Here);
    assert!(!s.seek);
    assert_eq!(s.idle_timer, IdleTimer::Keep);
}

#[test]
fn chase_parks_beside_pointer_and_avoids_others() {
    let mut p = Pet::new(true, 0, 0, 0);
    let s = p.steer(false, 10, 0, 0, calm());
    assert_eq!(s.target, Target::BesideCursor(Side::Left));
    assert!(s.seek && s.face_cursor);
    assert_eq!(s.gait, Gait::Brisk);
    let mut sense = calm();
    sense.left_spot_taken = true;
    let s = p.steer(false, 20, 0, 0, sense);
    assert_eq!(s.target, Target::BesideCursor(Side::Right));
    assert_eq!(p.chase_side, Side::Right);
    let s = p.steer(false, 30, 0, 0, calm());
    assert_eq!(s.target, Target::BesideCursor(Side::Right));
}

#[test]
fn escape_is_sampled_every_window() {
    let mut p = Pet::new(true, 0, 0, 1000);
    let mut sense = calm();
    sense.escaping = true;
    p.steer(false, 1119, 5, 5, sense);
    assert_eq!(p.mode, Mode::Chase);
    assert_eq!(p.sample_ms, 1000);
    p.steer(false, 1119, 5, 5, calm());
    p.steer(false, 1120, 7, 8, calm());
    assert_eq!((p.sample_x, p.sample_y, p.sample_ms), (7, 8, 1120));
    assert_eq!(p.mode, Mode::Chase);
    let s = p.steer(false, 1240, 9, 9, sense);
    assert_eq!(p.mode, Mode::Retreat);
    assert_eq!(s.target, Target::Bottom);
}

#[test]
fn near_pointer_resumes_chase_from_its_side() {
    let mut p = Pet::new(true, 0, 0, 0);
    p.mode = Mode::BottomWalk;
    let mut sense = calm();
    sense.cursor_near = true;
    sense.pet_left_of_cursor = false;
    let s = p.steer(false, 5, 0, 0, sense);
    assert_eq!(p.mode, Mode::Chase);
    assert_eq!(s.target, Target::BesideCursor(Side::Right));
}

#[test]
fn retreat_settles_or_moves_aside() {
    let mut p = Pet::new(true, 0, 0, 0);
    p.mode = Mode::Retreat;
    let mut sense = calm();
    sense.at_bottom = true;
    let s = p.steer(false, 0, 0, 0, sense);
    assert_eq!(p.mode, Mode::BottomIdle);
    assert_eq!(s.idle_timer, IdleTimer::Restart);
    assert!(!s.pick_wander);

    let mut q = Pet::new(true, 0, 0, 0);
    q.mode = Mode::Retreat;
    sense.bottom_spot_taken = true;
    let s = q.steer(false, 0, 0, 0, sense);
    assert_eq!(q.mode, Mode::BottomWalk);
    assert!(s.pick_wander);
    assert_eq!(s.gait, Gait::Stroll);
    assert_eq!(s.target, Target::Bottom);
}

#[test]
fn bottom_wait_and_stroll_alternate() {
    let mut p = Pet::new(true, 0, 0, 0);
    p.mode = Mode::BottomIdle;
    let s = p.steer(false, 0, 0, 0, calm());
    assert_eq!(s.idle_timer, IdleTimer::Run);
    assert!(!s.seek);
    assert_eq!(p.mode, Mode::BottomIdle);
    let mut sense = calm();
    sense.idle_elapsed = true;
    let s = p.steer(false, 0, 0, 0, sense);
    assert_eq!(p.mode, Mode::BottomWalk);
    assert!(s.pick_wander);
    let s = p.steer(false, 0, 0, 0, calm());
    assert_eq!(s.target, Target::WanderSpot);
    assert_eq!(s.gait, Gait::Stroll);
    let mut sense = calm();
    sense.at_wander_target = true;
    let s = p.steer(false, 0, 0, 0, sense);
    assert_eq!(p.mode, Mode::BottomIdle);
    assert_eq!(s.idle_timer, IdleTimer::Restart);
}

#[test]
fn walking_cycle_and_idle_frame() {
    let mut a = Animation::new(0);
    assert_eq!(a.advance(100, true), Frame::Walk1);
    assert_eq!(a.advance(180, true), Frame::Walk2);
    assert_eq!(a.advance(360, true), Frame::Walk3);
    assert_eq!(a.advance(540, true), Frame::Walk2);
    assert_eq!(a.advance(720, true), Frame::Walk1);
    assert_eq!(a.advance(800, false), Frame::Idle);
    assert_eq!(a.advance(900, true), Frame::Walk2);
    assert_eq!(a.advance(1100, false), Frame::Idle);
    assert_eq!(a.advance(1150, true), Frame::Walk1);
    assert_eq!(Frame::Walk3.name(), "walk3");
    assert_eq!(Frame::Idle.name(), "idle");
}

#[test]
fn resting_place_announced_at_most_every_half_second() {
    let mut b = RestBeacon::new();
    assert!(!b.due(1000, true, false));
    assert!(!b.due(1000, false, true));
    assert!(b.due(1000, false, false));
    assert!(!b.due(1499, false, false));
    assert!(b.due(1500, false, false));
    assert!(interval_elapsed(10, 5, 5));
    assert!(!interval_elapsed(5, 10, 1));
}

#[test]
fn right_click_toggles_stats_panel() {
    let mut s = StatsPanel::new();
    assert_eq!(s.on_right_button(true, true), PanelChange::Unchanged);
    assert!(!s.should_freeze());
    assert_eq!(s.on_right_button(false, false), PanelChange::Shown);
    assert!(s.should_freeze());
    assert!(s.refresh_due(5000));
    assert!(!s.refresh_due(5999));
    assert!(s.refresh_due(6000));
    assert_eq!(s.on_right_button(true, true), PanelChange::Unchanged);
    assert_eq!(s.on_right_button(false, true), PanelChange::Hidden);
    assert!(!s.should_freeze());
    assert!(!s.refresh_due(100_000));
    assert_eq!(s.on_right_button(true, false), PanelChange::Unchanged);
    assert_eq!(s.on_right_button(false, true), PanelChange::Unchanged);
    assert!(!s.stats_open);
}

#[test]
fn power_readings() {
    let st = |flag, pct, ac| Some(PowerStatus { ac_line_status: ac, battery_flag: flag, battery_life_percent: pct });
    assert_eq!(power_reading(None), (None, None));
    assert_eq!(power_reading(st(128, 50, 1)), (None, None));
    assert_eq!(power_reading(st(1, 255, 1)), (None, None));
    assert_eq!(power_reading(st(8, 73, 1)), (Some(73), Some(true)));
    assert_eq!(power_reading(st(0, 20, 0)), (Some(20), Some(false)));
}

#[test]
fn only_fresh_other_instances_count() {
    let recs = vec![
        InstanceRecord { pid: 7, updated_ms: 10_000 },
        InstanceRecord { pid: 8, updated_ms: 9_000 },
        InstanceRecord { pid: 9, updated_ms: 7_999 },
        InstanceRecord { pid: 10, updated_ms: 8_001 },
        InstanceRecord { pid: 11, updated_ms: 20_000 },
    ];
    assert_eq!(live_other_instances(&recs, 7, 10_000), vec![1, 3, 4]);
    assert_eq!(live_other_instances(&vec![], 7, 10_000), Vec::<usize>::new());
}

#[test]
fn key_state_high_bit() {
    assert!(key_is_down(i16::MIN));
    assert!(key_is_down(-1));
    assert!(!key_is_down(1));
    assert!(!key_is_down(0));
    assert!(!key_is_down(i16::MAX));
}

#[test]
fn work_area_size_from_edges() {
    assert_eq!(work_area_from_rect(-1920, 0, 0, 1040), WorkArea { x: -1920, y: 0, width: 1920, height: 1040 });
    assert_eq!(work_area_from_rect(i32::MIN, 0, i32::MAX, 0).width, u32::MAX as i64);
}

#[test]
fn tray_toggle_labels() {
    assert_eq!(toggle_visibility_plan(true), (false, "显示"));
    assert_eq!(toggle_visibility_plan(false), (true, "隐藏"));
}

#[test]
fn clock_reads_after_2020() {
    assert!(now_ms() > 1_577_836_800_000);
}

#[test]
fn millis_of_clock_readings() {
    assert_eq!(millis_of(None), 0);
    assert_eq!(millis_of(Some((2, 999_999_999))), 2999);
    assert_eq!(millis_of(Some((0, 1_000_000))), 1);
    assert_eq!(millis_of(Some((u64::MAX, 0))), u64::MAX as u128 * 1000);
    let r = clock_since_epoch().unwrap();
    assert!(r.1 < 1_000_000_000);
    assert!(r.0 > 1_577_836_800);
}

#[test]
fn long_click_sequence_jumps_once_on_release() {
    let mut t = PressTracker::new();
    let mut events = vec![t.update(true, true, 0, 40, 40)];
    for k in 1..20u64 {
        events.push(t.update(true, k % 2 == 0, k * 10 * MS, 40 + (k % 3) as i32, 40));
    }
    events.push(t.update(false, false, 200 * MS, 41, 40));
    assert_eq!(events.iter().filter(|e| **e == PressEvent::Clicked).count(), 1);
    assert_eq!(*events.last().unwrap(), PressEvent::Clicked);
}

#[test]
fn drag_lasts_until_release_without_jump() {
    let mut t = PressTracker::new();
    t.update(true, true, 0, 0, 0);
    let mut events = vec![];
    for k in 1..10u64 {
        events.push(t.update(true, false, k * 100 * MS, 0, 0));
        if k >= 3 {
            assert!(t.dragging);
        }
    }
    events.push(t.update(false, false, 2000 * MS, 0, 0));
    assert_eq!(events.iter().filter(|e| **e == PressEvent::DragStarted).count(), 1);
    assert_eq!(*events.last().unwrap(), PressEvent::DragEnded);
    assert!(!events.contains(&PressEvent::Clicked));
}
