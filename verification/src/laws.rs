//! Properties of the pet's behaviour that span several frames or several
//! functions, proved over the models the functions are specified by.

use vstd::prelude::*;
use crate::imaging::{picture_height, picture_width, png_decodes, raw_bytes, Origin};
use crate::motion::{pointer_step, steer_step, spot_taken, Gait, IdleTimer, Mode, Pet, Sense, Side, Steer, Target};
use crate::animation::{anim_step, anim_trace, pace_step, pace_trace, AnimTick, PaceTick, ANIM_FRAME_INTERVAL_MS, PUBLISH_INTERVAL_MS};
use crate::pointer::{becomes_drag, press_run, press_step, Press, PressEvent, PressInput, PressTracker, DRAG_HOLD_NS};
use crate::skin::{
    bundled, data_url_of, data_url_prefix, first_walk, identity_asset, loaded, no_custom_assets, present,
    scaled_side, skin_sources, tray_icon_of, tray_side, walk_count, Asset, SkinAssets, MAX_CUSTOM_IMAGE_DIM, TRAY_ICON_SIZE,
};
use crate::stats::{right_button_run, right_button_step, PanelChange, StatsPanel};

verus! {

// ------------------------------------------------------------------ skins

/// Without any custom sprite file, all five sprites are the bundled ones.
pub proof fn law_no_custom_files_bundled_skin(a: SkinAssets)
    requires
        no_custom_assets(a),
    ensures
        skin_sources(a).idle == bundled("idle"@),
        skin_sources(a).walk1 == bundled("walk1"@),
        skin_sources(a).walk2 == bundled("walk2"@),
        skin_sources(a).walk3 == bundled("walk3"@),
        skin_sources(a).drag == bundled("drag"@),
{
}

/// A custom idle file that loads is the idle sprite.
pub proof fn law_custom_idle_used(a: SkinAssets, url: Seq<char>)
    requires
        loaded(a.idle) == Some(url),
    ensures
        skin_sources(a).idle == url,
{
}

/// Without an idle file, the lowest-numbered walk file (where it loads) is the
/// idle sprite.
pub proof fn law_idle_from_first_walk(a: SkinAssets, url: Seq<char>)
    requires
        !present(a.idle),
        walk_count(a) > 0,
        loaded(first_walk(a)) == Some(url),
    ensures
        skin_sources(a).idle == url,
{
}

/// With only one or two walk files, every walk frame shows the same sprite,
/// the lowest-numbered walk file, so walking does not cycle.
pub proof fn law_partial_walks_do_not_cycle(a: SkinAssets)
    requires
        0 < walk_count(a) < 3,
    ensures
        skin_sources(a).walk1 == skin_sources(a).walk2,
        skin_sources(a).walk2 == skin_sources(a).walk3,
        loaded(first_walk(a)) matches Some(u) ==> skin_sources(a).walk1 == u,
{
}

/// With all three walk files, each walk frame uses its own file where it loads.
pub proof fn law_full_walks_each_used(a: SkinAssets, u1: Seq<char>, u2: Seq<char>, u3: Seq<char>)
    requires
        loaded(a.walk1) == Some(u1),
        loaded(a.walk2) == Some(u2),
        loaded(a.walk3) == Some(u3),
    ensures
        skin_sources(a).walk1 == u1,
        skin_sources(a).walk2 == u2,
        skin_sources(a).walk3 == u3,
{
}

/// With custom files but no walk file, walking shows the idle sprite.
pub proof fn law_no_walks_walk_as_idle(a: SkinAssets)
    requires
        !no_custom_assets(a),
        walk_count(a) == 0,
    ensures
        skin_sources(a).walk1 == skin_sources(a).idle,
        skin_sources(a).walk2 == skin_sources(a).idle,
        skin_sources(a).walk3 == skin_sources(a).idle,
{
}

/// A drag file that loads is the drag sprite; one that does not load falls back
/// to the bundled drag sprite; without a drag file (but with other custom
/// files), dragging shows the idle sprite.
pub proof fn law_drag_sprite(a: SkinAssets)
    ensures
        present(a.drag) && loaded(a.drag) is Some ==> skin_sources(a).drag == loaded(a.drag)->0,
        present(a.drag) && loaded(a.drag) is None ==> skin_sources(a).drag == bundled("drag"@),
        !no_custom_assets(a) && !present(a.drag) ==> skin_sources(a).drag == skin_sources(a).idle,
{
}

/// A custom file that does not load never makes the idle slot fail: it falls
/// back to the bundled idle sprite.
pub proof fn law_unloadable_idle_falls_back(a: SkinAssets)
    requires
        present(a.idle),
        loaded(a.idle) is None,
    ensures
        skin_sources(a).idle == bundled("idle"@),
{
}

/// Every data URL starts with the PNG data-URL header; a picture whose sides
/// are within the limit is sent as the very bytes of its file.
pub proof fn law_data_url_shape(bytes: Seq<u8>)
    ensures
        data_url_of(bytes) matches Some(u) ==> u.subrange(0, data_url_prefix().len() as int) == data_url_prefix(),
        png_decodes(bytes) ==> {
            let o = Origin::Png { bytes: bytes };
            picture_width(o) <= MAX_CUSTOM_IMAGE_DIM && picture_height(o) <= MAX_CUSTOM_IMAGE_DIM
                ==> data_url_of(bytes) == Some(data_url_prefix() + crate::imaging::base64_standard(bytes))
        },
{
    if data_url_of(bytes) is Some {
        let u = data_url_of(bytes)->0;
        assert(u.subrange(0, data_url_prefix().len() as int) =~= data_url_prefix());
    }
}

/// Scaling to a limit keeps the aspect: the longest side becomes exactly the
/// limit and no side exceeds it.
pub proof fn law_scaling_hits_limit(side: int, longest: int, limit: int)
    requires
        0 < longest,
        0 <= side <= longest,
        0 < limit,
    ensures
        scaled_side(longest, longest, limit) == limit,
        scaled_side(side, longest, limit) <= limit,
        0 <= scaled_side(side, longest, limit),
{
    assert((2 * (longest * limit) + longest) / (2 * longest) == limit) by (nonlinear_arith)
        requires 0 < longest, 0 < limit;
    assert((2 * (side * limit) + longest) / (2 * longest) <= limit) by (nonlinear_arith)
        requires 0 < longest, 0 <= side <= longest, 0 < limit;
    assert(0 <= (2 * (side * limit) + longest) / (2 * longest)) by (nonlinear_arith)
        requires 0 < longest, 0 <= side, 0 < limit;
}

/// The tray icon's picture has its longest side at exactly `TRAY_ICON_SIZE`
/// and both sides within 1 ..= `TRAY_ICON_SIZE`, so it sits centred on the
/// square canvas.
pub proof fn law_tray_icon_fills_square(side: u32, longest: u32)
    requires
        0 < longest,
        side <= longest,
    ensures
        tray_side(longest, longest) == TRAY_ICON_SIZE,
        1 <= tray_side(side, longest) <= TRAY_ICON_SIZE,
{
    law_scaling_hits_limit(longest as int, longest as int, TRAY_ICON_SIZE as int);
    law_scaling_hits_limit(side as int, longest as int, TRAY_ICON_SIZE as int);
}

/// The tray shows the custom idle file where there is one, else the
/// lowest-numbered walk file, and keeps its built-in icon without custom sprites.
pub proof fn law_tray_identity(a: SkinAssets)
    ensures
        present(a.idle) ==> identity_asset(a) == Some(Asset::Idle),
        !present(a.idle) && walk_count(a) == 0 ==> identity_asset(a) is None,
        !present(a.idle) && present(a.walk1) ==> identity_asset(a) == Some(Asset::Walk1),
{
}

// ------------------------------------------------------------------ pointer

/// A press that begins on the pet and is released before it turns into a
/// drag makes the pet jump.
pub proof fn law_click_makes_jump(t: PressTracker, down_ns: u64, x: i32, y: i32, up_ns: u64, x2: i32, y2: i32, hovered2: bool)
    requires
        !t.mouse_was_down,
        !t.dragging,
    ensures
        ({
            let (t1, e1) = press_step(t, true, true, down_ns, x, y);
            let (t2, e2) = press_step(t1, false, hovered2, up_ns, x2, y2);
            e1 == PressEvent::Nothing && e2 == PressEvent::Clicked && !t2.dragging && t2.press is None
        }),
{
    let p = Press { start_ns: down_ns, x: x, y: y };
    assert(!crate::pointer::moved_far(p, x, y)) by {
        assert((x - x) * (x - x) + (y - y) * (y - y) == 0) by (nonlinear_arith);
    }
    assert(!crate::pointer::becomes_drag(p, down_ns, x, y));
}

/// A press that begins off the pet neither drags nor clicks it.
pub proof fn law_press_off_pet_is_ignored(t: PressTracker, down_ns: u64, x: i32, y: i32, up_ns: u64, x2: i32, y2: i32, h2: bool)
    requires
        !t.mouse_was_down,
        !t.dragging,
        t.press is None,
    ensures
        ({
            let (t1, e1) = press_step(t, true, false, down_ns, x, y);
            let (t2, e2) = press_step(t1, false, h2, up_ns, x2, y2);
            e1 == PressEvent::Nothing && e2 == PressEvent::Nothing && !t1.dragging
        }),
{
}

/// A press held past `DRAG_HOLD_NS` becomes a drag, and its release ends the
/// drag without a jump.
pub proof fn law_long_press_drags_without_jump(t: PressTracker, p: Press, now_ns: u64, x: i32, y: i32, up_ns: u64, x2: i32, y2: i32, h2: bool)
    requires
        t.mouse_was_down,
        t.press == Some(p),
        !t.dragging,
        now_ns >= p.start_ns,
        now_ns - p.start_ns > DRAG_HOLD_NS,
    ensures
        ({
            let (t1, e1) = press_step(t, true, h2, now_ns, x, y);
            let (t2, e2) = press_step(t1, false, h2, up_ns, x2, y2);
            e1 == PressEvent::DragStarted && t1.dragging && e2 == PressEvent::DragEnded && !t2.dragging
        }),
{
}

/// One frame of a run, unfolded.
proof fn lemma_press_run_unfold(t: PressTracker, ins: Seq<PressInput>)
    requires
        ins.len() > 0,
    ensures
        press_run(t, ins) == seq![press_step(t, ins[0].down, ins[0].hovered, ins[0].now_ns, ins[0].x, ins[0].y)]
            + press_run(press_step(t, ins[0].down, ins[0].hovered, ins[0].now_ns, ins[0].x, ins[0].y).0, ins.drop_first()),
        press_run(t, ins).len() == ins.len(),
    decreases ins.len(),
{
    lemma_press_run_len(t, ins);
}

proof fn lemma_press_run_len(t: PressTracker, ins: Seq<PressInput>)
    ensures
        press_run(t, ins).len() == ins.len(),
    decreases ins.len(),
{
    if ins.len() > 0 {
        let i = ins[0];
        lemma_press_run_len(press_step(t, i.down, i.hovered, i.now_ns, i.x, i.y).0, ins.drop_first());
    }
}

/// A press in progress that stays short of a drag until the button is released
/// gives nothing until the release, and a jump then.
proof fn lemma_held_press_then_release(t: PressTracker, p: Press, ins: Seq<PressInput>)
    requires
        t.mouse_was_down,
        t.press == Some(p),
        !t.dragging,
        ins.len() >= 1,
        forall|i: int| 0 <= i < ins.len() - 1 ==> #[trigger] ins[i].down && !becomes_drag(p, ins[i].now_ns, ins[i].x, ins[i].y),
        !ins[ins.len() - 1].down,
    ensures
        press_run(t, ins).len() == ins.len(),
        forall|i: int| 0 <= i < ins.len() - 1 ==> #[trigger] press_run(t, ins)[i].1 == PressEvent::Nothing && !press_run(t, ins)[i].0.dragging,
        press_run(t, ins)[ins.len() - 1].1 == PressEvent::Clicked,
        !press_run(t, ins)[ins.len() - 1].0.dragging,
    decreases ins.len(),
{
    lemma_press_run_unfold(t, ins);
    let i0 = ins[0];
    let o = press_step(t, i0.down, i0.hovered, i0.now_ns, i0.x, i0.y);
    if ins.len() > 1 {
        let rest = ins.drop_first();
        assert forall|i: int| 0 <= i < rest.len() - 1 implies #[trigger] rest[i].down && !becomes_drag(p, rest[i].now_ns, rest[i].x, rest[i].y) by {
            assert(rest[i] == ins[i + 1]);
            assert(ins[i + 1].down);
        }
        lemma_held_press_then_release(o.0, p, rest);
        let r = press_run(t, ins);
        let rr = press_run(o.0, rest);
        assert forall|i: int| 0 <= i < ins.len() - 1 implies #[trigger] r[i].1 == PressEvent::Nothing && !r[i].0.dragging by {
            if i > 0 {
                assert(r[i] == rr[i - 1]);
            }
        }
        assert(r[ins.len() - 1] == rr[rest.len() - 1]);
    }
}

/// A press that begins on the pet and is released before it turns into a drag
/// makes the pet jump exactly once, on the release, whatever the number of
/// frames in between.
pub proof fn law_click_jumps_once(t: PressTracker, ins: Seq<PressInput>)
    requires
        !t.mouse_was_down,
        !t.dragging,
        ins.len() >= 2,
        ins[0].down,
        ins[0].hovered,
        forall|i: int| 1 <= i < ins.len() - 1 ==> #[trigger] ins[i].down && !becomes_drag(
            Press { start_ns: ins[0].now_ns, x: ins[0].x, y: ins[0].y },
            ins[i].now_ns,
            ins[i].x,
            ins[i].y,
        ),
        !ins[ins.len() - 1].down,
    ensures
        press_run(t, ins).len() == ins.len(),
        forall|i: int| 0 <= i < ins.len() - 1 ==> #[trigger] press_run(t, ins)[i].1 == PressEvent::Nothing && !press_run(t, ins)[i].0.dragging,
        press_run(t, ins)[ins.len() - 1].1 == PressEvent::Clicked,
{
    let p = Press { start_ns: ins[0].now_ns, x: ins[0].x, y: ins[0].y };
    lemma_press_run_unfold(t, ins);
    let i0 = ins[0];
    assert(!crate::pointer::moved_far(p, i0.x, i0.y)) by {
        assert((i0.x - i0.x) * (i0.x - i0.x) + (i0.y - i0.y) * (i0.y - i0.y) == 0) by (nonlinear_arith);
    }
    let o = press_step(t, i0.down, i0.hovered, i0.now_ns, i0.x, i0.y);
    assert(o.0.press == Some(p) && o.0.mouse_was_down && !o.0.dragging && o.1 == PressEvent::Nothing);
    let rest = ins.drop_first();
    assert forall|i: int| 0 <= i < rest.len() - 1 implies #[trigger] rest[i].down && !becomes_drag(p, rest[i].now_ns, rest[i].x, rest[i].y) by {
        assert(rest[i] == ins[i + 1]);
    }
    lemma_held_press_then_release(o.0, p, rest);
    let r = press_run(t, ins);
    let rr = press_run(o.0, rest);
    assert forall|i: int| 0 <= i < ins.len() - 1 implies #[trigger] r[i].1 == PressEvent::Nothing && !r[i].0.dragging by {
        if i > 0 {
            assert(r[i] == rr[i - 1]);
        }
    }
    assert(r[ins.len() - 1] == rr[rest.len() - 1]);
}

/// A drag in progress lasts as long as the button is held, and its release
/// ends it without a jump.
proof fn lemma_drag_held_then_release(t: PressTracker, ins: Seq<PressInput>)
    requires
        t.mouse_was_down,
        t.dragging,
        ins.len() >= 1,
        forall|i: int| 0 <= i < ins.len() - 1 ==> #[trigger] ins[i].down,
        !ins[ins.len() - 1].down,
    ensures
        press_run(t, ins).len() == ins.len(),
        forall|i: int| 0 <= i < ins.len() - 1 ==> #[trigger] press_run(t, ins)[i].1 == PressEvent::Nothing && press_run(t, ins)[i].0.dragging,
        press_run(t, ins)[ins.len() - 1].1 == PressEvent::DragEnded,
        !press_run(t, ins)[ins.len() - 1].0.dragging,
    decreases ins.len(),
{
    lemma_press_run_unfold(t, ins);
    let i0 = ins[0];
    let o = press_step(t, i0.down, i0.hovered, i0.now_ns, i0.x, i0.y);
    if ins.len() > 1 {
        let rest = ins.drop_first();
        assert forall|i: int| 0 <= i < rest.len() - 1 implies #[trigger] rest[i].down by {
            assert(rest[i] == ins[i + 1]);
        }
        lemma_drag_held_then_release(o.0, rest);
        let r = press_run(t, ins);
        let rr = press_run(o.0, rest);
        assert forall|i: int| 0 <= i < ins.len() - 1 implies #[trigger] r[i].1 == PressEvent::Nothing && r[i].0.dragging by {
            if i > 0 {
                assert(r[i] == rr[i - 1]);
            }
        }
        assert(r[ins.len() - 1] == rr[rest.len() - 1]);
    }
}

/// A press held too long or moved too far becomes a drag; the drag lasts as
/// long as the button is held and ends on the release, and no frame of it
/// makes the pet jump.
pub proof fn law_drag_lasts_until_release(t: PressTracker, p: Press, ins: Seq<PressInput>)
    requires
        t.mouse_was_down,
        t.press == Some(p),
        !t.dragging,
        ins.len() >= 2,
        ins[0].down,
        becomes_drag(p, ins[0].now_ns, ins[0].x, ins[0].y),
        forall|i: int| 1 <= i < ins.len() - 1 ==> #[trigger] ins[i].down,
        !ins[ins.len() - 1].down,
    ensures
        press_run(t, ins).len() == ins.len(),
        press_run(t, ins)[0].1 == PressEvent::DragStarted,
        forall|i: int| 0 <= i < ins.len() - 1 ==> #[trigger] press_run(t, ins)[i].0.dragging,
        forall|i: int| 1 <= i < ins.len() - 1 ==> #[trigger] press_run(t, ins)[i].1 == PressEvent::Nothing,
        press_run(t, ins)[ins.len() - 1].1 == PressEvent::DragEnded,
        !press_run(t, ins)[ins.len() - 1].0.dragging,
        forall|i: int| 0 <= i < ins.len() ==> #[trigger] press_run(t, ins)[i].1 != PressEvent::Clicked,
{
    lemma_press_run_unfold(t, ins);
    let i0 = ins[0];
    let o = press_step(t, i0.down, i0.hovered, i0.now_ns, i0.x, i0.y);
    assert(o.0.dragging && o.0.mouse_was_down && o.1 == PressEvent::DragStarted);
    let rest = ins.drop_first();
    assert forall|i: int| 0 <= i < rest.len() - 1 implies #[trigger] rest[i].down by {
        assert(rest[i] == ins[i + 1]);
    }
    lemma_drag_held_then_release(o.0, rest);
    let r = press_run(t, ins);
    let rr = press_run(o.0, rest);
    assert forall|i: int| 1 <= i < ins.len() implies #[trigger] r[i] == rr[i - 1] by {}
    assert(r[0] == o);
    assert forall|i: int| 0 <= i < ins.len() - 1 implies #[trigger] r[i].0.dragging by {
        if i > 0 {
            assert(r[i] == rr[i - 1]);
            assert(rr[i - 1].1 == PressEvent::Nothing);
        }
    }
    assert forall|i: int| 1 <= i < ins.len() - 1 implies #[trigger] r[i].1 == PressEvent::Nothing by {
        assert(r[i] == rr[i - 1]);
    }
    assert forall|i: int| 0 <= i < ins.len() implies #[trigger] r[i].1 != PressEvent::Clicked by {
        if i > 0 {
            assert(r[i] == rr[i - 1]);
        }
    }
    assert(r[ins.len() - 1] == rr[rest.len() - 1]);
}

// ------------------------------------------------------------------ pacing

/// A paced chore fires, over any run of frames whose clock does not go back, at
/// times at least `interval` apart, and its `last` is the time it last fired.
pub proof fn law_pace_spacing(last0: u128, ticks: Seq<PaceTick>, interval: u128)
    requires
        forall|i: int, j: int| 0 <= i < j < ticks.len() ==> #[trigger] ticks[i].now <= #[trigger] ticks[j].now,
    ensures
        ({
            let (last, fires) = pace_trace(last0, ticks, interval);
            &&& forall|i: int, j: int| 0 <= i < j < fires.len() ==> #[trigger] fires[i] + interval <= #[trigger] fires[j]
            &&& fires.len() > 0 ==> last == fires[fires.len() - 1]
            &&& ticks.len() > 0 ==> forall|i: int| 0 <= i < fires.len() ==> #[trigger] fires[i] <= ticks[ticks.len() - 1].now
        }),
    decreases ticks.len(),
{
    if ticks.len() > 0 {
        let pre = ticks.drop_last();
        assert forall|i: int, j: int| 0 <= i < j < pre.len() implies #[trigger] pre[i].now <= #[trigger] pre[j].now by {
            assert(pre[i] == ticks[i] && pre[j] == ticks[j]);
        }
        law_pace_spacing(last0, pre, interval);
        let (l0, f0) = pace_trace(last0, pre, interval);
        let t = ticks[ticks.len() - 1];
        let (l, f) = pace_trace(last0, ticks, interval);
        if pre.len() > 0 {
            assert(pre[pre.len() - 1] == ticks[ticks.len() - 2]);
            assert(pre[pre.len() - 1].now <= t.now);
        }
        assert forall|i: int| 0 <= i < f0.len() implies #[trigger] f0[i] <= t.now by {
            if pre.len() > 0 {
                assert(f0[i] <= pre[pre.len() - 1].now);
            }
        }
        if pace_step(l0, t.now, t.may_run, interval).1 {
            assert(f == f0.push(t.now));
            assert forall|i: int| 0 <= i < f0.len() implies #[trigger] f0[i] + interval <= t.now by {
                assert(l0 == f0[f0.len() - 1]);
                if i < f0.len() - 1 {
                    assert(f0[i] + interval <= f0[f0.len() - 1]);
                }
            }
            assert forall|i: int, j: int| 0 <= i < j < f.len() implies #[trigger] f[i] + interval <= #[trigger] f[j] by {
                assert(f[i] == f0[i]);
                if j < f0.len() {
                    assert(f[j] == f0[j]);
                } else {
                    assert(f[j] == t.now);
                }
            }
            assert forall|i: int| 0 <= i < f.len() implies #[trigger] f[i] <= ticks[ticks.len() - 1].now by {
                if i < f0.len() {
                    assert(f[i] == f0[i]);
                }
            }
        }
    }
}

/// Two announcements of the resting place are at least `PUBLISH_INTERVAL_MS`
/// apart, over any run of frames whose clock does not go back (a frame may
/// announce when the pet neither walks nor is dragged).
pub proof fn law_announcements_spaced(last0: u128, ticks: Seq<PaceTick>)
    requires
        forall|i: int, j: int| 0 <= i < j < ticks.len() ==> #[trigger] ticks[i].now <= #[trigger] ticks[j].now,
    ensures
        ({
            let fires = pace_trace(last0, ticks, PUBLISH_INTERVAL_MS).1;
            forall|i: int, j: int| 0 <= i < j < fires.len() ==> #[trigger] fires[i] + PUBLISH_INTERVAL_MS <= #[trigger] fires[j]
        }),
{
    law_pace_spacing(last0, ticks, PUBLISH_INTERVAL_MS);
}

pub open spec fn anim_pace_ticks(ticks: Seq<AnimTick>) -> Seq<PaceTick> {
    ticks.map_values(|t: AnimTick| PaceTick { now: t.now, may_run: true })
}

/// The walking cycle moves exactly when the chore "every
/// `ANIM_FRAME_INTERVAL_MS`" fires, so over any run of frames whose clock does
/// not go back its moves are at least that far apart.
pub proof fn law_walk_cycle_paced(index0: int, last0: u128, ticks: Seq<AnimTick>)
    requires
        forall|i: int, j: int| 0 <= i < j < ticks.len() ==> #[trigger] ticks[i].now <= #[trigger] ticks[j].now,
    ensures
        ({
            let (_, last, moves) = anim_trace(index0, last0, ticks);
            let (plast, fires) = pace_trace(last0, anim_pace_ticks(ticks), ANIM_FRAME_INTERVAL_MS);
            &&& last == plast
            &&& moves == fires.len()
            &&& forall|i: int, j: int| 0 <= i < j < fires.len() ==> #[trigger] fires[i] + ANIM_FRAME_INTERVAL_MS <= #[trigger] fires[j]
        }),
    decreases ticks.len(),
{
    let pt = anim_pace_ticks(ticks);
    assert forall|i: int, j: int| 0 <= i < j < pt.len() implies #[trigger] pt[i].now <= #[trigger] pt[j].now by {
        assert(pt[i].now == ticks[i].now && pt[j].now == ticks[j].now);
    }
    law_pace_spacing(last0, pt, ANIM_FRAME_INTERVAL_MS);
    if ticks.len() > 0 {
        let pre = ticks.drop_last();
        assert forall|i: int, j: int| 0 <= i < j < pre.len() implies #[trigger] pre[i].now <= #[trigger] pre[j].now by {
            assert(pre[i] == ticks[i] && pre[j] == ticks[j]);
        }
        law_walk_cycle_paced(index0, last0, pre);
        assert(anim_pace_ticks(pre) =~= pt.drop_last());
        assert(pt[pt.len() - 1].now == ticks[ticks.len() - 1].now);
    }
}

/// While the pet keeps walking, the cycle's position after a run of frames is
/// its start moved on by the number of times the cycle moved, so the frames
/// shown run walk1, walk2, walk3, walk2, walk1, ... from the start.
pub proof fn law_walk_cycle_order(index0: int, last0: u128, ticks: Seq<AnimTick>)
    requires
        0 <= index0 < 4,
        forall|i: int| 0 <= i < ticks.len() ==> #[trigger] ticks[i].walking,
    ensures
        anim_trace(index0, last0, ticks).0 == (index0 + anim_trace(index0, last0, ticks).2) % 4,
    decreases ticks.len(),
{
    if ticks.len() > 0 {
        let pre = ticks.drop_last();
        assert forall|i: int| 0 <= i < pre.len() implies #[trigger] pre[i].walking by {
            assert(pre[i] == ticks[i]);
        }
        law_walk_cycle_order(index0, last0, pre);
        let (i, l, c) = anim_trace(index0, last0, pre);
        assert(ticks[ticks.len() - 1].walking);
        assert(((index0 + c) % 4 + 1) % 4 == (index0 + c + 1) % 4) by (nonlinear_arith)
            requires 0 <= index0, 0 <= c;
    }
}

// ------------------------------------------------------------------ motion

/// A pet under the pointer, or held still by a panel, does not move on.
pub proof fn law_hover_or_freeze_stops(p: Pet, frozen: bool, now: u128, x: i32, y: i32, s: Sense)
    requires
        p.hovered || frozen,
    ensures
        !steer_step(p, frozen, now, x, y, s).1.seek,
        steer_step(p, frozen, now, x, y, s).1.target == Target::Here,
{
}

/// A released drag sends the pet back down to the bottom, unless the pointer is
/// near enough to start a chase again.
pub proof fn law_drop_returns_to_bottom(p: Pet, down: bool, h: bool, ns: u64, x: i32, y: i32, now: u128, s: Sense)
    requires
        pointer_step(p, h, down, ns, x, y).1.event == PressEvent::DragEnded,
        !h,
        !s.cursor_near,
    ensures
        ({
            let q = pointer_step(p, h, down, ns, x, y).0;
            q.mode == Mode::Retreat && steer_step(q, false, now, x, y, s).1.target == Target::Bottom
        }),
{
}

/// Away from the chase, the pointer coming near starts the chase again.
pub proof fn law_near_pointer_resumes_chase(p: Pet, frozen: bool, now: u128, x: i32, y: i32, s: Sense)
    requires
        p.mode != Mode::Chase,
        s.cursor_near,
    ensures
        steer_step(p, frozen, now, x, y, s).0.mode == Mode::Chase,
{
}

/// A chase is given up when, at a sampling point, the pointer has been flung
/// away; between sampling points it goes on.
pub proof fn law_fling_ends_chase(p: Pet, frozen: bool, now: u128, x: i32, y: i32, s: Sense)
    requires
        p.mode == Mode::Chase,
        s.escaping,
    ensures
        crate::motion::elapsed_ms(now, p.sample_ms) >= crate::motion::ESCAPE_SAMPLE_WINDOW_MS
            ==> steer_step(p, frozen, now, x, y, s).0.mode != Mode::Chase,
        crate::motion::elapsed_ms(now, p.sample_ms) < crate::motion::ESCAPE_SAMPLE_WINDOW_MS
            ==> steer_step(p, frozen, now, x, y, s).0.mode == Mode::Chase,
{
}

/// While chasing, the pet parks on a side of the pointer that no other pet
/// occupies, where one is free.
pub proof fn law_chase_side_avoids_others(p: Pet, now: u128, x: i32, y: i32, s: Sense)
    requires
        !p.hovered,
        p.mode == Mode::Chase,
        !s.escaping,
        !(s.left_spot_taken && s.right_spot_taken),
    ensures
        ({
            let (q, st) = steer_step(p, false, now, x, y, s);
            st.target == Target::BesideCursor(q.chase_side) && !crate::motion::spot_taken(s, q.chase_side)
        }),
{
}

/// At the bottom the pet alternates: the wait runs out, it strolls to a new
/// spot, arrives, and waits again for a freshly drawn time.
pub proof fn law_bottom_cycle(p: Pet, now: u128, x: i32, y: i32, s1: Sense, s2: Sense)
    requires
        p.mode == Mode::BottomIdle,
        !p.hovered,
        !s1.cursor_near,
        s1.idle_elapsed,
        !s2.cursor_near,
        s2.at_wander_target,
    ensures
        ({
            let (q, st1) = steer_step(p, false, now, x, y, s1);
            let (r, st2) = steer_step(q, false, now, x, y, s2);
            &&& q.mode == Mode::BottomWalk && st1.pick_wander
            &&& st1.gait == crate::motion::Gait::Stroll
            &&& r.mode == Mode::BottomIdle && st2.idle_timer == IdleTimer::Restart
        }),
{
}

/// Reaching the bottom, the pet settles there for a fresh wait, unless another
/// pet rests on that spot, in which case it strolls off to another.
pub proof fn law_retreat_settles(p: Pet, now: u128, x: i32, y: i32, s: Sense)
    requires
        p.mode == Mode::Retreat,
        !p.hovered,
        !s.cursor_near,
        s.at_bottom,
    ensures
        ({
            let (q, st) = steer_step(p, false, now, x, y, s);
            if s.bottom_spot_taken {
                q.mode == Mode::BottomWalk && st.pick_wander
            } else {
                q.mode == Mode::BottomIdle && st.idle_timer == IdleTimer::Restart
            }
        }),
{
}

// ------------------------------------------------------------------ panel

/// A right click on the pet (press on it, then release) opens a closed panel
/// and closes an open one; opening it asks for figures at once.
pub proof fn law_right_click_toggles_panel(s: StatsPanel, h2: bool)
    requires
        !s.mouse_was_down_right,
    ensures
        ({
            let (s1, c1) = right_button_step(s, true, true);
            let (s2, c2) = right_button_step(s1, false, h2);
            &&& c1 == PanelChange::Unchanged
            &&& s2.stats_open == !s.stats_open
            &&& c2 == (if s2.stats_open { PanelChange::Shown } else { PanelChange::Hidden })
            &&& s2.stats_open ==> s2.last_stats_emit_ms == 0
        }),
{
}

/// Two right clicks on the pet leave the panel as it was.
pub proof fn law_two_right_clicks_restore_panel(s: StatsPanel)
    requires
        !s.mouse_was_down_right,
    ensures
        ({
            let s1 = right_button_step(s, true, true).0;
            let s2 = right_button_step(s1, false, true).0;
            let s3 = right_button_step(s2, true, true).0;
            let s4 = right_button_step(s3, false, true).0;
            s4.stats_open == s.stats_open
        }),
{
}

/// A right press that begins off the pet leaves the panel as it is.
pub proof fn law_right_press_off_pet_ignored(s: StatsPanel, h2: bool)
    requires
        !s.mouse_was_down_right,
        !s.right_press_active,
    ensures
        ({
            let (s1, _) = right_button_step(s, true, false);
            let (s2, c2) = right_button_step(s1, false, h2);
            s2.stats_open == s.stats_open && c2 == PanelChange::Unchanged
        }),
{
}

// ------------------------------------------------------------------ more behaviour

/// A strolling pet that is free to move and has not arrived yet keeps heading
/// for its destination at the slow strolling pace, still strolling.
pub proof fn law_stroll_heads_for_destination(p: Pet, now: u128, x: i32, y: i32, s: Sense)
    requires
        p.mode == Mode::BottomWalk,
        !p.hovered,
        !s.cursor_near,
        !s.at_wander_target,
    ensures
        ({
            let (q, st) = steer_step(p, false, now, x, y, s);
            &&& st.target == Target::WanderSpot
            &&& st.seek
            &&& st.gait == Gait::Stroll
            &&& !st.pick_wander
            &&& st.idle_timer == IdleTimer::Keep
            &&& q.mode == Mode::BottomWalk
        }),
{
}

/// A pointer frame changes the pet's mode only when it ends a drag, which sends
/// the pet back to the bottom; a click, a press, a hover change or a drag start
/// leaves the mode as it was.
pub proof fn law_only_a_drop_changes_mode(p: Pet, h: bool, down: bool, ns: u64, x: i32, y: i32)
    ensures
        ({
            let (q, out) = pointer_step(p, h, down, ns, x, y);
            &&& out.event != PressEvent::DragEnded ==> q.mode == p.mode
            &&& out.event == PressEvent::DragEnded ==> q.mode == Mode::Retreat
            &&& q.chase_side == p.chase_side
            &&& q.hovered == h
        }),
{
}

/// When the chase resumes because the pointer came near, the pet parks on the
/// side of the pointer it comes from (left when it is left of or level with
/// the pointer), unless another pet occupies that spot.
pub proof fn law_resumed_chase_keeps_near_side(p: Pet, frozen: bool, now: u128, x: i32, y: i32, s: Sense)
    requires
        p.mode != Mode::Chase,
        s.cursor_near,
    ensures
        ({
            let near_side = if s.pet_left_of_cursor { Side::Left } else { Side::Right };
            let (q, st) = steer_step(p, frozen, now, x, y, s);
            &&& q.mode == Mode::Chase
            &&& (p.hovered || frozen || !spot_taken(s, near_side)) ==> q.chase_side == near_side
            &&& !(p.hovered || frozen) && !spot_taken(s, near_side) ==> st.target == Target::BesideCursor(near_side) && st.seek
        }),
{
}

proof fn lemma_right_run_unfold(s: StatsPanel, ins: Seq<(bool, bool)>)
    requires
        ins.len() > 0,
    ensures
        right_button_run(s, ins) == seq![right_button_step(s, ins[0].0, ins[0].1)]
            + right_button_run(right_button_step(s, ins[0].0, ins[0].1).0, ins.drop_first()),
        right_button_run(s, ins).len() == ins.len(),
{
    lemma_right_run_len(s, ins);
}

proof fn lemma_right_run_len(s: StatsPanel, ins: Seq<(bool, bool)>)
    ensures
        right_button_run(s, ins).len() == ins.len(),
    decreases ins.len(),
{
    if ins.len() > 0 {
        lemma_right_run_len(right_button_step(s, ins[0].0, ins[0].1).0, ins.drop_first());
    }
}

/// A right press in progress (begun on the pet) that is held for any number of
/// frames and then released changes nothing while held and toggles the panel on
/// the release.
proof fn lemma_right_press_held(s: StatsPanel, ins: Seq<(bool, bool)>)
    requires
        s.mouse_was_down_right,
        s.right_press_active,
        ins.len() >= 1,
        forall|i: int| 0 <= i < ins.len() - 1 ==> #[trigger] ins[i].0,
        !ins[ins.len() - 1].0,
    ensures
        right_button_run(s, ins).len() == ins.len(),
        forall|i: int| 0 <= i < ins.len() - 1 ==> #[trigger] right_button_run(s, ins)[i].1 == PanelChange::Unchanged
            && right_button_run(s, ins)[i].0.stats_open == s.stats_open
            && right_button_run(s, ins)[i].0.right_press_active
            && right_button_run(s, ins)[i].0.mouse_was_down_right,
        right_button_run(s, ins)[ins.len() - 1].0.stats_open == !s.stats_open,
        right_button_run(s, ins)[ins.len() - 1].1 == (if s.stats_open { PanelChange::Hidden } else { PanelChange::Shown }),
    decreases ins.len(),
{
    lemma_right_run_unfold(s, ins);
    let o = right_button_step(s, ins[0].0, ins[0].1);
    if ins.len() > 1 {
        let rest = ins.drop_first();
        assert forall|i: int| 0 <= i < rest.len() - 1 implies #[trigger] rest[i].0 by {
            assert(rest[i] == ins[i + 1]);
            assert(ins[i + 1].0);
        }
        assert(ins[0].0);
        lemma_right_press_held(o.0, rest);
        let r = right_button_run(s, ins);
        let rr = right_button_run(o.0, rest);
        assert forall|i: int| 0 <= i < ins.len() - 1 implies #[trigger] r[i].1 == PanelChange::Unchanged
            && r[i].0.stats_open == s.stats_open && r[i].0.right_press_active && r[i].0.mouse_was_down_right by {
            if i > 0 {
                assert(r[i] == rr[i - 1]);
                assert(rr[i - 1].1 == PanelChange::Unchanged);
            }
        }
        assert(r[ins.len() - 1] == rr[rest.len() - 1]);
    }
}

/// A right click on the pet, held for any number of frames, toggles the panel
/// exactly once, on the release: it opens a closed panel (`Shown`) and closes an
/// open one (`Hidden`), and the frames before leave it as it is.
pub proof fn law_right_click_toggles_once(s: StatsPanel, ins: Seq<(bool, bool)>)
    requires
        !s.mouse_was_down_right,
        ins.len() >= 2,
        ins[0].0,
        ins[0].1,
        forall|i: int| 1 <= i < ins.len() - 1 ==> #[trigger] ins[i].0,
        !ins[ins.len() - 1].0,
    ensures
        right_button_run(s, ins).len() == ins.len(),
        forall|i: int| 0 <= i < ins.len() - 1 ==> #[trigger] right_button_run(s, ins)[i].1 == PanelChange::Unchanged
            && right_button_run(s, ins)[i].0.stats_open == s.stats_open,
        right_button_run(s, ins)[ins.len() - 1].0.stats_open == !s.stats_open,
        right_button_run(s, ins)[ins.len() - 1].1 == (if s.stats_open { PanelChange::Hidden } else { PanelChange::Shown }),
{
    lemma_right_run_unfold(s, ins);
    let o = right_button_step(s, ins[0].0, ins[0].1);
    assert(o.0.mouse_was_down_right && o.0.right_press_active && o.0.stats_open == s.stats_open);
    assert(o.1 == PanelChange::Unchanged);
    let rest = ins.drop_first();
    assert forall|i: int| 0 <= i < rest.len() - 1 implies #[trigger] rest[i].0 by {
        assert(rest[i] == ins[i + 1]);
        assert(ins[i + 1].0);
    }
    lemma_right_press_held(o.0, rest);
    let r = right_button_run(s, ins);
    let rr = right_button_run(o.0, rest);
    assert(r[0] == o);
    assert forall|i: int| 0 <= i < ins.len() - 1 implies #[trigger] r[i].1 == PanelChange::Unchanged
        && r[i].0.stats_open == s.stats_open by {
        if i > 0 {
            assert(r[i] == rr[i - 1]);
            assert(rr[i - 1].1 == PanelChange::Unchanged);
        }
    }
    assert(r[ins.len() - 1] == rr[rest.len() - 1]);
}

/// The tray icon is the picture, scaled so that its longer side fills the
/// square and converted to RGBA, laid on a transparent square canvas with equal
/// margins on both sides (to within a pixel), horizontally and vertically.
pub proof fn law_tray_icon_centred(bytes: Seq<u8>)
    requires
        png_decodes(bytes),
        picture_width(Origin::Png { bytes: bytes }) > 0,
        picture_height(Origin::Png { bytes: bytes }) > 0,
    ensures
        exists|nw: u32, nh: u32, x: i64, y: i64| {
            &&& tray_icon_of(bytes) == Some(raw_bytes(Origin::Overlay {
                bottom: Box::new(Origin::Blank { width: TRAY_ICON_SIZE, height: TRAY_ICON_SIZE }),
                top: Box::new(Origin::Rgba8 {
                    source: Box::new(Origin::Resized { source: Box::new(Origin::Png { bytes: bytes }), width: nw, height: nh }),
                }),
                x: x,
                y: y,
            }))
            &&& 1 <= nw <= TRAY_ICON_SIZE && 1 <= nh <= TRAY_ICON_SIZE
            &&& nw == TRAY_ICON_SIZE || nh == TRAY_ICON_SIZE
            &&& 0 <= TRAY_ICON_SIZE - nw - 2 * x <= 1
            &&& 0 <= TRAY_ICON_SIZE - nh - 2 * y <= 1
        },
{
    let o = Origin::Png { bytes: bytes };
    let w = picture_width(o);
    let h = picture_height(o);
    let longest = crate::skin::max_u32(crate::skin::max_u32(w, h), 1);
    law_tray_icon_fills_square(w, longest);
    law_tray_icon_fills_square(h, longest);
    let nw = tray_side(w, longest);
    let nh = tray_side(h, longest);
    let x = ((TRAY_ICON_SIZE - nw) / 2) as i64;
    let y = ((TRAY_ICON_SIZE - nh) / 2) as i64;
    assert(nw == TRAY_ICON_SIZE || nh == TRAY_ICON_SIZE);
    assert(tray_icon_of(bytes) == Some(raw_bytes(Origin::Overlay {
        bottom: Box::new(Origin::Blank { width: TRAY_ICON_SIZE, height: TRAY_ICON_SIZE }),
        top: Box::new(Origin::Rgba8 {
            source: Box::new(Origin::Resized { source: Box::new(Origin::Png { bytes: bytes }), width: nw, height: nh }),
        }),
        x: x,
        y: y,
    })));
}

} // verus!
