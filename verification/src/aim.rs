//! Mouse look: a finger that the mouse drags away from an anchor.
//!
//! The device only knows fingers, the mouse only motions. Motions add up to an offset, the
//! finger is at the anchor plus the offset, and when it can go no further it is lifted and put
//! down at the anchor again. The offset is a number the rules do not look into: it is worked
//! out by the caller and handed in as a [`Drag`].

use vstd::prelude::*;
use crate::control::{self, ControlClient, ControlCmd};
use crate::engine::{self, AIM_PID, AimState, Engine, MS, Model, all_pointers};
use crate::fingers::DEVICE_MAX_POINTERS;
use crate::keymap::{Aim, Mapper, RecenterMode};

verus! {

/// Whether a mouse motion moves the finger: aiming is on, has an anchor, the mouse was not
/// handed back, and the button it may depend on is held.
pub open spec fn aim_ready<C>(aim: Aim<C>, st: AimState<C>) -> bool {
    aim.enabled && aim.anchor is Some && !st.released && (aim.hold_key == 0 || st.gate_down)
}

pub fn aim_active<C: Copy>(aim: &Aim<C>, st: &AimState<C>) -> (r: bool)
    ensures
        r == aim_ready(*aim, *st),
{
    aim.enabled && aim.anchor_set() && !st.released && (aim.hold_key == 0 || st.gate_down)
}

/// Whether the cursor is captured: mapping runs on a live channel, aiming captures, and it is
/// ready.
pub open spec fn captures<C>(aim: Aim<C>, st: AimState<C>, enabled: bool, connected: bool) -> bool {
    enabled && connected && aim.capture_mouse && aim_ready(aim, st)
}

pub fn wants_mouse<C: Copy>(
    aim: &Aim<C>,
    st: &AimState<C>,
    enabled: bool,
    connected: bool,
) -> (r: bool)
    ensures
        r == captures(*aim, *st, enabled, connected),
{
    enabled && connected && aim.enabled && aim.capture_mouse && aim.anchor_set() && (aim.hold_key
        == 0 || st.gate_down) && !st.released
}

/// A value moved into `0..=size - 1`, or to 0 where there is nothing to move it into.
pub open spec fn onto(v: i32, size: u32) -> i32 {
    if v < 0 || size == 0 {
        0i32
    } else if v > size - 1 {
        (size - 1) as i32
    } else {
        v
    }
}

fn onto_axis(v: i32, size: u32) -> (r: i32)
    requires
        size <= i32::MAX,
    ensures
        r == onto(v, size),
{
    let last: i32 = size as i32 - 1;
    if v < 0 || last < 0 {
        0
    } else if v > last {
        last
    } else {
        v
    }
}

/// The anchor on the current screen. It may have been chosen in another orientation; a touch
/// off the screen would be dropped, so it is moved onto it.
pub fn aim_anchor(m: &Mapper, raw: (i32, i32)) -> (r: (i32, i32))
    requires
        m.w <= i32::MAX,
        m.h <= i32::MAX,
    ensures
        r == (onto(raw.0, m.w), onto(raw.1, m.h)),
        m.w > 0 ==> 0 <= r.0 < m.w,
        m.h > 0 ==> 0 <= r.1 < m.h,
{
    (onto_axis(raw.0, m.w), onto_axis(raw.1, m.h))
}

/// One mouse motion worked out: the new offset, where it puts the finger, whether the screen
/// ended there, and whether the offset exceeds the threshold for returning.
pub struct Drag<C> {
    pub offset: (C, C),
    pub target: (i32, i32),
    pub hit_edge: bool,
    pub over_threshold: bool,
}

/// The offset that the next motion adds to: none when the anchor moved since the last one.
pub fn drag_base<C: Copy>(st: &AimState<C>, anchor: (i32, i32)) -> (r: Option<(C, C)>)
    ensures
        r == (if st.anchor_used == anchor {
            st.offset
        } else {
            None
        }),
{
    if st.anchor_used.0 == anchor.0 && st.anchor_used.1 == anchor.1 {
        st.offset
    } else {
        None
    }
}

/// The threshold in pixels beyond which the finger returns; at least one.
pub fn threshold_px<C>(aim: &Aim<C>) -> (r: i32)
    ensures
        r == (if aim.recenter_threshold < 1 {
            1i32
        } else {
            aim.recenter_threshold
        }),
{
    if aim.recenter_threshold < 1 {
        1
    } else {
        aim.recenter_threshold
    }
}

/// The aim finger is lifted where it is and the drag forgotten.
pub open spec fn lifted<C>(m: Model<C>) -> Model<C> {
    let m1 = if m.aim.down {
        engine::emit(m, control::touch(control::ACTION_UP, AIM_PID, m.aim.cur))
    } else {
        m
    };
    Model {
        aim: AimState {
            down: false,
            offset: None,
            last_motion: None,
            sent: if m.aim.down {
                m.aim.sent.wrapping_add(1)
            } else {
                m.aim.sent
            },
            ..m.aim
        },
        ..m1
    }
}

/// The drag is forgotten without a message, for lack of a channel to send it on.
pub open spec fn forgotten<C>(m: Model<C>) -> Model<C> {
    Model { aim: AimState { down: false, offset: None, last_motion: None, ..m.aim }, ..m }
}

/// The aim finger is lifted where it is and put down at the anchor again.
pub open spec fn recentred<C>(m: Model<C>, anchor: (i32, i32), now: u64) -> Model<C> {
    if !m.aim.down {
        Model { aim: AimState { offset: None, ..m.aim }, ..m }
    } else {
        let m1 = engine::emit(m, control::touch(control::ACTION_UP, AIM_PID, m.aim.cur));
        let m2 = engine::emit(m1, control::touch(control::ACTION_DOWN, AIM_PID, anchor));
        Model {
            aim: AimState {
                offset: None,
                cur: anchor,
                last_motion: Some(now),
                sent: m.aim.sent.wrapping_add(1).wrapping_add(1),
                ..m.aim
            },
            ..m2
        }
    }
}

/// Whether a motion is given up because the device has no pointer left.
pub open spec fn crowded_out<C>(m: Model<C>, aim: Aim<C>) -> bool {
    aim_ready(aim, m.aim) && !m.aim.down && engine::total(m) >= DEVICE_MAX_POINTERS
}

/// Whether this drag ends with a return to the anchor.
pub open spec fn goes_home<C>(aim: Aim<C>, d: Drag<C>) -> bool {
    ||| aim.recenter == RecenterMode::Threshold && d.over_threshold
    ||| d.hit_edge && aim.recenter != RecenterMode::Never
}

/// The drag that used another anchor is ended first.
pub open spec fn anchored<C>(m: Model<C>, anchor: (i32, i32)) -> Model<C> {
    if m.aim.anchor_used == anchor {
        m
    } else {
        let l = lifted(m);
        Model { aim: AimState { anchor_used: anchor, ..l.aim }, ..l }
    }
}

/// The finger goes to the target of the drag, down if it was not.
pub open spec fn dragged_to<C>(m: Model<C>, d: Drag<C>, now: u64) -> Model<C> {
    let action = if m.aim.down {
        control::ACTION_MOVE
    } else {
        control::ACTION_DOWN
    };
    let m1 = engine::emit(m, control::touch(action, AIM_PID, d.target));
    Model {
        aim: AimState {
            down: true,
            offset: Some(d.offset),
            cur: d.target,
            last_motion: Some(now),
            sent: m.aim.sent.wrapping_add(1),
            ..m.aim
        },
        ..m1
    }
}

/// The model after a mouse motion.
pub open spec fn dragged<C>(m: Model<C>, aim: Aim<C>, anchor: (i32, i32), d: Drag<C>, now: u64) -> Model<
    C,
> {
    if !aim_ready(aim, m.aim) || crowded_out(m, aim) {
        m
    } else {
        let m1 = dragged_to(anchored(m, anchor), d, now);
        if goes_home(aim, d) {
            recentred(m1, anchor, now)
        } else {
            m1
        }
    }
}

/// How long the mouse must rest, in milliseconds; at least 16.
pub open spec fn rest_ms<C>(aim: Aim<C>) -> u32 {
    if aim.recenter_idle_ms < 16 {
        16u32
    } else {
        aim.recenter_idle_ms
    }
}

/// Whether the mouse has rested long enough.
pub open spec fn rested<C>(aim: Aim<C>, st: AimState<C>, now: u64) -> bool {
    st.last_motion matches Some(t) && now >= t && (now - t) / (MS as int) >= rest_ms(aim)
}

/// The model after the regular look at the aim finger. `away` says whether the offset, if
/// there is one, is other than zero.
pub open spec fn ticked<C>(
    m: Model<C>,
    aim: Aim<C>,
    anchor: (i32, i32),
    enabled: bool,
    away: bool,
    now: u64,
) -> Model<C> {
    if !enabled || !aim_ready(aim, m.aim) {
        lifted(m)
    } else if m.aim.down && aim.recenter == RecenterMode::Idle && rested(aim, m.aim, now)
        && m.aim.offset is Some && away {
        recentred(m, anchor, now)
    } else {
        m
    }
}

pub(crate) fn aim_lift<C: Copy>(eng: &mut Engine<C>, ctl: &mut ControlClient)
    requires
        old(eng).wf(),
    ensures
        final(eng).wf(),
        engine::model(*final(eng), final(ctl)@) == lifted(engine::model(*old(eng), old(ctl)@)),
        final(ctl).same_link(*old(ctl)),
{
    assert(engine::sane(engine::model(*eng, Seq::empty())));
    if eng.aim.down {
        let (x, y) = eng.aim.cur;
        ctl.touch_up(AIM_PID, x, y);
        eng.aim.sent = eng.aim.sent.wrapping_add(1);
        eng.aim.down = false;
    }
    eng.aim.offset = None;
    eng.aim.last_motion = None;
}

pub(crate) fn aim_release_local<C: Copy>(eng: &mut Engine<C>)
    requires
        old(eng).wf(),
    ensures
        final(eng).wf(),
        forall|out: Seq<ControlCmd>| #[trigger]
            engine::model(*final(eng), out) == forgotten(engine::model(*old(eng), out)),
{
    assert(engine::sane(engine::model(*eng, Seq::empty())));
    eng.aim.down = false;
    eng.aim.offset = None;
    eng.aim.last_motion = None;
}

pub(crate) fn aim_recenter<C: Copy>(
    eng: &mut Engine<C>,
    ctl: &mut ControlClient,
    anchor: (i32, i32),
    now: u64,
)
    requires
        old(eng).wf(),
    ensures
        final(eng).wf(),
        engine::model(*final(eng), final(ctl)@) == recentred(
            engine::model(*old(eng), old(ctl)@),
            anchor,
            now,
        ),
        final(ctl).same_link(*old(ctl)),
{
    assert(engine::sane(engine::model(*eng, Seq::empty())));
    if !eng.aim.down {
        eng.aim.offset = None;
        return ;
    }
    let (cx, cy) = eng.aim.cur;
    ctl.touch_up(AIM_PID, cx, cy);
    eng.aim.sent = eng.aim.sent.wrapping_add(1);
    eng.aim.offset = None;
    ctl.touch_down(AIM_PID, anchor.0, anchor.1);
    eng.aim.sent = eng.aim.sent.wrapping_add(1);
    eng.aim.cur = anchor;
    eng.aim.last_motion = Some(now);
}

/// A mouse motion. True when the device had no pointer left for the finger.
pub(crate) fn aim_on_motion<C: Copy>(
    eng: &mut Engine<C>,
    ctl: &mut ControlClient,
    aim: &Aim<C>,
    anchor: (i32, i32),
    d: &Drag<C>,
    now: u64,
) -> (crowded: bool)
    requires
        old(eng).wf(),
    ensures
        final(eng).wf(),
        crowded == crowded_out(engine::model(*old(eng), old(ctl)@), *aim),
        engine::model(*final(eng), final(ctl)@) == dragged(
            engine::model(*old(eng), old(ctl)@),
            *aim,
            anchor,
            *d,
            now,
        ),
        final(ctl).same_link(*old(ctl)),
{
    if !aim_active(aim, &eng.aim) {
        return false;
    }
    let ghost m0 = engine::model(*eng, ctl@);
    assert(engine::sane(engine::model(*eng, Seq::empty())));
    if !eng.aim.down {
        let used: usize = all_pointers(eng);
        assert(used == engine::total(m0));
        if used >= DEVICE_MAX_POINTERS {
            return true;
        }
    }
    if eng.aim.anchor_used.0 != anchor.0 || eng.aim.anchor_used.1 != anchor.1 {
        aim_lift(eng, ctl);
        eng.aim.anchor_used = anchor;
    }
    assert(engine::model(*eng, ctl@) == anchored(m0, anchor));
    eng.aim.offset = Some(d.offset);
    eng.aim.last_motion = Some(now);
    if eng.aim.down {
        ctl.touch_move(AIM_PID, d.target.0, d.target.1);
    } else {
        ctl.touch_down(AIM_PID, d.target.0, d.target.1);
        eng.aim.down = true;
    }
    eng.aim.sent = eng.aim.sent.wrapping_add(1);
    eng.aim.cur = d.target;
    assert(engine::model(*eng, ctl@) == dragged_to(anchored(m0, anchor), *d, now));
    assert(engine::sane(engine::model(*eng, Seq::empty())));
    let threshold_hit: bool = aim.recenter == RecenterMode::Threshold && d.over_threshold;
    let edge_hit: bool = d.hit_edge && aim.recenter != RecenterMode::Never;
    if threshold_hit || edge_hit {
        aim_recenter(eng, ctl, anchor, now);
    }
    false
}

/// The regular look at the aim finger.
pub(crate) fn aim_tick<C: Copy>(
    eng: &mut Engine<C>,
    ctl: &mut ControlClient,
    aim: &Aim<C>,
    anchor: (i32, i32),
    enabled: bool,
    away: bool,
    now: u64,
)
    requires
        old(eng).wf(),
    ensures
        final(eng).wf(),
        engine::model(*final(eng), final(ctl)@) == ticked(
            engine::model(*old(eng), old(ctl)@),
            *aim,
            anchor,
            enabled,
            away,
            now,
        ),
        final(ctl).same_link(*old(ctl)),
{
    if !enabled || !aim_active(aim, &eng.aim) {
        aim_lift(eng, ctl);
        return ;
    }
    if !eng.aim.down || aim.recenter != RecenterMode::Idle {
        return ;
    }
    let idle: u64 = if aim.recenter_idle_ms < 16 {
        16
    } else {
        aim.recenter_idle_ms as u64
    };
    let paused: bool = match eng.aim.last_motion {
        Some(t) => now >= t && (now - t) / MS >= idle,
        None => false,
    };
    if paused && eng.aim.offset.is_some() && away {
        aim_recenter(eng, ctl, anchor, now);
    }
}

/// A place is moved onto the screen by as little as it takes: one that is on it stays, others go
/// to the nearest edge.
pub proof fn onto_the_nearest_pixel(v: i32, size: u32, other: int)
    requires
        1 <= size <= i32::MAX,
        0 <= other < size,
    ensures
        0 <= onto(v, size) < size,
        0 <= v < size ==> onto(v, size) == v,
        (if onto(v, size) < v {
            v - onto(v, size)
        } else {
            onto(v, size) - v
        }) <= (if other < v {
            v - other
        } else {
            other - v
        }),
{
}

/// The cursor is captured exactly when motions count, the mapping is on over a live channel, and
/// aiming is set to capture it.
pub proof fn when_the_cursor_is_captured<C>(
    a: Aim<C>,
    st: AimState<C>,
    enabled: bool,
    connected: bool,
)
    ensures
        captures(a, st, enabled, connected) <==> {
            &&& enabled && connected
            &&& a.enabled && a.capture_mouse && a.anchor is Some
            &&& a.hold_key == 0 || st.gate_down
            &&& !st.released
        },
        aim_ready(a, st) <==> {
            &&& a.enabled && a.anchor is Some
            &&& a.hold_key == 0 || st.gate_down
            &&& !st.released
        },
{
}

} // verus!
