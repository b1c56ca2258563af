//! What a key or mouse button does.
//!
//! In order: the switch for the whole mapping, the keys that switch temporary wheels, the
//! direction keys of wheels that are on, and last the bindings.

use vstd::prelude::*;
use crate::aim;
use crate::control::{self, ControlClient, ControlCmd};
use crate::engine::{
    self, Engine, LAST_CLOCK, MS, Model, SchedAct, Shared, WheelState, all_pointers, bind_pid,
    ctrl_alt_chord, is_alt, is_ctrl, lift_finger, press_finger, press_key, refuse, release_key,
};
use crate::fingers;
use crate::keymap::{Action, Aim, KeyBind, Profile, TempMode, Wheel};
use crate::layout::{BindPx, Layout};
use crate::reconcile::{
    self, deactivate_wheel, reconcile_binds, reconcile_wheels, release_conflicting_binds,
};
use crate::session::{self, release_all, sync_structures};

verus! {

// ---- bindings --------------------------------------------------------------------------

/// Whether a scheduled action lifts pointer `pid`.
pub open spec fn lifts(e: (u64, SchedAct), pid: u64) -> bool {
    e.1 matches SchedAct::Up { pid: p, .. } && p == pid
}

/// The schedule without the lifts of pointer `pid`; the rest keeps its order.
pub open spec fn without_lifts(s: Seq<(u64, SchedAct)>, pid: u64) -> Seq<(u64, SchedAct)> {
    s.filter(|e: (u64, SchedAct)| !lifts(e, pid))
}

/// Cancels the scheduled lifts of a pointer, so that they cannot end a newer press.
pub fn cancel_up_for(pid: u64, s: &mut Vec<(u64, SchedAct)>)
    ensures
        final(s)@ == without_lifts(old(s)@, pid),
{
    let ghost before = s@;
    let ghost keep = |e: (u64, SchedAct)| !lifts(e, pid);
    let mut kept: Vec<(u64, SchedAct)> = Vec::new();
    let n: usize = s.len();
    assert(before.take(0).filter(keep) =~= Seq::<(u64, SchedAct)>::empty()) by {
        reveal(Seq::filter);
    }
    for i in 0..n
        invariant
            n == s.len(),
            s@ == before,
            keep == (|e: (u64, SchedAct)| !lifts(e, pid)),
            kept@ == before.take(i as int).filter(keep),
    {
        let e = s[i];
        proof {
            assert(before.take(i + 1).drop_last() =~= before.take(i as int));
            assert(before.take(i + 1).last() == e);
            reveal(Seq::filter);
        }
        let drop: bool = match e.1 {
            SchedAct::Up { pid: p, .. } => p == pid,
            SchedAct::Move { .. } => false,
        };
        if !drop {
            kept.push(e);
        }
    }
    assert(before.take(n as int) =~= before);
    *s = kept;
}

/// When a tap of the given length ends; a tap is at least five milliseconds long.
pub open spec fn tap_end(now: u64, duration_ms: u32) -> u64 {
    (now + (if duration_ms < 5 {
        5int
    } else {
        duration_ms as int
    }) * MS) as u64
}

/// A tap key was pressed: a tap still running is ended at once, then a new one starts.
pub open spec fn tapped<C>(
    m: Model<C>,
    i: int,
    code: u16,
    at: (i32, i32),
    duration_ms: u32,
    now: u64,
) -> Model<C> {
    let m1 = if fingers::slot(m.down, i) {
        engine::finger_up(Model { sched: without_lifts(m.sched, engine::bind_id(i)), ..m }, i, at)
    } else {
        m
    };
    if fingers::can_press(m1.down, i, engine::reserved(m1) as int) {
        let m2 = engine::finger_down(m1, i, at);
        Model {
            sched: m2.sched.push(
                (
                    tap_end(now, duration_ms),
                    SchedAct::Up { pid: engine::bind_id(i), x: at.0, y: at.1 },
                ),
            ),
            ..m2
        }
    } else {
        engine::refused(m1, code)
    }
}

/// A latching tap key was pressed: down if it was up, up if it was down.
pub open spec fn latched<C>(m: Model<C>, i: int, code: u16, at: (i32, i32)) -> Model<C> {
    if fingers::slot(m.down, i) {
        engine::finger_up(m, i, at)
    } else {
        engine::try_press(m, i, code, at)
    }
}

/// When step `k` of `steps` of a swipe is due.
pub open spec fn step_time(now: u64, duration_ms: u32, k: int, steps: int) -> u64 {
    (now + (duration_ms * k / steps) * MS) as u64
}

/// The schedule of a swipe: a move for every step and a lift 20 milliseconds after the end.
pub open spec fn swipe_schedule(pid: u64, px: BindPx, duration_ms: u32, now: u64) -> Seq<
    (u64, SchedAct),
> {
    let steps = px.eased@.len();
    Seq::new(
        steps,
        |k: int|
            (
                step_time(now, duration_ms, k + 1, steps as int),
                SchedAct::Move { pid, x: px.eased@[k].0, y: px.eased@[k].1 },
            ),
    ).push(
        (
            (now + (duration_ms + 20) * MS) as u64,
            SchedAct::Up { pid, x: px.path@.last().0, y: px.path@.last().1 },
        ),
    )
}

/// A swipe key was pressed: the swipe starts unless it is running or no pointer is left.
pub open spec fn swiped<C>(
    m: Model<C>,
    i: int,
    code: u16,
    px: BindPx,
    duration_ms: u32,
    now: u64,
) -> Model<C> {
    if fingers::can_press(m.down, i, engine::reserved(m) as int) {
        let m1 = engine::finger_down(m, i, px.path@[0]);
        Model {
            sched: m1.sched + swipe_schedule(engine::bind_id(i), px, duration_ms, now),
            ..m1
        }
    } else {
        engine::refused(m, code)
    }
}

/// What an event on the key of binding `i` does to it.
pub open spec fn bind_hit<C>(m: Model<C>, b: KeyBind<C>, px: BindPx, i: int, pressed: bool, now: u64) -> Model<
    C,
> {
    match b.action {
        Action::Tap { duration_ms, .. } => if !pressed {
            m
        } else if duration_ms == 0 {
            latched(m, i, b.key, px.at)
        } else {
            tapped(m, i, b.key, px.at, duration_ms, now)
        },
        Action::Hold { .. } => if pressed {
            if fingers::slot(m.down, i) {
                m
            } else {
                engine::try_press(m, i, b.key, px.at)
            }
        } else {
            engine::finger_up(m, i, px.at)
        },
        Action::Swipe(s) => if pressed {
            swiped(m, i, b.key, px, s.duration_ms, now)
        } else {
            m
        },
        Action::AndroidKey { keycode } => if pressed {
            engine::key_down(m, keycode)
        } else {
            engine::key_up(m, keycode)
        },
    }
}

/// The first `n` bindings given an event on `code`.
pub open spec fn binds_hit<C>(
    m: Model<C>,
    p: Profile<C>,
    ly: Layout,
    code: u16,
    pressed: bool,
    now: u64,
    n: int,
) -> Model<C>
    decreases n,
{
    if n <= 0 {
        m
    } else {
        let m1 = binds_hit(m, p, ly, code, pressed, now, n - 1);
        if p.binds@[n - 1].key == code {
            bind_hit(m1, p.binds@[n - 1], ly.binds@[n - 1], n - 1, pressed, now)
        } else {
            m1
        }
    }
}

fn hit_tap<C: Copy>(
    eng: &mut Engine<C>,
    ctl: &mut ControlClient,
    i: usize,
    code: u16,
    at: (i32, i32),
    duration_ms: u32,
    now: u64,
)
    requires
        old(eng).wf(),
        i + 3000 < u64::MAX,
        i < usize::MAX,
        now <= LAST_CLOCK,
    ensures
        final(eng).wf(),
        engine::model(*final(eng), final(ctl)@) == (if duration_ms == 0 {
            latched(engine::model(*old(eng), old(ctl)@), i as int, code, at)
        } else {
            tapped(engine::model(*old(eng), old(ctl)@), i as int, code, at, duration_ms, now)
        }),
        final(ctl).same_link(*old(ctl)),
{
    let ghost m0 = engine::model(*eng, ctl@);
    if duration_ms == 0 {
        if eng.fingers.is_down(i) {
            lift_finger(eng, ctl, i, at);
        } else if !press_finger(eng, ctl, i, at) {
            refuse(&mut eng.live, code);
        }
    } else {
        if eng.fingers.is_down(i) {
            assert(engine::sane(engine::model(*eng, Seq::empty())));
            cancel_up_for(bind_pid(i), &mut eng.scheduled);
            lift_finger(eng, ctl, i, at);
        }
        if press_finger(eng, ctl, i, at) {
            let ms: u64 = if duration_ms < 5 {
                5
            } else {
                duration_ms as u64
            };
            assert(engine::sane(engine::model(*eng, Seq::empty())));
            eng.scheduled.push(
                (now + ms * MS, SchedAct::Up { pid: bind_pid(i), x: at.0, y: at.1 }),
            );
        } else {
            refuse(&mut eng.live, code);
        }
    }
}

/// Appends the schedule of a swipe.
fn schedule_swipe(s: &mut Vec<(u64, SchedAct)>, pid: u64, px: &BindPx, duration_ms: u32, now: u64)
    requires
        2 <= px.path@.len() <= u32::MAX,
        px.eased@.len() == px.path@.len() - 1,
        now <= LAST_CLOCK,
    ensures
        final(s)@ == old(s)@ + swipe_schedule(pid, *px, duration_ms, now),
{
    let ghost before = s@;
    let n: usize = px.eased.len();
    let steps: u64 = n as u64;
    let ghost plan = swipe_schedule(pid, *px, duration_ms, now);
    for k in 0..n
        invariant
            n == px.eased.len(),
            steps == n,
            1 <= n <= u32::MAX,
            now <= LAST_CLOCK,
            plan == swipe_schedule(pid, *px, duration_ms, now),
            s@ == before + plan.take(k as int),
    {
        let at = px.eased[k];
        let step: u64 = k as u64 + 1;
        assert(duration_ms * step <= 0xffff_ffff * 0xffff_ffff) by (nonlinear_arith)
            requires
                0 <= duration_ms <= 0xffff_ffff,
                0 <= step <= 0xffff_ffff,
        ;
        let ms: u64 = (duration_ms as u64) * step / steps;
        assert(ms <= duration_ms) by (nonlinear_arith)
            requires
                ms == (duration_ms as int * step as int) / (steps as int),
                1 <= step <= steps,
                0 <= duration_ms,
        ;
        let t: u64 = now + ms * MS;
        assert(t == step_time(now, duration_ms, k + 1, n as int));
        let e = (t, SchedAct::Move { pid, x: at.0, y: at.1 });
        assert(plan[k as int] == e);
        s.push(e);
        assert(s@ =~= before + plan.take(k + 1));
    }
    let end = px.path[px.path.len() - 1];
    s.push((now + (duration_ms as u64 + 20) * MS, SchedAct::Up { pid, x: end.0, y: end.1 }));
    assert(s@ =~= before + plan);
}

fn hit_swipe<C: Copy>(
    eng: &mut Engine<C>,
    ctl: &mut ControlClient,
    i: usize,
    code: u16,
    px: &BindPx,
    duration_ms: u32,
    now: u64,
)
    requires
        old(eng).wf(),
        i + 3000 < u64::MAX,
        i < usize::MAX,
        now <= LAST_CLOCK,
        2 <= px.path@.len() <= u32::MAX,
        px.eased@.len() == px.path@.len() - 1,
    ensures
        final(eng).wf(),
        engine::model(*final(eng), final(ctl)@) == swiped(
            engine::model(*old(eng), old(ctl)@),
            i as int,
            code,
            *px,
            duration_ms,
            now,
        ),
        final(ctl).same_link(*old(ctl)),
{
    let at = px.path[0];
    if press_finger(eng, ctl, i, at) {
        assert(engine::sane(engine::model(*eng, Seq::empty())));
        schedule_swipe(&mut eng.scheduled, bind_pid(i), px, duration_ms, now);
    } else {
        refuse(&mut eng.live, code);
    }
}

fn hit_bind<C: Copy>(
    eng: &mut Engine<C>,
    ctl: &mut ControlClient,
    b: KeyBind<C>,
    px: &BindPx,
    i: usize,
    pressed: bool,
    now: u64,
)
    requires
        old(eng).wf(),
        i + 3000 < u64::MAX,
        i < usize::MAX,
        now <= LAST_CLOCK,
        crate::layout::bind_in_range(b.action, *px),
    ensures
        final(eng).wf(),
        engine::model(*final(eng), final(ctl)@) == bind_hit(
            engine::model(*old(eng), old(ctl)@),
            b,
            *px,
            i as int,
            pressed,
            now,
        ),
        final(ctl).same_link(*old(ctl)),
{
    match b.action {
        Action::Tap { duration_ms, .. } => {
            if pressed {
                hit_tap(eng, ctl, i, b.key, px.at, duration_ms, now);
            }
        },
        Action::Hold { .. } => {
            if pressed {
                if !eng.fingers.is_down(i) {
                    if !press_finger(eng, ctl, i, px.at) {
                        refuse(&mut eng.live, b.key);
                    }
                }
            } else {
                lift_finger(eng, ctl, i, px.at);
            }
        },
        Action::Swipe(s) => {
            if pressed {
                hit_swipe(eng, ctl, i, b.key, px, s.duration_ms, now);
            }
        },
        Action::AndroidKey { keycode } => {
            if pressed {
                press_key(eng, ctl, keycode);
            } else {
                release_key(eng, ctl, keycode);
            }
        },
    }
}

fn hit_binds<C: Copy>(
    eng: &mut Engine<C>,
    ctl: &mut ControlClient,
    p: &Profile<C>,
    ly: &Layout,
    code: u16,
    pressed: bool,
    now: u64,
)
    requires
        old(eng).wf(),
        ly.fits(*p),
        now <= LAST_CLOCK,
    ensures
        final(eng).wf(),
        engine::model(*final(eng), final(ctl)@) == binds_hit(
            engine::model(*old(eng), old(ctl)@),
            *p,
            *ly,
            code,
            pressed,
            now,
            p.binds@.len() as int,
        ),
        final(ctl).same_link(*old(ctl)),
{
    let ghost m0 = engine::model(*eng, ctl@);
    let n: usize = p.binds.len();
    for i in 0..n
        invariant
            n == p.binds.len(),
            eng.wf(),
            ly.fits(*p),
            now <= LAST_CLOCK,
            engine::model(*eng, ctl@) == binds_hit(m0, *p, *ly, code, pressed, now, i as int),
            ctl.same_link(*old(ctl)),
    {
        let b = p.binds[i];
        if b.key == code {
            assert(crate::layout::bind_in_range(p.binds@[i as int].action, ly.binds@[i as int]));
            hit_bind(eng, ctl, b, &ly.binds[i], i, pressed, now);
        }
    }
}

// ---- temporary wheels ------------------------------------------------------------------

/// Whether a temporary wheel should be on after its key was pressed or released.
pub open spec fn should_be_on(mode: TempMode, active: bool, pressed: bool) -> bool {
    match mode {
        TempMode::Hold => pressed,
        TempMode::Toggle => if pressed {
            !active
        } else {
            active
        },
    }
}

/// Both sides brought in line with the keys held.
pub open spec fn realigned<C>(m: Model<C>, p: Profile<C>, ly: Layout) -> Model<C> {
    reconcile::wheels_aligned(
        reconcile::binds_aligned(m, p, ly, p.binds@.len() as int),
        p,
        ly,
        p.wheels@.len() as int,
    )
}

/// Wheel `j` switched on: colliding bindings give way.
pub open spec fn wheel_on<C>(m: Model<C>, p: Profile<C>, ly: Layout, j: int) -> Model<C> {
    reconcile::all_gave_way(
        Model {
            wheels: m.wheels.update(j, WheelState { active: true, ..m.wheels[j] }),
            ..m
        },
        p,
        ly,
        p.wheels@[j],
        p.binds@.len() as int,
    )
}

/// Wheel `j` given an event on `code`: if the key switches it and its state changes, keys
/// change hands at once.
pub open spec fn wheel_switched<C>(
    m: Model<C>,
    p: Profile<C>,
    ly: Layout,
    j: int,
    code: u16,
    pressed: bool,
) -> Model<C> {
    match p.wheels@[j].temp {
        Some(t) => if t.key == code && j < m.wheels.len() && should_be_on(
            t.mode,
            m.wheels[j].active,
            pressed,
        ) != m.wheels[j].active {
            let m1 = if m.wheels[j].active {
                reconcile::wheel_off(m, j, ly.wheels@[j].center)
            } else {
                wheel_on(m, p, ly, j)
            };
            realigned(m1, p, ly)
        } else {
            m
        },
        None => m,
    }
}

pub open spec fn wheels_switched<C>(
    m: Model<C>,
    p: Profile<C>,
    ly: Layout,
    code: u16,
    pressed: bool,
    n: int,
) -> Model<C>
    decreases n,
{
    if n <= 0 {
        m
    } else {
        wheel_switched(
            wheels_switched(m, p, ly, code, pressed, n - 1),
            p,
            ly,
            n - 1,
            code,
            pressed,
        )
    }
}

/// Whether `code` switches any wheel.
pub open spec fn switches_any<C>(wheels: Seq<Wheel<C>>, code: u16) -> bool {
    exists|j: int| 0 <= j < wheels.len() && reconcile::enables(#[trigger] wheels[j], code)
}

/// Whether `code` steers any wheel that is on.
pub open spec fn steers_any<C>(wheels: Seq<Wheel<C>>, st: Seq<WheelState>, code: u16) -> bool {
    exists|j: int|
        0 <= j < wheels.len() && reconcile::engaged(wheels, st, j) && (
        #[trigger] wheels[j]).steers(code)
}

pub(crate) fn realign<C: Copy>(
    eng: &mut Engine<C>,
    ctl: &mut ControlClient,
    p: &Profile<C>,
    ly: &Layout,
)
    requires
        old(eng).wf(),
        ly.fits(*p),
    ensures
        final(eng).wf(),
        engine::model(*final(eng), final(ctl)@) == realigned(
            engine::model(*old(eng), old(ctl)@),
            *p,
            *ly,
        ),
        final(ctl).same_link(*old(ctl)),
{
    reconcile_binds(eng, ctl, p, ly);
    reconcile_wheels(eng, ctl, p, ly);
}

fn switch_on<C: Copy>(
    eng: &mut Engine<C>,
    ctl: &mut ControlClient,
    p: &Profile<C>,
    ly: &Layout,
    j: usize,
)
    requires
        old(eng).wf(),
        ly.fits(*p),
        j < old(eng).wheels.len(),
        j < p.wheels.len(),
    ensures
        final(eng).wf(),
        engine::model(*final(eng), final(ctl)@) == wheel_on(
            engine::model(*old(eng), old(ctl)@),
            *p,
            *ly,
            j as int,
        ),
        final(ctl).same_link(*old(ctl)),
{
    let mut st = eng.wheels[j];
    st.active = true;
    assert(engine::sane(engine::model(*eng, Seq::empty())));
    proof {
        reconcile::downs_update(eng.wheels@, j as int, st);
    }
    eng.wheels[j] = st;
    let w = p.wheels[j];
    release_conflicting_binds(eng, ctl, p, ly, &w);
}

fn switch_wheel<C: Copy>(
    eng: &mut Engine<C>,
    ctl: &mut ControlClient,
    p: &Profile<C>,
    ly: &Layout,
    j: usize,
    code: u16,
    pressed: bool,
) -> (consumed: bool)
    requires
        old(eng).wf(),
        ly.fits(*p),
        j < p.wheels.len(),
    ensures
        final(eng).wf(),
        consumed == reconcile::enables(p.wheels@[j as int], code),
        engine::model(*final(eng), final(ctl)@) == wheel_switched(
            engine::model(*old(eng), old(ctl)@),
            *p,
            *ly,
            j as int,
            code,
            pressed,
        ),
        final(ctl).same_link(*old(ctl)),
{
    match p.wheels[j].temp {
        None => false,
        Some(t) => {
            if t.key != code {
                return false;
            }
            if j < eng.wheels.len() {
                let active: bool = eng.wheels[j].active;
                let want: bool = match t.mode {
                    TempMode::Hold => pressed,
                    TempMode::Toggle => if pressed {
                        !active
                    } else {
                        active
                    },
                };
                if want != active {
                    if want {
                        switch_on(eng, ctl, p, ly, j);
                    } else {
                        let at = ly.wheels[j].center;
                        deactivate_wheel(eng, ctl, j, at);
                    }
                    realign(eng, ctl, p, ly);
                }
            }
            true
        },
    }
}

fn switch_wheels<C: Copy>(
    eng: &mut Engine<C>,
    ctl: &mut ControlClient,
    p: &Profile<C>,
    ly: &Layout,
    code: u16,
    pressed: bool,
) -> (consumed: bool)
    requires
        old(eng).wf(),
        ly.fits(*p),
    ensures
        final(eng).wf(),
        consumed == switches_any(p.wheels@, code),
        engine::model(*final(eng), final(ctl)@) == wheels_switched(
            engine::model(*old(eng), old(ctl)@),
            *p,
            *ly,
            code,
            pressed,
            p.wheels@.len() as int,
        ),
        final(ctl).same_link(*old(ctl)),
{
    let ghost m0 = engine::model(*eng, ctl@);
    let n: usize = p.wheels.len();
    let mut consumed: bool = false;
    for j in 0..n
        invariant
            n == p.wheels.len(),
            eng.wf(),
            ly.fits(*p),
            consumed == exists|k: int|
                0 <= k < j && reconcile::enables(#[trigger] p.wheels@[k], code),
            engine::model(*eng, ctl@) == wheels_switched(m0, *p, *ly, code, pressed, j as int),
            ctl.same_link(*old(ctl)),
    {
        if switch_wheel(eng, ctl, p, ly, j, code, pressed) {
            assert(reconcile::enables(p.wheels@[j as int], code));
            consumed = true;
        }
    }
    consumed
}

fn steers_engaged<C>(p: &Profile<C>, wheels: &Vec<WheelState>, code: u16) -> (r: bool)
    ensures
        r == steers_any(p.wheels@, wheels@, code),
{
    let n: usize = p.wheels.len();
    for j in 0..n
        invariant
            n == p.wheels.len(),
            forall|k: int|
                0 <= k < j ==> !(reconcile::engaged(p.wheels@, wheels@, k) && (
                #[trigger] p.wheels@[k]).steers(code)),
    {
        let w = &p.wheels[j];
        let on: bool = w.temp.is_none() || (j < wheels.len() && wheels[j].active);
        if on && w.is_direction(code) {
            assert(p.wheels@[j as int].steers(code));
            return true;
        }
    }
    false
}

// ---- a key event -----------------------------------------------------------------------

/// The number of pointers published.
pub open spec fn counted<C>(m: Model<C>) -> Model<C> {
    Model { live: engine::EngineLive { pointers: engine::total(m) as usize, ..m.live }, ..m }
}

/// The engine following the profile, with both sides realigned if its shape changed.
pub open spec fn caught_up<C>(m: Model<C>, p: Profile<C>, ly: Layout) -> Model<C> {
    let m1 = session::followed(m, p, ly);
    if session::reshaped(m, p) {
        realigned(m1, p, ly)
    } else {
        m1
    }
}

/// A key event while mapping runs.
pub open spec fn mapped<C>(
    m: Model<C>,
    p: Profile<C>,
    ly: Layout,
    code: u16,
    pressed: bool,
    now: u64,
) -> Model<C> {
    let m1 = counted(caught_up(m, p, ly));
    if switches_any(p.wheels@, code) {
        wheels_switched(m1, p, ly, code, pressed, p.wheels@.len() as int)
    } else if steers_any(p.wheels@, m1.wheels, code) {
        reconcile::wheels_aligned(m1, p, ly, p.wheels@.len() as int)
    } else {
        counted(binds_hit(m1, p, ly, code, pressed, now, p.binds@.len() as int))
    }
}

/// What every key event does first: the aim button, Ctrl and Alt, the keys held.
pub open spec fn noted<C>(m: Model<C>, a: Aim<C>, code: u16, pressed: bool) -> Model<C> {
    let gate = if a.hold_key != 0 && code == a.hold_key {
        pressed
    } else {
        m.aim.gate_down
    };
    let ctrl = if engine::ctrl_code(code) {
        pressed
    } else {
        m.ctrl_down
    };
    let alt = if engine::alt_code(code) {
        pressed
    } else {
        m.alt_down
    };
    let flips = a.enabled && a.capture_mouse && a.anchor is Some && engine::chord(
        code,
        pressed,
        ctrl,
        alt,
    );
    Model {
        aim: engine::AimState {
            gate_down: gate,
            released: if flips {
                !m.aim.released
            } else {
                m.aim.released
            },
            ..m.aim
        },
        ctrl_down: ctrl,
        alt_down: alt,
        held: fingers::held_after(m.held, code, pressed),
        ..m
    }
}

/// Mapping switched on: the mouse is ours again, and keys already held take effect.
pub open spec fn switched_on<C>(m: Model<C>, connected: bool, p: Profile<C>, ly: Layout) -> Model<
    C,
> {
    let m1 = session::mouse_back(m);
    if connected {
        realigned(session::followed(m1, p, ly), p, ly)
    } else {
        m1
    }
}

/// The switch for the whole mapping was pressed.
pub open spec fn toggled<C>(m: Model<C>, sh: Shared<C>, ly: Layout) -> Model<C> {
    let m1 = if sh.enabled {
        session::switched_off(m, sh.control is Some, sh.profile, ly)
    } else {
        switched_on(m, session::online(sh.control), sh.profile, ly)
    };
    Model { toolbar_prev: m1.toolbar_prev && !sh.toolbar_release, ..m1 }
}

/// The model after a key event.
pub open spec fn button_done<C>(
    m: Model<C>,
    sh: Shared<C>,
    ly: Layout,
    code: u16,
    pressed: bool,
    now: u64,
) -> Model<C> {
    let m1 = noted(m, sh.profile.aim, code, pressed);
    if code == sh.profile.toggle_key && pressed {
        toggled(m1, sh, ly)
    } else if sh.enabled && session::online(sh.control) {
        mapped(m1, sh.profile, ly, code, pressed, now)
    } else {
        m1
    }
}

fn count_pointers<C: Copy>(eng: &mut Engine<C>)
    requires
        old(eng).wf(),
    ensures
        final(eng).wf(),
        forall|out: Seq<ControlCmd>| #[trigger]
            engine::model(*final(eng), out) == counted(engine::model(*old(eng), out)),
{
    let n: usize = all_pointers(eng);
    assert(engine::sane(engine::model(*eng, Seq::empty())));
    let ghost before = *eng;
    eng.live.pointers = n;
    assert forall|out: Seq<ControlCmd>| #[trigger]
        engine::model(*eng, out) == counted(engine::model(before, out)) by {
        assert(n == engine::total(engine::model(before, out)));
    }
}

fn map_event<C: Copy>(
    eng: &mut Engine<C>,
    ctl: &mut ControlClient,
    p: &Profile<C>,
    ly: &Layout,
    code: u16,
    pressed: bool,
    now: u64,
)
    requires
        old(eng).wf(),
        ly.fits(*p),
        now <= LAST_CLOCK,
    ensures
        final(eng).wf(),
        engine::model(*final(eng), final(ctl)@) == mapped(
            engine::model(*old(eng), old(ctl)@),
            *p,
            *ly,
            code,
            pressed,
            now,
        ),
        final(ctl).same_link(*old(ctl)),
{
    let ghost m0 = engine::model(*eng, ctl@);
    if sync_structures(eng, ctl, p, ly) {
        realign(eng, ctl, p, ly);
    }
    assert(engine::model(*eng, ctl@) == caught_up(m0, *p, *ly));
    count_pointers(eng);
    if switch_wheels(eng, ctl, p, ly, code, pressed) {
        return ;
    }
    assert(engine::model(*eng, ctl@) == counted(caught_up(m0, *p, *ly))) by {
        nothing_switched(counted(caught_up(m0, *p, *ly)), *p, *ly, code, pressed, p.wheels@.len() as int);
    }
    if steers_engaged(p, &eng.wheels, code) {
        reconcile_wheels(eng, ctl, p, ly);
        return ;
    }
    hit_binds(eng, ctl, p, ly, code, pressed, now);
    count_pointers(eng);
}

/// A key that switches no wheel leaves all wheels as they are.
proof fn nothing_switched<C>(
    m: Model<C>,
    p: Profile<C>,
    ly: Layout,
    code: u16,
    pressed: bool,
    n: int,
)
    requires
        n <= p.wheels@.len(),
        !switches_any(p.wheels@, code),
    ensures
        wheels_switched(m, p, ly, code, pressed, n) == m,
    decreases n,
{
    if n > 0 {
        nothing_switched(m, p, ly, code, pressed, n - 1);
        assert(!reconcile::enables(p.wheels@[n - 1], code));
    }
}

fn note_event<C: Copy>(eng: &mut Engine<C>, a: &Aim<C>, code: u16, pressed: bool)
    requires
        old(eng).wf(),
    ensures
        final(eng).wf(),
        forall|out: Seq<ControlCmd>| #[trigger]
            engine::model(*final(eng), out) == noted(
                engine::model(*old(eng), out),
                *a,
                code,
                pressed,
            ),
{
    assert(engine::sane(engine::model(*eng, Seq::empty())));
    if a.hold_key != 0 && code == a.hold_key {
        eng.aim.gate_down = pressed;
    }
    if is_ctrl(code) {
        eng.ctrl_down = pressed;
    } else if is_alt(code) {
        eng.alt_down = pressed;
    }
    let captured: bool = a.enabled && a.capture_mouse && a.anchor_set();
    if captured && ctrl_alt_chord(code, pressed, eng.ctrl_down, eng.alt_down) {
        eng.aim.released = !eng.aim.released;
    }
    eng.held.set(code, pressed);
}

fn switch_mapping<C: Copy>(eng: &mut Engine<C>, shared: &mut Shared<C>, ly: &Layout)
    requires
        old(eng).wf(),
        ly.fits(old(shared).profile),
    ensures
        final(eng).wf(),
        engine::model(*final(eng), session::queued(final(shared).control)) == toggled(
            engine::model(*old(eng), session::queued(old(shared).control)),
            *old(shared),
            *ly,
        ),
        session::same_channel(final(shared).control, old(shared).control),
        *final(shared) == (Shared {
            control: final(shared).control,
            enabled: !old(shared).enabled,
            toolbar_release: false,
            ..*old(shared)
        }),
{
    let was_on: bool = shared.enabled;
    shared.enabled = !was_on;
    let mut control = shared.control.take();
    if was_on {
        release_all(eng, &mut control, &shared.profile, ly);
    } else {
        assert(engine::sane(engine::model(*eng, Seq::empty())));
        eng.aim.released = false;
        match control.take() {
            Some(mut c) => {
                if c.is_connected() {
                    sync_structures(eng, &mut c, &shared.profile, ly);
                    realign(eng, &mut c, &shared.profile, ly);
                }
                control = Some(c);
            },
            None => {},
        }
    }
    shared.control = control;
    assert(engine::sane(engine::model(*eng, Seq::empty())));
    if shared.toolbar_release {
        shared.toolbar_release = false;
        eng.toolbar_prev = false;
    }
}

/// Handles a key or mouse button. True when the window should hear of it: on every press.
pub fn on_button<C: Copy>(
    eng: &mut Engine<C>,
    shared: &mut Shared<C>,
    ly: &Layout,
    code: u16,
    pressed: bool,
    now: u64,
) -> (tell_window: bool)
    requires
        old(eng).wf(),
        ly.fits(old(shared).profile),
        now <= LAST_CLOCK,
    ensures
        final(eng).wf(),
        tell_window == pressed,
        engine::model(*final(eng), session::queued(final(shared).control)) == button_done(
            engine::model(*old(eng), session::queued(old(shared).control)),
            *old(shared),
            *ly,
            code,
            pressed,
            now,
        ),
        session::same_channel(final(shared).control, old(shared).control),
        *final(shared) == (if code == old(shared).profile.toggle_key && pressed {
            Shared {
                control: final(shared).control,
                enabled: !old(shared).enabled,
                toolbar_release: false,
                ..*old(shared)
            }
        } else {
            Shared { control: final(shared).control, ..*old(shared) }
        }),
{
    let a = shared.profile.aim;
    note_event(eng, &a, code, pressed);
    if code == shared.profile.toggle_key && pressed {
        switch_mapping(eng, shared, ly);
        return pressed;
    }
    if shared.enabled {
        match shared.control.take() {
            Some(mut c) => {
                if c.is_connected() {
                    map_event(eng, &mut c, &shared.profile, ly, code, pressed, now);
                }
                shared.control = Some(c);
            },
            None => {},
        }
    }
    pressed
}

} // verus!
