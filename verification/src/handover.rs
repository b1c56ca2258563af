//! Laws on who has a key: fingers and wheels follow the keys that are held, at once.

use vstd::prelude::*;
use crate::buttons;
use crate::control;
use crate::engine::{self, Dirs, Model, SchedAct, WheelState};
use crate::fingers;
use crate::keymap::{KeyBind, Profile, Wheel};
use crate::layout::{self, BindPx, Layout, WheelPx};
use crate::reconcile;

verus! {

/// At its turn, the hold binding `i` is wanted but the device has no pointer left for it.
pub open spec fn hold_crowded<C>(m: Model<C>, p: Profile<C>, i: int) -> bool {
    &&& p.binds@[i].action is Hold
    &&& reconcile::wanted(m, p, p.binds@[i].key)
    &&& !fingers::slot(m.down, i)
    &&& !fingers::can_press(m.down, i, engine::reserved(m) as int)
}

/// Aligning bindings touches neither wheels nor aim nor the keys held, and only the fingers
/// of the bindings it went through.
pub proof fn binds_aligned_frame<C>(m: Model<C>, p: Profile<C>, ly: Layout, n: int)
    ensures
        reconcile::binds_aligned(m, p, ly, n).wheels == m.wheels,
        reconcile::binds_aligned(m, p, ly, n).held == m.held,
        reconcile::binds_aligned(m, p, ly, n).aim == m.aim,
        reconcile::binds_aligned(m, p, ly, n).sched == m.sched,
        forall|i: int|
            n <= i && 0 <= i ==> #[trigger] fingers::slot(
                reconcile::binds_aligned(m, p, ly, n).down,
                i,
            ) == fingers::slot(m.down, i),
    decreases n,
{
    if n > 0 {
        binds_aligned_frame(m, p, ly, n - 1);
        let m1 = reconcile::binds_aligned(m, p, ly, n - 1);
        let m2 = reconcile::binds_aligned(m, p, ly, n);
        assert forall|i: int| n <= i && 0 <= i implies #[trigger] fingers::slot(m2.down, i)
            == fingers::slot(m.down, i) by {
            assert(fingers::slot(m1.down, i) == fingers::slot(m.down, i));
            assert(fingers::slot(m2.down, i) == fingers::slot(m1.down, i));
        }
    }
}

/// After aligning, the finger of a hold binding is down exactly when its key is held, no wheel
/// has the key, and the device had a pointer left.
pub proof fn holds_follow_keys<C>(m: Model<C>, p: Profile<C>, ly: Layout, n: int, i: int)
    requires
        0 <= i < n <= p.binds@.len(),
        p.binds@[i].action is Hold,
    ensures
        fingers::slot(reconcile::binds_aligned(m, p, ly, n).down, i) == (reconcile::wanted(
            m,
            p,
            p.binds@[i].key,
        ) && !hold_crowded(reconcile::binds_aligned(m, p, ly, i), p, i)),
    decreases n,
{
    binds_aligned_frame(m, p, ly, n - 1);
    let m1 = reconcile::binds_aligned(m, p, ly, n - 1);
    if i < n - 1 {
        holds_follow_keys(m, p, ly, n - 1, i);
        let m2 = reconcile::bind_aligned(m1, p, ly, n - 1);
        assert(fingers::slot(m2.down, i) == fingers::slot(m1.down, i));
    } else {
        assert(fingers::slot(m1.down, i) == fingers::slot(m.down, i));
        assert(reconcile::wanted(m1, p, p.binds@[i].key) == reconcile::wanted(
            m,
            p,
            p.binds@[i].key,
        ));
    }
}

/// Aligning wheels touches no binding's finger and switches no wheel, and only the wheels it
/// went through.
pub proof fn wheels_aligned_frame<C>(m: Model<C>, p: Profile<C>, ly: Layout, n: int)
    ensures
        ({
            let m2 = reconcile::wheels_aligned(m, p, ly, n);
            &&& m2.wheels.len() == m.wheels.len()
            &&& m2.down == m.down
            &&& m2.held == m.held
            &&& m2.keys == m.keys
            &&& m2.sched == m.sched
            &&& forall|j: int|
                0 <= j < m.wheels.len() ==> (#[trigger] m2.wheels[j]).active == m.wheels[j].active
            &&& forall|j: int|
                0 <= j < m.wheels.len() && n <= j ==> (#[trigger] m2.wheels[j]) == m.wheels[j]
        }),
    decreases n,
{
    if n > 0 {
        wheels_aligned_frame(m, p, ly, n - 1);
    }
}

/// At its turn, wheel `j` has no pointer left for its finger.
pub open spec fn wheel_crowded<C>(m: Model<C>, p: Profile<C>, j: int) -> bool {
    reconcile::wheel_crowded_out(reconcile::wheel_read(m, p, j), j)
}

/// After aligning, a wheel's directions are those of its keys that are held while it is on;
/// its finger is down exactly when they push somewhere and the device had a pointer left, and
/// then it is where they push it.
pub proof fn wheels_follow_keys<C>(m: Model<C>, p: Profile<C>, ly: Layout, n: int, j: int)
    requires
        0 <= j < n <= p.wheels@.len(),
        j < m.wheels.len(),
    ensures
        ({
            let w = reconcile::wheels_aligned(m, p, ly, n).wheels[j];
            &&& w.pressed == reconcile::dirs_held(
                p.wheels@[j],
                m.held,
                reconcile::engaged(p.wheels@, m.wheels, j),
            )
            &&& w.down == (!reconcile::centred(w.pressed) && !wheel_crowded(
                reconcile::wheels_aligned(m, p, ly, j),
                p,
                j,
            ))
            &&& w.down ==> w.last == reconcile::push_target(ly.wheels@[j], w.pressed)
        }),
    decreases n,
{
    wheels_aligned_frame(m, p, ly, n - 1);
    let m1 = reconcile::wheels_aligned(m, p, ly, n - 1);
    if j < n - 1 {
        wheels_follow_keys(m, p, ly, n - 1, j);
    } else {
        assert(m1.wheels[j] == m.wheels[j]);
    }
}

/// Which keys wheels own depends on which wheels are on, and on nothing else of their state.
pub proof fn ownership_by_activity<C>(
    wheels: Seq<Wheel<C>>,
    a: Seq<WheelState>,
    b: Seq<WheelState>,
    code: u16,
)
    requires
        a.len() == b.len(),
        forall|j: int| 0 <= j < a.len() ==> (#[trigger] a[j]).active == b[j].active,
    ensures
        reconcile::owned(wheels, a, code) == reconcile::owned(wheels, b, code),
{
    assert forall|j: int| 0 <= j < wheels.len() implies #[trigger] reconcile::owns(
        wheels,
        a,
        j,
        code,
    ) == reconcile::owns(wheels, b, j, code) by {
        if j < a.len() {
            assert(a[j].active == b[j].active);
        }
    }
    if reconcile::owned(wheels, a, code) {
        let j = choose|j: int|
            0 <= j < wheels.len() && #[trigger] reconcile::owns(wheels, a, j, code);
        assert(reconcile::owns(wheels, b, j, code));
    }
    if reconcile::owned(wheels, b, code) {
        let j = choose|j: int|
            0 <= j < wheels.len() && #[trigger] reconcile::owns(wheels, b, j, code);
        assert(reconcile::owns(wheels, a, j, code));
    }
}

/// Once both sides are aligned, a hold binding has its finger down exactly when its key is
/// held and no wheel that is now on has it, unless the device had no pointer left. No key has
/// to be released and pressed again for that.
pub proof fn handover_is_immediate<C>(m: Model<C>, p: Profile<C>, ly: Layout, i: int)
    requires
        0 <= i < p.binds@.len(),
        p.binds@[i].action is Hold,
    ensures
        ({
            let m2 = buttons::realigned(m, p, ly);
            fingers::slot(m2.down, i) == (reconcile::wanted(m2, p, p.binds@[i].key)
                && !hold_crowded(reconcile::binds_aligned(m, p, ly, i), p, i))
        }),
{
    let nb = p.binds@.len() as int;
    let nw = p.wheels@.len() as int;
    holds_follow_keys(m, p, ly, nb, i);
    binds_aligned_frame(m, p, ly, nb);
    let m1 = reconcile::binds_aligned(m, p, ly, nb);
    wheels_aligned_frame(m1, p, ly, nw);
    let m2 = reconcile::wheels_aligned(m1, p, ly, nw);
    ownership_by_activity(p.wheels@, m2.wheels, m.wheels, p.binds@[i].key);
}

/// When the key of a temporary wheel changes its state, every hold binding follows at once:
/// those whose keys the wheel took are lifted, those whose keys it gave back and that are
/// still held go down.
pub proof fn switching_a_wheel_hands_over<C>(
    m: Model<C>,
    p: Profile<C>,
    ly: Layout,
    j: int,
    pressed: bool,
    i: int,
)
    requires
        0 <= j < p.wheels@.len(),
        j < m.wheels.len(),
        p.wheels@[j].temp is Some,
        buttons::should_be_on(p.wheels@[j].temp->0.mode, m.wheels[j].active, pressed)
            != m.wheels[j].active,
        0 <= i < p.binds@.len(),
        p.binds@[i].action is Hold,
    ensures
        ({
            let t = p.wheels@[j].temp->0;
            let m1 = if m.wheels[j].active {
                reconcile::wheel_off(m, j, ly.wheels@[j].center)
            } else {
                buttons::wheel_on(m, p, ly, j)
            };
            let m2 = buttons::wheel_switched(m, p, ly, j, t.key, pressed);
            &&& m2 == buttons::realigned(m1, p, ly)
            &&& fingers::slot(m2.down, i) == (reconcile::wanted(m2, p, p.binds@[i].key)
                && !hold_crowded(reconcile::binds_aligned(m1, p, ly, i), p, i))
        }),
{
    let m1 = if m.wheels[j].active {
        reconcile::wheel_off(m, j, ly.wheels@[j].center)
    } else {
        buttons::wheel_on(m, p, ly, j)
    };
    handover_is_immediate(m1, p, ly, i);
}

/// A hold lasts as long as its key: pressing the key puts one finger down, releasing it lifts
/// that finger at the same place, and nothing else is sent or stays behind.
pub proof fn a_hold_lasts_as_its_key<C>(
    m: Model<C>,
    b: KeyBind<C>,
    px: BindPx,
    i: int,
    pressed_at: u64,
    released_at: u64,
)
    requires
        0 <= i,
        b.action is Hold,
        !fingers::slot(m.down, i),
        fingers::can_press(m.down, i, engine::reserved(m) as int),
    ensures
        ({
            let m1 = buttons::bind_hit(m, b, px, i, true, pressed_at);
            let m2 = buttons::bind_hit(m1, b, px, i, false, released_at);
            &&& fingers::slot(m1.down, i)
            &&& m1.out == m.out.push(control::touch(control::ACTION_DOWN, engine::bind_id(i), px.at))
            &&& !fingers::slot(m2.down, i)
            &&& m2.out == m1.out.push(control::touch(control::ACTION_UP, engine::bind_id(i), px.at))
            &&& m2.sched == m.sched
        }),
{
}

/// A tap of length zero latches: the first press puts its finger down, releasing the key leaves
/// it there, and the next press lifts it.
pub proof fn a_latch_takes_two_presses<C>(
    m: Model<C>,
    b: KeyBind<C>,
    px: BindPx,
    i: int,
    first: u64,
    released: u64,
    second: u64,
)
    requires
        0 <= i,
        b.action is Tap && b.action->Tap_duration_ms == 0,
        !fingers::slot(m.down, i),
        fingers::can_press(m.down, i, engine::reserved(m) as int),
    ensures
        ({
            let m1 = buttons::bind_hit(m, b, px, i, true, first);
            let m2 = buttons::bind_hit(m1, b, px, i, false, released);
            let m3 = buttons::bind_hit(m2, b, px, i, true, second);
            &&& fingers::slot(m1.down, i)
            &&& m2 == m1
            &&& !fingers::slot(m3.down, i)
            &&& m3.out == m.out.push(
                control::touch(control::ACTION_DOWN, engine::bind_id(i), px.at),
            ).push(control::touch(control::ACTION_UP, engine::bind_id(i), px.at))
        }),
{
}

/// A wheel that is let go returns: its finger moves back to the centre and is lifted there.
pub proof fn a_wheel_returns<C>(m: Model<C>, j: int, px: WheelPx)
    requires
        0 <= j < m.wheels.len(),
        m.wheels[j].down,
        reconcile::centred(m.wheels[j].pressed),
    ensures
        ({
            let m1 = reconcile::wheel_pushed(m, j, px);
            &&& !m1.wheels[j].down
            &&& m1.out == m.out.push(
                control::touch(control::ACTION_MOVE, engine::wheel_id(j), px.center),
            ).push(control::touch(control::ACTION_UP, engine::wheel_id(j), px.center))
        }),
{
}

proof fn one_step(s: int, r: int)
    by (nonlinear_arith)
    requires
        -1 <= s <= 1,
    ensures
        s * r == (if s == 0 {
            0
        } else if s == 1 {
            r
        } else {
            -r
        }),
{
}

/// The four direction keys give eight directions: pushes that differ lead to places that
/// differ, and opposite keys together push nowhere.
pub proof fn eight_directions(px: WheelPx, a: Dirs, b: Dirs)
    requires
        layout::wheel_in_range(px),
        px.push > 0,
        px.diagonal > 0,
        !reconcile::centred(a),
    ensures
        reconcile::push_target(px, a) != px.center,
        reconcile::push_target(px, a) == reconcile::push_target(px, b) ==> reconcile::axis(
            a.left,
            a.right,
        ) == reconcile::axis(b.left, b.right) && reconcile::axis(a.up, a.down) == reconcile::axis(
            b.up,
            b.down,
        ),
        reconcile::centred((Dirs { up: true, down: true, left: true, right: true })),
{
    let (ax, ay) = (reconcile::axis(a.left, a.right), reconcile::axis(a.up, a.down));
    let (bx, by) = (reconcile::axis(b.left, b.right), reconcile::axis(b.up, b.down));
    let ra = if ax != 0 && ay != 0 {
        px.diagonal as int
    } else {
        px.push as int
    };
    let rb = if bx != 0 && by != 0 {
        px.diagonal as int
    } else {
        px.push as int
    };
    one_step(ax, ra);
    one_step(ay, ra);
    one_step(bx, rb);
    one_step(by, rb);
}

/// A tap that starts is scheduled to end, later than now.
pub proof fn taps_end<C>(
    m: Model<C>,
    i: int,
    code: u16,
    at: (i32, i32),
    duration_ms: u32,
    now: u64,
)
    requires
        0 <= i,
        now <= engine::LAST_CLOCK,
        fingers::slot(buttons::tapped(m, i, code, at, duration_ms, now).down, i),
    ensures
        ({
            let m2 = buttons::tapped(m, i, code, at, duration_ms, now);
            &&& m2.sched.len() > 0
            &&& m2.sched.last() == (
                buttons::tap_end(now, duration_ms),
                SchedAct::Up { pid: engine::bind_id(i), x: at.0, y: at.1 },
            )
            &&& buttons::tap_end(now, duration_ms) > now
        }),
{
}

proof fn step_order(ms: int, a: int, b: int, steps: int)
    by (nonlinear_arith)
    requires
        0 <= ms,
        0 <= a <= b <= steps,
        0 < steps,
    ensures
        0 <= (ms * a) / steps <= (ms * b) / steps <= ms,
{
}

/// A swipe runs in order of time and ends by lifting its finger after the last move.
pub proof fn swipes_run_in_order(pid: u64, px: BindPx, duration_ms: u32, now: u64)
    requires
        now <= engine::LAST_CLOCK,
    ensures
        ({
            let s = buttons::swipe_schedule(pid, px, duration_ms, now);
            &&& s.len() == px.eased@.len() + 1
            &&& forall|a: int, b: int| 0 <= a <= b < s.len() ==> (#[trigger] s[a]).0 <= (
            #[trigger] s[b]).0
            &&& forall|a: int| 0 <= a < s.len() - 1 ==> (#[trigger] s[a]).0 < s.last().0
            &&& s.last().1 == (SchedAct::Up {
                pid,
                x: px.path@.last().0,
                y: px.path@.last().1,
            })
        }),
{
    let s = buttons::swipe_schedule(pid, px, duration_ms, now);
    let steps = px.eased@.len() as int;
    assert forall|a: int, b: int| 0 <= a <= b < s.len() implies (#[trigger] s[a]).0 <= (
    #[trigger] s[b]).0 by {
        if b < steps {
            step_order(duration_ms as int, a + 1, b + 1, steps);
        } else if a < steps {
            step_order(duration_ms as int, a + 1, steps, steps);
        }
    }
    assert forall|a: int| 0 <= a < s.len() - 1 implies (#[trigger] s[a]).0 < s.last().0 by {
        step_order(duration_ms as int, a + 1, steps, steps);
    }
}

} // verus!
