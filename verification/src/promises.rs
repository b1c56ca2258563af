//! What the mapping promises to whoever plays: what each key, mouse motion and moment does, said
//! in fingers, places and times.

use vstd::prelude::*;
use crate::aim;
use crate::buttons;
use crate::control::{self, ControlCmd};
use crate::engine::{self, Model, SchedAct, Shared, WheelState};
use crate::fingers;
use crate::handover;
use crate::keymap::{Aim, Profile, RecenterMode, TempMode, Wheel};
use crate::laws;
use crate::layout::{self, Layout, WheelPx};
use crate::reconcile;
use crate::session;

verus! {

/// The mapping is on, over a live channel.
pub open spec fn runs<C>(sh: Shared<C>) -> bool {
    sh.enabled && sh.control is Some && sh.control->0.connected
}

/// The engine has followed the profile: there is state for each binding and wheel.
pub open spec fn settled<C>(m: Model<C>, p: Profile<C>) -> bool {
    &&& m.binds_sig == reconcile::binds_print(p.binds@)
    &&& m.wheel_sig == reconcile::wheels_print(p.wheels@)
    &&& m.wheels.len() == p.wheels@.len()
    &&& m.down.len() >= p.binds@.len()
}

/// The commands that concern one pointer, in order.
pub open spec fn for_pointer(out: Seq<ControlCmd>, pid: u64) -> Seq<ControlCmd> {
    out.filter(|c: ControlCmd| c is Touch && c->pointer_id == pid)
}

proof fn one_command(out: Seq<ControlCmd>, c: ControlCmd, pid: u64)
    ensures
        for_pointer(out.push(c), pid) == (if c is Touch && c->pointer_id == pid {
            for_pointer(out, pid).push(c)
        } else {
            for_pointer(out, pid)
        }),
{
    reveal(Seq::filter);
    assert(out.push(c).drop_last() =~= out);
}

/// What a key event comes down to while the mapping runs and nothing has to be followed.
proof fn running<C>(m: Model<C>, sh: Shared<C>, ly: Layout, code: u16, pressed: bool, now: u64)
    requires
        runs(sh),
        settled(m, sh.profile),
        !(code == sh.profile.toggle_key && pressed),
    ensures
        ({
            let p = sh.profile;
            let m1 = buttons::counted(buttons::noted(m, p.aim, code, pressed));
            let m2 = buttons::button_done(m, sh, ly, code, pressed, now);
            &&& settled(m1, p)
            &&& engine::total(m1) == engine::total(m)
            &&& m1 == (Model { live: m1.live, aim: m1.aim, ctrl_down: m1.ctrl_down, alt_down:
                m1.alt_down, held: m1.held, ..m })
            &&& m1.aim.down == m.aim.down
            &&& m1.held == (if pressed {
                m.held.insert(code)
            } else {
                m.held.remove(code)
            })
            &&& m2 == (if buttons::switches_any(p.wheels@, code) {
                buttons::wheels_switched(m1, p, ly, code, pressed, p.wheels@.len() as int)
            } else if buttons::steers_any(p.wheels@, m1.wheels, code) {
                reconcile::wheels_aligned(m1, p, ly, p.wheels@.len() as int)
            } else {
                buttons::counted(
                    buttons::binds_hit(m1, p, ly, code, pressed, now, p.binds@.len() as int),
                )
            })
        }),
{
    let p = sh.profile;
    let m0 = buttons::noted(m, p.aim, code, pressed);
    assert(session::followed(m0, p, ly) =~= m0);
    assert(buttons::caught_up(m0, p, ly) == m0);
}

// ---- temporary wheels ------------------------------------------------------------------

/// Aligning changes neither the keys held nor the shape that was followed nor which wheels are
/// on.
proof fn realigned_frame<C>(m: Model<C>, p: Profile<C>, ly: Layout)
    ensures
        ({
            let m2 = buttons::realigned(m, p, ly);
            &&& m2.held == m.held
            &&& m2.sched == m.sched
            &&& m2.binds_sig == m.binds_sig
            &&& m2.wheel_sig == m.wheel_sig
            &&& m2.wheels.len() == m.wheels.len()
            &&& m2.down.len() >= m.down.len()
            &&& forall|j: int|
                0 <= j < m.wheels.len() ==> (#[trigger] m2.wheels[j]).active == m.wheels[j].active
        }),
{
    let nb = p.binds@.len() as int;
    binds_aligned_rest(m, p, ly, nb);
    wheels_aligned_rest(reconcile::binds_aligned(m, p, ly, nb), p, ly, p.wheels@.len() as int);
}

proof fn binds_aligned_rest<C>(m: Model<C>, p: Profile<C>, ly: Layout, n: int)
    ensures
        ({
            let m2 = reconcile::binds_aligned(m, p, ly, n);
            &&& m2.held == m.held
            &&& m2.sched == m.sched
            &&& m2.binds_sig == m.binds_sig
            &&& m2.wheel_sig == m.wheel_sig
            &&& m2.wheels == m.wheels
            &&& m2.aim == m.aim
            &&& m2.down.len() >= m.down.len()
        }),
    decreases n,
{
    if n > 0 {
        binds_aligned_rest(m, p, ly, n - 1);
    }
}

proof fn wheels_aligned_rest<C>(m: Model<C>, p: Profile<C>, ly: Layout, n: int)
    ensures
        ({
            let m2 = reconcile::wheels_aligned(m, p, ly, n);
            &&& m2 == (Model { wheels: m2.wheels, live: m2.live, out: m2.out, ..m })
            &&& m2.wheels.len() == m.wheels.len()
            &&& forall|j: int|
                0 <= j < m.wheels.len() ==> (#[trigger] m2.wheels[j]).active == m.wheels[j].active
            &&& forall|j: int|
                n <= j < m.wheels.len() && 0 <= j ==> (#[trigger] m2.wheels[j]) == m.wheels[j]
        }),
    decreases n,
{
    if n > 0 {
        wheels_aligned_rest(m, p, ly, n - 1);
    }
}

proof fn gave_way_rest<C>(m: Model<C>, p: Profile<C>, ly: Layout, w: Wheel<C>, n: int)
    ensures
        ({
            let m2 = reconcile::all_gave_way(m, p, ly, w, n);
            &&& m2 == (Model { down: m2.down, keys: m2.keys, out: m2.out, ..m })
            &&& m2.down.len() == m.down.len()
        }),
    decreases n,
{
    if n > 0 {
        gave_way_rest(m, p, ly, w, n - 1);
    }
}

/// One wheel given an event on a key.
proof fn one_wheel_switched<C>(
    m: Model<C>,
    p: Profile<C>,
    ly: Layout,
    j: int,
    code: u16,
    pressed: bool,
)
    requires
        settled(m, p),
        0 <= j < p.wheels@.len(),
    ensures
        ({
            let m2 = buttons::wheel_switched(m, p, ly, j, code, pressed);
            &&& settled(m2, p)
            &&& m2.held == m.held
            &&& m2.sched == m.sched
            &&& m2.wheels[j].active == m.wheels[j].active ==> m2 == m
            &&& forall|k: int|
                0 <= k < m.wheels.len() && k != j ==> (#[trigger] m2.wheels[k]).active
                    == m.wheels[k].active
            &&& m2.wheels[j].active == (if p.wheels@[j].temp is Some && p.wheels@[j].temp->0.key
                == code {
                if p.wheels@[j].temp->0.mode == TempMode::Hold {
                    pressed
                } else {
                    m.wheels[j].active != pressed
                }
            } else {
                m.wheels[j].active
            })
        }),
{
    if m.wheels[j].active {
        realigned_frame(reconcile::wheel_off(m, j, ly.wheels@[j].center), p, ly);
    } else {
        let on = Model {
            wheels: m.wheels.update(j, WheelState { active: true, ..m.wheels[j] }),
            ..m
        };
        gave_way_rest(on, p, ly, p.wheels@[j], p.binds@.len() as int);
        realigned_frame(buttons::wheel_on(m, p, ly, j), p, ly);
    }
}

proof fn all_wheels_switched<C>(
    m: Model<C>,
    p: Profile<C>,
    ly: Layout,
    code: u16,
    pressed: bool,
    n: int,
)
    requires
        settled(m, p),
        0 <= n <= p.wheels@.len(),
    ensures
        ({
            let m2 = buttons::wheels_switched(m, p, ly, code, pressed, n);
            &&& settled(m2, p)
            &&& m2.held == m.held
            &&& m2.sched == m.sched
            &&& forall|j: int|
                0 <= j < m.wheels.len() ==> (#[trigger] m2.wheels[j]).active == (if j < n
                    && p.wheels@[j].temp is Some && p.wheels@[j].temp->0.key == code {
                    if p.wheels@[j].temp->0.mode == TempMode::Hold {
                        pressed
                    } else {
                        m.wheels[j].active != pressed
                    }
                } else {
                    m.wheels[j].active
                })
        }),
    decreases n,
{
    if n > 0 {
        all_wheels_switched(m, p, ly, code, pressed, n - 1);
        one_wheel_switched(
            buttons::wheels_switched(m, p, ly, code, pressed, n - 1),
            p,
            ly,
            n - 1,
            code,
            pressed,
        );
    }
}

proof fn binds_hit_rest<C>(
    m: Model<C>,
    p: Profile<C>,
    ly: Layout,
    code: u16,
    pressed: bool,
    now: u64,
    n: int,
)
    ensures
        ({
            let m2 = buttons::binds_hit(m, p, ly, code, pressed, now, n);
            &&& m2 == (Model {
                down: m2.down,
                keys: m2.keys,
                live: m2.live,
                sched: m2.sched,
                out: m2.out,
                ..m
            })
            &&& m2.down.len() >= m.down.len()
        }),
    decreases n,
{
    if n > 0 {
        binds_hit_rest(m, p, ly, code, pressed, now, n - 1);
    }
}

/// A temporary wheel obeys its key. In hold mode it is on exactly while the key is held: a press
/// switches it on, a release off. In toggle mode a press turns it over and a release leaves it.
/// Every other key leaves it as it was, and so do wheels that are always on.
pub proof fn a_wheel_obeys_its_key<C>(
    m: Model<C>,
    sh: Shared<C>,
    ly: Layout,
    code: u16,
    pressed: bool,
    now: u64,
    j: int,
)
    requires
        runs(sh),
        settled(m, sh.profile),
        !(code == sh.profile.toggle_key && pressed),
        0 <= j < sh.profile.wheels@.len(),
    ensures
        ({
            let w = sh.profile.wheels@[j];
            let before = m.wheels[j].active;
            let m2 = buttons::button_done(m, sh, ly, code, pressed, now);
            let after = m2.wheels[j].active;
            let its_key = w.temp is Some && w.temp->0.key == code;
            &&& settled(m2, sh.profile)
            &&& its_key && w.temp->0.mode == TempMode::Hold ==> after == pressed
            &&& its_key && w.temp->0.mode == TempMode::Toggle && pressed ==> after == !before
            &&& its_key && w.temp->0.mode == TempMode::Toggle && !pressed ==> after == before
            &&& !its_key ==> after == before
            &&& m2.held.contains(code) == pressed
            &&& forall|other: u16|
                other != code ==> #[trigger] m2.held.contains(other) == m.held.contains(other)
        }),
{
    running(m, sh, ly, code, pressed, now);
    let p = sh.profile;
    let m1 = buttons::counted(buttons::noted(m, p.aim, code, pressed));
    let nw = p.wheels@.len() as int;
    all_wheels_switched(m1, p, ly, code, pressed, nw);
    wheels_aligned_rest(m1, p, ly, nw);
    binds_hit_rest(m1, p, ly, code, pressed, now, p.binds@.len() as int);
    if p.wheels@[j].temp is Some && p.wheels@[j].temp->0.key == code {
        assert(reconcile::enables(p.wheels@[j], code));
    }
}

proof fn nothing_switched<C>(
    m: Model<C>,
    p: Profile<C>,
    ly: Layout,
    code: u16,
    pressed: bool,
    n: int,
)
    requires
        settled(m, p),
        0 <= n <= p.wheels@.len(),
        forall|j: int|
            0 <= j < n ==> (#[trigger] buttons::wheels_switched(
                m,
                p,
                ly,
                code,
                pressed,
                n,
            ).wheels[j]).active == m.wheels[j].active,
    ensures
        buttons::wheels_switched(m, p, ly, code, pressed, n) == m,
    decreases n,
{
    if n > 0 {
        let m1 = buttons::wheels_switched(m, p, ly, code, pressed, n - 1);
        let m2 = buttons::wheels_switched(m, p, ly, code, pressed, n);
        all_wheels_switched(m, p, ly, code, pressed, n - 1);
        one_wheel_switched(m1, p, ly, n - 1, code, pressed);
        assert forall|j: int| 0 <= j < n - 1 implies (#[trigger] m1.wheels[j]).active
            == m.wheels[j].active by {
            assert(m2.wheels[j].active == m1.wheels[j].active);
        }
        nothing_switched(m, p, ly, code, pressed, n - 1);
        assert(m2.wheels[n - 1].active == m.wheels[n - 1].active);
    }
}

/// A key that switches a wheel does nothing else. No binding on it hears of it: nothing is
/// planned, and when the event switches no wheel, nothing is sent and no finger moves.
pub proof fn a_switch_key_only_switches<C>(
    m: Model<C>,
    sh: Shared<C>,
    ly: Layout,
    code: u16,
    pressed: bool,
    now: u64,
    j: int,
)
    requires
        runs(sh),
        settled(m, sh.profile),
        !(code == sh.profile.toggle_key && pressed),
        0 <= j < sh.profile.wheels@.len(),
        sh.profile.wheels@[j].temp is Some,
        sh.profile.wheels@[j].temp->0.key == code,
    ensures
        ({
            let m2 = buttons::button_done(m, sh, ly, code, pressed, now);
            &&& m2.sched == m.sched
            &&& (forall|k: int|
                0 <= k < m.wheels.len() ==> (#[trigger] m2.wheels[k]).active
                    == m.wheels[k].active) ==> m2.out == m.out && m2.down == m.down && m2.keys
                == m.keys && m2.wheels == m.wheels
        }),
{
    running(m, sh, ly, code, pressed, now);
    let p = sh.profile;
    let m1 = buttons::counted(buttons::noted(m, p.aim, code, pressed));
    let nw = p.wheels@.len() as int;
    assert(reconcile::enables(p.wheels@[j], code));
    all_wheels_switched(m1, p, ly, code, pressed, nw);
    let m2 = buttons::button_done(m, sh, ly, code, pressed, now);
    if forall|k: int|
        0 <= k < m.wheels.len() ==> (#[trigger] m2.wheels[k]).active == m.wheels[k].active {
        nothing_switched(m1, p, ly, code, pressed, nw);
    }
}

/// Two strokes of the key of a toggled wheel: after the first it is the other way round, after
/// the second as it was.
pub proof fn two_strokes_undo_each_other<C>(
    m: Model<C>,
    sh: Shared<C>,
    ly: Layout,
    j: int,
    at: (u64, u64, u64, u64),
)
    requires
        runs(sh),
        settled(m, sh.profile),
        0 <= j < sh.profile.wheels@.len(),
        sh.profile.wheels@[j].temp is Some,
        sh.profile.wheels@[j].temp->0.mode == TempMode::Toggle,
        sh.profile.wheels@[j].temp->0.key != sh.profile.toggle_key,
    ensures
        ({
            let key = sh.profile.wheels@[j].temp->0.key;
            let m1 = buttons::button_done(m, sh, ly, key, true, at.0);
            let m2 = buttons::button_done(m1, sh, ly, key, false, at.1);
            let m3 = buttons::button_done(m2, sh, ly, key, true, at.2);
            let m4 = buttons::button_done(m3, sh, ly, key, false, at.3);
            &&& m2.wheels[j].active == !m.wheels[j].active
            &&& m4.wheels[j].active == m.wheels[j].active
        }),
{
    let key = sh.profile.wheels@[j].temp->0.key;
    let m1 = buttons::button_done(m, sh, ly, key, true, at.0);
    let m2 = buttons::button_done(m1, sh, ly, key, false, at.1);
    let m3 = buttons::button_done(m2, sh, ly, key, true, at.2);
    a_wheel_obeys_its_key(m, sh, ly, key, true, at.0, j);
    a_wheel_obeys_its_key(m1, sh, ly, key, false, at.1, j);
    a_wheel_obeys_its_key(m2, sh, ly, key, true, at.2, j);
    a_wheel_obeys_its_key(m3, sh, ly, key, false, at.3, j);
}

// ---- sticks ----------------------------------------------------------------------------

/// A stick goes where its keys point. Left of the centre exactly when left is held without
/// right, and so for the other three; opposite keys cancel. On each axis that is pushed it goes
/// as far as the straight push if it is the only one, and as the diagonal push if both are.
pub proof fn a_stick_points_where_its_keys_do(px: WheelPx, d: engine::Dirs)
    requires
        layout::wheel_in_range(px),
    ensures
        ({
            let t = reconcile::push_target(px, d);
            let reach = if d.left != d.right && d.up != d.down {
                px.diagonal
            } else {
                px.push
            };
            &&& d.left && !d.right ==> t.0 == px.center.0 - reach
            &&& d.right && !d.left ==> t.0 == px.center.0 + reach
            &&& d.left == d.right ==> t.0 == px.center.0
            &&& d.up && !d.down ==> t.1 == px.center.1 - reach
            &&& d.down && !d.up ==> t.1 == px.center.1 + reach
            &&& d.up == d.down ==> t.1 == px.center.1
            &&& px.push > 0 && px.diagonal > 0 ==> {
                &&& t.0 < px.center.0 <==> d.left && !d.right
                &&& t.0 > px.center.0 <==> d.right && !d.left
                &&& t.1 < px.center.1 <==> d.up && !d.down
                &&& t.1 > px.center.1 <==> d.down && !d.up
            }
        }),
{
    let dx = reconcile::axis(d.left, d.right);
    let dy = reconcile::axis(d.up, d.down);
    let r = if dx != 0 && dy != 0 {
        px.diagonal as int
    } else {
        px.push as int
    };
    assert(dx * r == (if dx == 0 {
        0
    } else if dx == 1 {
        r
    } else {
        -r
    })) by (nonlinear_arith)
        requires
            dx == 0 || dx == 1 || dx == -1,
    ;
    assert(dy * r == (if dy == 0 {
        0
    } else if dy == 1 {
        r
    } else {
        -r
    })) by (nonlinear_arith)
        requires
            dy == 0 || dy == 1 || dy == -1,
    ;
}

/// Another wheel's turn leaves wheel `j` and its pointer alone, and takes one more pointer at
/// most.
proof fn other_sticks<C>(m: Model<C>, p: Profile<C>, ly: Layout, k: int, j: int)
    requires
        0 <= k < m.wheels.len(),
        0 <= j < m.wheels.len(),
        j != k,
        m.wheels.len() + 3000 <= u64::MAX,
    ensures
        ({
            let m2 = reconcile::wheel_aligned(m, p, ly, k);
            &&& m2.wheels[j] == m.wheels[j]
            &&& for_pointer(m2.out, (2000 + j) as u64) == for_pointer(m.out, (2000 + j) as u64)
            &&& engine::total(m2) <= engine::total(m) + 1
        }),
{
    let pid = (2000 + j) as u64;
    let own = engine::wheel_id(k);
    let m1 = reconcile::wheel_read(m, p, k);
    let px = ly.wheels@[k];
    let t = reconcile::push_target(px, m1.wheels[k].pressed);
    let down = control::touch(control::ACTION_DOWN, own, px.center);
    let go = control::touch(control::ACTION_MOVE, own, t);
    let back = control::touch(control::ACTION_MOVE, own, px.center);
    let up = control::touch(control::ACTION_UP, own, px.center);
    one_command(m.out, down, pid);
    one_command(m.out.push(down), go, pid);
    one_command(m.out, go, pid);
    one_command(m.out, back, pid);
    one_command(m.out.push(back), up, pid);
    let m2 = reconcile::wheel_aligned(m, p, ly, k);
    reconcile::downs_update(m.wheels, k, m1.wheels[k]);
    reconcile::downs_update(m1.wheels, k, m2.wheels[k]);
    assert(m1.wheels.update(k, m2.wheels[k]) =~= m2.wheels);
}

proof fn one_stick<C>(m: Model<C>, p: Profile<C>, ly: Layout, j: int)
    requires
        0 <= j < m.wheels.len(),
        m.wheels.len() == p.wheels@.len(),
        j < ly.wheels@.len(),
        m.wheels.len() + 3000 <= u64::MAX,
        layout::wheel_in_range(ly.wheels@[j]),
    ensures
        ({
            let w = p.wheels@[j];
            let on = w.temp is None || m.wheels[j].active;
            let up = on && m.held.contains(w.up);
            let down = on && m.held.contains(w.down);
            let left = on && m.held.contains(w.left);
            let right = on && m.held.contains(w.right);
            let px = ly.wheels@[j];
            let pid = (2000 + j) as u64;
            let m2 = reconcile::wheel_aligned(m, p, ly, j);
            let was = m.wheels[j];
            let st = m2.wheels[j];
            let before = for_pointer(m.out, pid);
            let after = for_pointer(m2.out, pid);
            &&& st.pressed == (engine::Dirs { up, down, left, right })
            &&& engine::total(m2) <= engine::total(m) + 1
            &&& left == right && up == down ==> !st.down && after == (if was.down {
                before.push(control::touch(control::ACTION_MOVE, pid, px.center)).push(
                    control::touch(control::ACTION_UP, pid, px.center),
                )
            } else {
                before
            })
            &&& !(left == right && up == down) && (was.down || engine::total(m) < 10) ==> {
                &&& st.down
                &&& st.last == reconcile::push_target(px, st.pressed)
                &&& after == (if !was.down {
                    before.push(control::touch(control::ACTION_DOWN, pid, px.center)).push(
                        control::touch(control::ACTION_MOVE, pid, st.last),
                    )
                } else if st.last != was.last {
                    before.push(control::touch(control::ACTION_MOVE, pid, st.last))
                } else {
                    before
                })
            }
        }),
{
    let pid = (2000 + j) as u64;
    let m1 = reconcile::wheel_read(m, p, j);
    let px = ly.wheels@[j];
    let t = reconcile::push_target(px, m1.wheels[j].pressed);
    let down = control::touch(control::ACTION_DOWN, pid, px.center);
    let go = control::touch(control::ACTION_MOVE, pid, t);
    let back = control::touch(control::ACTION_MOVE, pid, px.center);
    let up = control::touch(control::ACTION_UP, pid, px.center);
    one_command(m.out, down, pid);
    one_command(m.out.push(down), go, pid);
    one_command(m.out, go, pid);
    one_command(m.out, back, pid);
    one_command(m.out.push(back), up, pid);
    let m2 = reconcile::wheel_aligned(m, p, ly, j);
    reconcile::downs_update(m.wheels, j, m1.wheels[j]);
    reconcile::downs_update(m1.wheels, j, m2.wheels[j]);
    assert(m1.wheels.update(j, m2.wheels[j]) =~= m2.wheels);
}

proof fn all_sticks<C>(m: Model<C>, p: Profile<C>, ly: Layout, n: int, j: int)
    requires
        ly.fits(p),
        m.wheels.len() == p.wheels@.len(),
        0 <= n <= p.wheels@.len(),
        0 <= j < p.wheels@.len(),
    ensures
        ({
            let w = p.wheels@[j];
            let on = w.temp is None || m.wheels[j].active;
            let up = on && m.held.contains(w.up);
            let down = on && m.held.contains(w.down);
            let left = on && m.held.contains(w.left);
            let right = on && m.held.contains(w.right);
            let px = ly.wheels@[j];
            let pid = (2000 + j) as u64;
            let m2 = reconcile::wheels_aligned(m, p, ly, n);
            let was = m.wheels[j];
            let st = m2.wheels[j];
            let before = for_pointer(m.out, pid);
            let after = for_pointer(m2.out, pid);
            &&& engine::total(m2) <= engine::total(m) + n
            &&& n <= j ==> st == was && after == before
            &&& n > j ==> {
                &&& st.pressed == (engine::Dirs { up, down, left, right })
                &&& left == right && up == down ==> !st.down && after == (if was.down {
                    before.push(control::touch(control::ACTION_MOVE, pid, px.center)).push(
                        control::touch(control::ACTION_UP, pid, px.center),
                    )
                } else {
                    before
                })
                &&& !(left == right && up == down) && (was.down || engine::total(m) + j < 10) ==> {
                    &&& st.down
                    &&& st.last == reconcile::push_target(px, st.pressed)
                    &&& after == (if !was.down {
                        before.push(control::touch(control::ACTION_DOWN, pid, px.center)).push(
                            control::touch(control::ACTION_MOVE, pid, st.last),
                        )
                    } else if st.last != was.last {
                        before.push(control::touch(control::ACTION_MOVE, pid, st.last))
                    } else {
                        before
                    })
                }
            }
        }),
    decreases n,
{
    if n > 0 {
        all_sticks(m, p, ly, n - 1, j);
        wheels_aligned_rest(m, p, ly, n - 1);
        let m1 = reconcile::wheels_aligned(m, p, ly, n - 1);
        assert(layout::wheel_in_range(ly.wheels@[j]));
        if n - 1 == j {
            one_stick(m1, p, ly, j);
        } else {
            other_sticks(m1, p, ly, n - 1, j);
        }
    }
}

/// A key that steers moves the stick, and only that. With any direction pushed, a finger that is
/// up goes down at the centre and on to where the keys held now point; one that is down goes
/// there if it is not there yet. When none is pushed any more the finger goes back to the centre
/// and is lifted. No binding hears of the key.
pub proof fn steering_moves_the_stick<C>(
    m: Model<C>,
    sh: Shared<C>,
    ly: Layout,
    code: u16,
    pressed: bool,
    now: u64,
    steered: int,
    j: int,
)
    requires
        runs(sh),
        settled(m, sh.profile),
        ly.fits(sh.profile),
        !(code == sh.profile.toggle_key && pressed),
        0 <= steered < sh.profile.wheels@.len(),
        sh.profile.wheels@[steered].temp is None || m.wheels[steered].active,
        ({
            let w = sh.profile.wheels@[steered];
            code == w.up || code == w.down || code == w.left || code == w.right
        }),
        forall|k: int|
            0 <= k < sh.profile.wheels@.len() ==> !((
            #[trigger] sh.profile.wheels@[k]).temp is Some && sh.profile.wheels@[k].temp->0.key
                == code),
        0 <= j < sh.profile.wheels@.len(),
    ensures
        ({
            let w = sh.profile.wheels@[j];
            let m2 = buttons::button_done(m, sh, ly, code, pressed, now);
            let on = w.temp is None || m.wheels[j].active;
            let held = if pressed {
                m.held.insert(code)
            } else {
                m.held.remove(code)
            };
            let up = on && held.contains(w.up);
            let down = on && held.contains(w.down);
            let left = on && held.contains(w.left);
            let right = on && held.contains(w.right);
            let px = ly.wheels@[j];
            let pid = (2000 + j) as u64;
            let was = m.wheels[j];
            let st = m2.wheels[j];
            let before = for_pointer(m.out, pid);
            let after = for_pointer(m2.out, pid);
            let reach = if left != right && up != down {
                px.diagonal as int
            } else {
                px.push as int
            };
            &&& m2.down == m.down
            &&& m2.keys == m.keys
            &&& m2.sched == m.sched
            &&& st.pressed == (engine::Dirs { up, down, left, right })
            &&& left == right && up == down ==> !st.down && after == (if was.down {
                before.push(control::touch(control::ACTION_MOVE, pid, px.center)).push(
                    control::touch(control::ACTION_UP, pid, px.center),
                )
            } else {
                before
            })
            &&& !(left == right && up == down) && (was.down || engine::total(m) + j < 10) ==> {
                &&& st.down
                &&& st.last.0 == px.center.0 + (if left == right {
                    0
                } else if right {
                    reach
                } else {
                    -reach
                })
                &&& st.last.1 == px.center.1 + (if up == down {
                    0
                } else if down {
                    reach
                } else {
                    -reach
                })
                &&& after == (if !was.down {
                    before.push(control::touch(control::ACTION_DOWN, pid, px.center)).push(
                        control::touch(control::ACTION_MOVE, pid, st.last),
                    )
                } else if st.last != was.last {
                    before.push(control::touch(control::ACTION_MOVE, pid, st.last))
                } else {
                    before
                })
            }
        }),
{
    let p = sh.profile;
    running(m, sh, ly, code, pressed, now);
    let m1 = buttons::counted(buttons::noted(m, p.aim, code, pressed));
    let nw = p.wheels@.len() as int;
    assert(!buttons::switches_any(p.wheels@, code)) by {
        if buttons::switches_any(p.wheels@, code) {
            let k = choose|k: int|
                0 <= k < p.wheels@.len() && reconcile::enables(#[trigger] p.wheels@[k], code);
            assert(p.wheels@[k].temp is Some);
        }
    }
    assert(buttons::steers_any(p.wheels@, m1.wheels, code)) by {
        assert(reconcile::engaged(p.wheels@, m1.wheels, steered));
        assert(p.wheels@[steered].steers(code));
    }
    all_sticks(m1, p, ly, nw, j);
    wheels_aligned_rest(m1, p, ly, nw);
    let m2 = reconcile::wheels_aligned(m1, p, ly, nw);
    assert(layout::wheel_in_range(ly.wheels@[j]));
    a_stick_points_where_its_keys_do(ly.wheels@[j], m2.wheels[j].pressed);
}

// ---- bindings --------------------------------------------------------------------------

/// Whether a wheel has the key: it switches the wheel, or steers it while it is on.
pub open spec fn taken<C>(p: Profile<C>, st: Seq<WheelState>, key: u16) -> bool {
    exists|j: int|
        0 <= j < p.wheels@.len() && {
            let w = #[trigger] p.wheels@[j];
            ||| w.temp is Some && w.temp->0.key == key
            ||| (w.temp is None || st[j].active) && (key == w.up || key == w.down || key == w.left
                || key == w.right)
        }
}

proof fn owned_means_taken<C>(p: Profile<C>, st: Seq<WheelState>, key: u16)
    requires
        st.len() == p.wheels@.len(),
    ensures
        reconcile::owned(p.wheels@, st, key) == taken(p, st, key),
        taken(p, st, key) == (buttons::switches_any(p.wheels@, key) || buttons::steers_any(
            p.wheels@,
            st,
            key,
        )),
{
    if taken(p, st, key) {
        let j = choose|j: int|
            0 <= j < p.wheels@.len() && {
                let w = #[trigger] p.wheels@[j];
                ||| w.temp is Some && w.temp->0.key == key
                ||| (w.temp is None || st[j].active) && (key == w.up || key == w.down || key
                    == w.left || key == w.right)
            };
        assert(reconcile::owns(p.wheels@, st, j, key));
        assert(reconcile::enables(p.wheels@[j], key) || p.wheels@[j].steers(key));
    }
    if reconcile::owned(p.wheels@, st, key) {
        let j = choose|j: int|
            0 <= j < p.wheels@.len() && #[trigger] reconcile::owns(p.wheels@, st, j, key);
        assert(p.wheels@[j].temp is Some || p.wheels@[j].temp is None);
    }
    if buttons::switches_any(p.wheels@, key) {
        let j = choose|j: int|
            0 <= j < p.wheels@.len() && reconcile::enables(#[trigger] p.wheels@[j], key);
        assert(p.wheels@[j].temp is Some);
    }
    if buttons::steers_any(p.wheels@, st, key) {
        let j = choose|j: int|
            0 <= j < p.wheels@.len() && reconcile::engaged(p.wheels@, st, j) && (
            #[trigger] p.wheels@[j]).steers(key);
        assert(p.wheels@[j].temp is Some || p.wheels@[j].temp is None);
    }
}

proof fn only_one_hit<C>(
    m: Model<C>,
    p: Profile<C>,
    ly: Layout,
    code: u16,
    pressed: bool,
    now: u64,
    i: int,
    n: int,
)
    requires
        0 <= i < p.binds@.len(),
        n <= p.binds@.len(),
        p.binds@[i].key == code,
        forall|k: int| 0 <= k < p.binds@.len() && k != i ==> (#[trigger] p.binds@[k]).key != code,
    ensures
        buttons::binds_hit(m, p, ly, code, pressed, now, n) == (if n > i {
            buttons::bind_hit(m, p.binds@[i], ly.binds@[i], i, pressed, now)
        } else {
            m
        }),
    decreases n,
{
    if n > 0 {
        only_one_hit(m, p, ly, code, pressed, now, i, n - 1);
    }
}

/// The key is that of binding `i` alone: no other binding and no wheel has it, and it is not
/// about to switch the whole mapping.
pub open spec fn only_key<C>(
    m: Model<C>,
    sh: Shared<C>,
    ly: Layout,
    i: int,
    pressed: bool,
) -> bool {
    let p = sh.profile;
    &&& runs(sh)
    &&& settled(m, p)
    &&& ly.fits(p)
    &&& 0 <= i < p.binds@.len()
    &&& !taken(p, m.wheels, p.binds@[i].key)
    &&& forall|k: int|
        0 <= k < p.binds@.len() && k != i ==> (#[trigger] p.binds@[k]).key != p.binds@[i].key
    &&& !(pressed && p.binds@[i].key == p.toggle_key)
}

proof fn only_key_done<C>(
    m: Model<C>,
    sh: Shared<C>,
    ly: Layout,
    i: int,
    pressed: bool,
    now: u64,
) -> (m1: Model<C>)
    requires
        only_key(m, sh, ly, i, pressed),
    ensures
        m1 == (Model {
            live: m1.live,
            aim: m1.aim,
            ctrl_down: m1.ctrl_down,
            alt_down: m1.alt_down,
            held: m1.held,
            ..m
        }),
        m1.aim.down == m.aim.down,
        engine::reserved(m1) == engine::reserved(m),
        engine::total(m1) == engine::total(m),
        m1.live.refused == m.live.refused,
        m1.live.last_refused == m.live.last_refused,
        buttons::button_done(m, sh, ly, sh.profile.binds@[i].key, pressed, now) == buttons::counted(
            buttons::bind_hit(m1, sh.profile.binds@[i], ly.binds@[i], i, pressed, now),
        ),
{
    let p = sh.profile;
    let code = p.binds@[i].key;
    running(m, sh, ly, code, pressed, now);
    let m1 = buttons::counted(buttons::noted(m, p.aim, code, pressed));
    owned_means_taken(p, m.wheels, code);
    only_one_hit(m1, p, ly, code, pressed, now, i, p.binds@.len() as int);
    m1
}

/// Room for one more finger of a binding: fewer than eight of them are down, and fewer than ten
/// fingers in all.
pub open spec fn has_room<C>(m: Model<C>) -> bool {
    fingers::count_true(m.down) < 8 && engine::total(m) < 10
}

/// The fingers of all bindings but one are as they were.
pub open spec fn others_stay<C>(m: Model<C>, m2: Model<C>, i: int) -> bool {
    &&& m2.wheels == m.wheels
    &&& m2.aim.down == m.aim.down
    &&& forall|k: int|
        0 <= k && k != i ==> #[trigger] fingers::slot(m2.down, k) == fingers::slot(m.down, k)
}

/// A hold lasts as long as its key. Pressing the key puts one finger down at the binding's
/// place if there is room, and otherwise only notes which press was given up; releasing it lifts
/// that finger there. Nothing else is sent, and nothing is left to do later.
pub proof fn a_hold_follows_its_key<C>(
    m: Model<C>,
    sh: Shared<C>,
    ly: Layout,
    i: int,
    pressed: bool,
    now: u64,
)
    requires
        only_key(m, sh, ly, i, pressed),
        sh.profile.binds@[i].action is Hold,
    ensures
        ({
            let code = sh.profile.binds@[i].key;
            let at = ly.binds@[i].at;
            let pid = (1000 + i) as u64;
            let was = fingers::slot(m.down, i);
            let m2 = buttons::button_done(m, sh, ly, code, pressed, now);
            let is_down = fingers::slot(m2.down, i);
            &&& pressed && !was && has_room(m) ==> is_down && m2.out == m.out.push(
                control::touch(control::ACTION_DOWN, pid, at),
            )
            &&& pressed && !was && !has_room(m) ==> !is_down && m2.out == m.out
                && m2.live.refused == m.live.refused.wrapping_add(1) && m2.live.last_refused == code
            &&& pressed && was ==> is_down && m2.out == m.out
            &&& !pressed && was ==> !is_down && m2.out == m.out.push(
                control::touch(control::ACTION_UP, pid, at),
            )
            &&& !pressed && !was ==> !is_down && m2.out == m.out
            &&& m2.sched == m.sched
            &&& m2.keys == m.keys
            &&& others_stay(m, m2, i)
        }),
{
    let m1 = only_key_done(m, sh, ly, i, pressed, now);
}

/// A tap of some length. Each press puts a finger down at the binding's place, if there is room,
/// and plans to lift it there after the tap's length, five milliseconds at least. A finger still
/// down from the last press is lifted first and its planned end forgotten, so that it cannot cut
/// the new tap short. Releasing the key does nothing.
#[verifier::spinoff_prover]
pub proof fn a_tap_lasts_its_time<C>(
    m: Model<C>,
    sh: Shared<C>,
    ly: Layout,
    i: int,
    pressed: bool,
    now: u64,
)
    requires
        only_key(m, sh, ly, i, pressed),
        sh.profile.binds@[i].action is Tap,
        sh.profile.binds@[i].action->Tap_duration_ms > 0,
        now <= engine::LAST_CLOCK,
    ensures
        ({
            let code = sh.profile.binds@[i].key;
            let ms = sh.profile.binds@[i].action->Tap_duration_ms;
            let at = ly.binds@[i].at;
            let pid = (1000 + i) as u64;
            let was = fingers::slot(m.down, i);
            let m2 = buttons::button_done(m, sh, ly, code, pressed, now);
            let lifted = if was {
                m.out.push(control::touch(control::ACTION_UP, pid, at))
            } else {
                m.out
            };
            let kept = if was {
                m.sched.filter(
                    |e: (u64, SchedAct)| !(e.1 is Up && e.1->Up_pid == pid),
                )
            } else {
                m.sched
            };
            &&& pressed && (if was {
                fingers::count_true(m.down) <= 8 && engine::total(m) <= 10
            } else {
                has_room(m)
            }) ==> {
                &&& fingers::slot(m2.down, i)
                &&& m2.out == lifted.push(control::touch(control::ACTION_DOWN, pid, at))
                &&& m2.sched.len() == kept.len() + 1
                &&& m2.sched.drop_last() == kept
                &&& m2.sched.last().1 == (SchedAct::Up { pid, x: at.0, y: at.1 })
                &&& m2.sched.last().0 == now + 1_000_000 * (if ms < 5 {
                    5
                } else {
                    ms as int
                })
            }
            &&& pressed && !was && !has_room(m) ==> {
                &&& !fingers::slot(m2.down, i)
                &&& m2.out == m.out
                &&& m2.sched == m.sched
                &&& m2.live.refused == m.live.refused.wrapping_add(1)
                &&& m2.live.last_refused == code
            }
            &&& !pressed ==> m2.out == m.out && m2.sched == m.sched && m2.down == m.down
            &&& m2.keys == m.keys
            &&& others_stay(m, m2, i)
        }),
{
    let m1 = only_key_done(m, sh, ly, i, pressed, now);
    let pid = (1000 + i) as u64;
    if fingers::slot(m.down, i) {
        let plain = |e: (u64, SchedAct)| !(e.1 is Up && e.1->Up_pid == pid);
        let named = |e: (u64, SchedAct)| !buttons::lifts(e, pid);
        assert(plain =~= named);
        assert(buttons::without_lifts(m.sched, pid) == m.sched.filter(plain));
        fingers::press_lift_count(m.down, i);
    }
    let m2 = buttons::button_done(m, sh, ly, sh.profile.binds@[i].key, pressed, now);
    if m2.sched.len() > 0 {
        assert(m2.sched.drop_last().push(m2.sched.last()) =~= m2.sched);
    }
    if pressed {
        let ms = sh.profile.binds@[i].action->Tap_duration_ms;
        let b = sh.profile.binds@[i];
        let cleared = if fingers::slot(m.down, i) {
            engine::finger_up(
                Model { sched: buttons::without_lifts(m1.sched, pid), ..m1 },
                i,
                ly.binds@[i].at,
            )
        } else {
            m1
        };
        assert(buttons::bind_hit(m1, b, ly.binds@[i], i, true, now) == buttons::tapped(
            m1,
            i,
            b.key,
            ly.binds@[i].at,
            ms,
            now,
        ));
        if fingers::can_press(cleared.down, i, engine::reserved(cleared) as int) {
            assert(m2.sched == cleared.sched.push(m2.sched.last()));
            assert(m2.sched.drop_last() =~= cleared.sched);
        }
    }
}

/// A tap of length zero latches. A press turns it over: its finger goes down if it was up, and
/// is lifted if it was down. Releasing the key does nothing.
pub proof fn a_latch_turns_over<C>(
    m: Model<C>,
    sh: Shared<C>,
    ly: Layout,
    i: int,
    pressed: bool,
    now: u64,
)
    requires
        only_key(m, sh, ly, i, pressed),
        sh.profile.binds@[i].action is Tap,
        sh.profile.binds@[i].action->Tap_duration_ms == 0,
    ensures
        ({
            let code = sh.profile.binds@[i].key;
            let at = ly.binds@[i].at;
            let pid = (1000 + i) as u64;
            let was = fingers::slot(m.down, i);
            let m2 = buttons::button_done(m, sh, ly, code, pressed, now);
            let is_down = fingers::slot(m2.down, i);
            &&& pressed && was ==> !is_down && m2.out == m.out.push(
                control::touch(control::ACTION_UP, pid, at),
            )
            &&& pressed && !was && has_room(m) ==> is_down && m2.out == m.out.push(
                control::touch(control::ACTION_DOWN, pid, at),
            )
            &&& pressed && !was && !has_room(m) ==> !is_down && m2.out == m.out
                && m2.live.refused == m.live.refused.wrapping_add(1) && m2.live.last_refused == code
            &&& !pressed ==> is_down == was && m2.out == m.out
            &&& m2.sched == m.sched
            &&& m2.keys == m.keys
            &&& others_stay(m, m2, i)
        }),
{
    let m1 = only_key_done(m, sh, ly, i, pressed, now);
}

/// A swipe visits all its positions. A press puts its finger down at the start of the path if
/// there is room and it is not under way, and plans one move to each of the eased positions, in
/// their order and each once, the k-th of n after k n-ths of its time, in whole milliseconds.
/// Twenty milliseconds after the end it is lifted at the end of the path. Releasing the key does
/// nothing.
pub proof fn a_swipe_visits_its_positions<C>(
    m: Model<C>,
    sh: Shared<C>,
    ly: Layout,
    i: int,
    pressed: bool,
    now: u64,
)
    requires
        only_key(m, sh, ly, i, pressed),
        sh.profile.binds@[i].action is Swipe,
        now <= engine::LAST_CLOCK,
    ensures
        ({
            let code = sh.profile.binds@[i].key;
            let ms = sh.profile.binds@[i].action->Swipe_0.duration_ms;
            let px = ly.binds@[i];
            let steps = px.eased@.len() as int;
            let pid = (1000 + i) as u64;
            let m2 = buttons::button_done(m, sh, ly, code, pressed, now);
            let start = m.sched.len() as int;
            &&& pressed && !fingers::slot(m.down, i) && has_room(m) ==> {
                &&& fingers::slot(m2.down, i)
                &&& m2.out == m.out.push(control::touch(control::ACTION_DOWN, pid, px.path@[0]))
                &&& m2.sched.len() == start + steps + 1
                &&& m2.sched.take(start) == m.sched
                &&& forall|k: int|
                    0 <= k < steps ==> {
                        let e = #[trigger] m2.sched[start + k];
                        &&& e.1 == (SchedAct::Move { pid, x: px.eased@[k].0, y: px.eased@[k].1 })
                        &&& exists|after: int|
                            e.0 == now + 1_000_000 * after && #[trigger] (after * steps) <= ms * (k
                                + 1) < after * steps + steps
                    }
                &&& m2.sched.last().0 == now + 1_000_000 * (ms + 20)
                &&& m2.sched.last().1 == (SchedAct::Up {
                    pid,
                    x: px.path@.last().0,
                    y: px.path@.last().1,
                })
            }
            &&& pressed && (fingers::slot(m.down, i) || !has_room(m)) ==> {
                &&& m2.out == m.out
                &&& m2.sched == m.sched
                &&& m2.down == m.down
                &&& m2.live.refused == m.live.refused.wrapping_add(1)
                &&& m2.live.last_refused == code
            }
            &&& !pressed ==> m2.out == m.out && m2.sched == m.sched && m2.down == m.down
            &&& m2.keys == m.keys
            &&& others_stay(m, m2, i)
        }),
{
    let p = sh.profile;
    let m1 = only_key_done(m, sh, ly, i, pressed, now);
    let ms = p.binds@[i].action->Swipe_0.duration_ms;
    let px = ly.binds@[i];
    let steps = px.eased@.len() as int;
    let pid = (1000 + i) as u64;
    let m2 = buttons::button_done(m, sh, ly, p.binds@[i].key, pressed, now);
    let start = m.sched.len() as int;
    assert(layout::bind_in_range(p.binds@[i].action, px));
    if pressed && !fingers::slot(m.down, i) && has_room(m) {
        let plan = buttons::swipe_schedule(pid, px, ms, now);
        assert(m2.sched == m.sched + plan);
        assert(m2.sched.take(start) =~= m.sched);
        assert forall|k: int| 0 <= k < steps implies {
            let e = #[trigger] m2.sched[start + k];
            &&& e.1 == (SchedAct::Move { pid, x: px.eased@[k].0, y: px.eased@[k].1 })
            &&& exists|after: int|
                e.0 == now + 1_000_000 * after && #[trigger] (after * steps) <= ms * (k + 1) < after
                    * steps + steps
        } by {
            assert(m2.sched[start + k] == plan[k]);
            let all = ms * (k + 1);
            let after = all / steps;
            assert(after * steps <= all < after * steps + steps && 0 <= after <= ms)
                by (nonlinear_arith)
                requires
                    after == all / steps,
                    all == ms * (k + 1),
                    0 <= k < steps,
                    0 <= ms,
            ;
            assert(m2.sched[start + k].0 == now + 1_000_000 * after);
        }
    }
}

/// An Android key goes down with its key and up with it. Pressing the key sends that it goes
/// down if it was up, and releasing it sends that it goes up if it was down: just that, and the
/// engine knows which it is.
pub proof fn an_android_key_follows_its_key<C>(
    m: Model<C>,
    sh: Shared<C>,
    ly: Layout,
    i: int,
    pressed: bool,
    now: u64,
)
    requires
        only_key(m, sh, ly, i, pressed),
        sh.profile.binds@[i].action is AndroidKey,
        m.keys.no_duplicates(),
    ensures
        ({
            let keycode = sh.profile.binds@[i].action->keycode;
            let known = keycode as u16;
            let was = m.keys.contains(known);
            let m2 = buttons::button_done(m, sh, ly, sh.profile.binds@[i].key, pressed, now);
            &&& m2.keys.contains(known) == pressed
            &&& m2.keys.no_duplicates()
            &&& forall|other: u16|
                other != known ==> #[trigger] m2.keys.contains(other) == m.keys.contains(other)
            &&& pressed && !was ==> m2.out == m.out.push(
                ControlCmd::Key { action: control::ACTION_DOWN, keycode },
            )
            &&& !pressed && was ==> m2.out == m.out.push(
                ControlCmd::Key { action: control::ACTION_UP, keycode },
            )
            &&& pressed == was ==> m2.out == m.out
            &&& m2.down == m.down
            &&& m2.sched == m.sched
            &&& others_stay(m, m2, -1)
        }),
{
    let m1 = only_key_done(m, sh, ly, i, pressed, now);
    let known = sh.profile.binds@[i].action->keycode as u16;
    let m2 = buttons::button_done(m, sh, ly, sh.profile.binds@[i].key, pressed, now);
    if pressed && !m.keys.contains(known) {
        key_joins(m.keys, known);
    }
    if !pressed && m.keys.contains(known) {
        key_leaves(m.keys, known);
    }
}

proof fn key_joins(s: Seq<u16>, code: u16)
    requires
        s.no_duplicates(),
        !s.contains(code),
    ensures
        s.push(code).no_duplicates(),
        forall|k: u16| #[trigger] s.push(code).contains(k) <==> (s.contains(k) || k == code),
{
    let t = s.push(code);
    assert forall|k: u16| #[trigger] t.contains(k) <==> (s.contains(k) || k == code) by {
        if s.contains(k) {
            let i = s.index_of(k);
            assert(t[i] == k);
        }
        assert(t[s.len() as int] == code);
        if t.contains(k) {
            let i = t.index_of(k);
            assert(i == s.len() || s[i] == k);
        }
    }
}

proof fn key_leaves(s: Seq<u16>, code: u16)
    requires
        s.no_duplicates(),
        s.contains(code),
    ensures
        s.remove(s.index_of(code)).no_duplicates(),
        forall|k: u16| #[trigger]
            s.remove(s.index_of(code)).contains(k) <==> (s.contains(k) && k != code),
{
    let i = s.index_of(code);
    let t = s.remove(i);
    assert forall|k: u16| #[trigger] t.contains(k) <==> (s.contains(k) && k != code) by {
        if t.contains(k) {
            let j = t.index_of(k);
            let j2 = if j < i {
                j
            } else {
                j + 1
            };
            assert(s[j2] == k);
        }
        if s.contains(k) && k != code {
            let j = s.index_of(k);
            let j2 = if j < i {
                j
            } else {
                j - 1
            };
            assert(t[j2] == k);
        }
    }
}

proof fn binds_hit_each<C>(
    m: Model<C>,
    p: Profile<C>,
    ly: Layout,
    code: u16,
    pressed: bool,
    now: u64,
    n: int,
    i: int,
)
    requires
        0 <= i < p.binds@.len(),
        n <= p.binds@.len(),
        m.keys.no_duplicates(),
    ensures
        ({
            let m2 = buttons::binds_hit(m, p, ly, code, pressed, now, n);
            let b = p.binds@[i];
            &&& m2.keys.no_duplicates()
            &&& b.key != code || n <= i ==> fingers::slot(m2.down, i) == fingers::slot(m.down, i)
            &&& b.key == code && i < n && b.action is Hold && pressed ==> fingers::slot(m2.down, i)
                || m2.live.last_refused == code
            &&& b.key == code && i < n && b.action is Hold && !pressed ==> !fingers::slot(
                m2.down,
                i,
            )
            &&& b.key == code && i < n && b.action is AndroidKey ==> m2.keys.contains(
                b.action->keycode as u16,
            ) == pressed
        }),
    decreases n,
{
    if n > 0 {
        binds_hit_each(m, p, ly, code, pressed, now, n - 1, i);
        let m1 = buttons::binds_hit(m, p, ly, code, pressed, now, n - 1);
        let b = p.binds@[n - 1];
        if b.key == code && b.action is AndroidKey {
            let known = b.action->keycode as u16;
            if pressed && !m1.keys.contains(known) {
                key_joins(m1.keys, known);
            }
            if !pressed && m1.keys.contains(known) {
                key_leaves(m1.keys, known);
            }
        }
        fingers::press_lift_count(m1.down, n - 1);
    }
}

/// Every binding on a key acts on it, however many there are, and no other does. After a press
/// each hold on the key is down, unless a press of it was given up for want of room, and each
/// Android key on it is down; after the release all of them are up.
pub proof fn every_binding_on_the_key_acts<C>(
    m: Model<C>,
    sh: Shared<C>,
    ly: Layout,
    code: u16,
    pressed: bool,
    now: u64,
    i: int,
)
    requires
        runs(sh),
        settled(m, sh.profile),
        !(code == sh.profile.toggle_key && pressed),
        !taken(sh.profile, m.wheels, code),
        m.keys.no_duplicates(),
        0 <= i < sh.profile.binds@.len(),
    ensures
        ({
            let b = sh.profile.binds@[i];
            let m2 = buttons::button_done(m, sh, ly, code, pressed, now);
            &&& m2.wheels == m.wheels
            &&& m2.live.pointers == engine::total(m2) as usize
            &&& b.key != code ==> fingers::slot(m2.down, i) == fingers::slot(m.down, i)
            &&& b.key == code && b.action is Hold && pressed ==> fingers::slot(m2.down, i)
                || m2.live.last_refused == code
            &&& b.key == code && b.action is Hold && !pressed ==> !fingers::slot(m2.down, i)
            &&& b.key == code && b.action is AndroidKey ==> m2.keys.contains(
                b.action->keycode as u16,
            ) == pressed
        }),
{
    let p = sh.profile;
    running(m, sh, ly, code, pressed, now);
    let m1 = buttons::counted(buttons::noted(m, p.aim, code, pressed));
    owned_means_taken(p, m.wheels, code);
    binds_hit_each(m1, p, ly, code, pressed, now, p.binds@.len() as int, i);
    binds_hit_rest(m1, p, ly, code, pressed, now, p.binds@.len() as int);
}

// ---- keys that change hands ------------------------------------------------------------

/// Fingers and sticks are as the keys held say: a hold has its finger down exactly when its key
/// is held and no wheel has it, a stick is pushed exactly by the direction keys held while its
/// wheel is on, and its finger is down where they point exactly when they point somewhere.
pub open spec fn in_line<C>(m: Model<C>, p: Profile<C>, ly: Layout) -> bool {
    &&& forall|i: int|
        0 <= i < p.binds@.len() && (#[trigger] p.binds@[i]).action is Hold ==> fingers::slot(
            m.down,
            i,
        ) == (m.held.contains(p.binds@[i].key) && !taken(p, m.wheels, p.binds@[i].key))
    &&& forall|j: int|
        0 <= j < p.wheels@.len() ==> {
            let w = p.wheels@[j];
            let st = #[trigger] m.wheels[j];
            let on = w.temp is None || st.active;
            &&& st.pressed.up == (on && m.held.contains(w.up))
            &&& st.pressed.down == (on && m.held.contains(w.down))
            &&& st.pressed.left == (on && m.held.contains(w.left))
            &&& st.pressed.right == (on && m.held.contains(w.right))
            &&& st.down == (st.pressed.left != st.pressed.right || st.pressed.up
                != st.pressed.down)
            &&& st.down ==> {
                let px = ly.wheels@[j];
                let reach = if st.pressed.left != st.pressed.right && st.pressed.up
                    != st.pressed.down {
                    px.diagonal as int
                } else {
                    px.push as int
                };
                &&& st.last.0 == px.center.0 + (if st.pressed.left == st.pressed.right {
                    0
                } else if st.pressed.right {
                    reach
                } else {
                    -reach
                })
                &&& st.last.1 == px.center.1 + (if st.pressed.up == st.pressed.down {
                    0
                } else if st.pressed.down {
                    reach
                } else {
                    -reach
                })
            }
        }
}

/// There are so few bindings and wheels that the device has a pointer for every one of them.
pub open spec fn never_crowded<C>(m: Model<C>, p: Profile<C>) -> bool {
    &&& m.down.len() == p.binds@.len()
    &&& p.binds@.len() <= 8
    &&& p.binds@.len() + p.wheels@.len() <= 9
}

proof fn one_is_up(s: Seq<bool>, i: int)
    requires
        0 <= i < s.len(),
        !s[i],
    ensures
        fingers::count_true(s) < s.len(),
{
    fingers::count_update(s, i, true);
    fingers::count_bounded(s.update(i, true));
}

proof fn binds_aligned_len<C>(m: Model<C>, p: Profile<C>, ly: Layout, n: int)
    requires
        n <= p.binds@.len(),
        m.down.len() == p.binds@.len(),
    ensures
        reconcile::binds_aligned(m, p, ly, n).down.len() == m.down.len(),
    decreases n,
{
    if n > 0 {
        binds_aligned_len(m, p, ly, n - 1);
    }
}

proof fn realigned_in_line<C>(m: Model<C>, p: Profile<C>, ly: Layout)
    requires
        settled(m, p),
        ly.fits(p),
        never_crowded(m, p),
    ensures
        in_line(buttons::realigned(m, p, ly), p, ly),
        settled(buttons::realigned(m, p, ly), p),
        never_crowded(buttons::realigned(m, p, ly), p),
{
    let nb = p.binds@.len() as int;
    let nw = p.wheels@.len() as int;
    let m1 = reconcile::binds_aligned(m, p, ly, nb);
    let m2 = buttons::realigned(m, p, ly);
    binds_aligned_rest(m, p, ly, nb);
    binds_aligned_len(m, p, ly, nb);
    wheels_aligned_rest(m1, p, ly, nw);
    assert forall|i: int| 0 <= i < nb && (#[trigger] p.binds@[i]).action is Hold implies fingers::slot(
        m2.down,
        i,
    ) == (m2.held.contains(p.binds@[i].key) && !taken(p, m2.wheels, p.binds@[i].key)) by {
        handover::handover_is_immediate(m, p, ly, i);
        owned_means_taken(p, m2.wheels, p.binds@[i].key);
        binds_aligned_rest(m, p, ly, i);
        binds_aligned_len(m, p, ly, i);
        let x = reconcile::binds_aligned(m, p, ly, i);
        if handover::hold_crowded(x, p, i) {
            one_is_up(x.down, i);
            fingers::count_bounded(engine::downs(x.wheels));
        }
    }
    assert forall|j: int| 0 <= j < nw implies {
        let w = p.wheels@[j];
        let st = #[trigger] m2.wheels[j];
        let on = w.temp is None || st.active;
        &&& st.pressed.up == (on && m2.held.contains(w.up))
        &&& st.pressed.down == (on && m2.held.contains(w.down))
        &&& st.pressed.left == (on && m2.held.contains(w.left))
        &&& st.pressed.right == (on && m2.held.contains(w.right))
        &&& st.down == (st.pressed.left != st.pressed.right || st.pressed.up != st.pressed.down)
        &&& st.down ==> st.last == reconcile::push_target(ly.wheels@[j], st.pressed)
    } by {
        handover::wheels_follow_keys(m1, p, ly, nw, j);
        wheels_aligned_rest(m1, p, ly, j);
        let x = reconcile::wheels_aligned(m1, p, ly, j);
        let y = reconcile::wheel_read(x, p, j);
        if handover::wheel_crowded(x, p, j) {
            fingers::count_bounded(y.down);
            one_is_up(engine::downs(y.wheels), j);
        }
    }
    assert forall|j: int| 0 <= j < nw implies layout::wheel_in_range(#[trigger] ly.wheels@[j]) by {}
    assert forall|j: int| 0 <= j < nw && (#[trigger] m2.wheels[j]).down implies {
        let st = m2.wheels[j];
        let px = ly.wheels@[j];
        let reach = if st.pressed.left != st.pressed.right && st.pressed.up != st.pressed.down {
            px.diagonal as int
        } else {
            px.push as int
        };
        &&& st.last.0 == px.center.0 + (if st.pressed.left == st.pressed.right {
            0
        } else if st.pressed.right {
            reach
        } else {
            -reach
        })
        &&& st.last.1 == px.center.1 + (if st.pressed.up == st.pressed.down {
            0
        } else if st.pressed.down {
            reach
        } else {
            -reach
        })
    } by {
        assert(layout::wheel_in_range(ly.wheels@[j]));
        a_stick_points_where_its_keys_do(ly.wheels@[j], m2.wheels[j].pressed);
    }
}

proof fn switched_in_line<C>(
    m: Model<C>,
    p: Profile<C>,
    ly: Layout,
    code: u16,
    pressed: bool,
    n: int,
)
    requires
        settled(m, p),
        ly.fits(p),
        never_crowded(m, p),
        0 <= n <= p.wheels@.len(),
    ensures
        ({
            let m2 = buttons::wheels_switched(m, p, ly, code, pressed, n);
            &&& settled(m2, p)
            &&& never_crowded(m2, p)
            &&& m2 == m || in_line(m2, p, ly)
        }),
    decreases n,
{
    if n > 0 {
        switched_in_line(m, p, ly, code, pressed, n - 1);
        let m1 = buttons::wheels_switched(m, p, ly, code, pressed, n - 1);
        let j = n - 1;
        if m1.wheels[j].active {
            realigned_in_line(reconcile::wheel_off(m1, j, ly.wheels@[j].center), p, ly);
        } else {
            let on = Model {
                wheels: m1.wheels.update(j, WheelState { active: true, ..m1.wheels[j] }),
                ..m1
            };
            gave_way_rest(on, p, ly, p.wheels@[j], p.binds@.len() as int);
            realigned_in_line(buttons::wheel_on(m1, p, ly, j), p, ly);
        }
    }
}

/// Keys change hands at once. When the key of a temporary wheel switches one on or off, then
/// right after that event every finger and every stick is as the keys held say; no key has to
/// be let go and pressed again.
pub proof fn switching_hands_keys_over<C>(
    m: Model<C>,
    sh: Shared<C>,
    ly: Layout,
    code: u16,
    pressed: bool,
    now: u64,
    j: int,
)
    requires
        runs(sh),
        settled(m, sh.profile),
        ly.fits(sh.profile),
        never_crowded(m, sh.profile),
        !(code == sh.profile.toggle_key && pressed),
        0 <= j < sh.profile.wheels@.len(),
        buttons::button_done(m, sh, ly, code, pressed, now).wheels[j].active != m.wheels[j].active,
    ensures
        in_line(buttons::button_done(m, sh, ly, code, pressed, now), sh.profile, ly),
{
    let p = sh.profile;
    a_wheel_obeys_its_key(m, sh, ly, code, pressed, now, j);
    running(m, sh, ly, code, pressed, now);
    let m1 = buttons::counted(buttons::noted(m, p.aim, code, pressed));
    assert(reconcile::enables(p.wheels@[j], code));
    switched_in_line(m1, p, ly, code, pressed, p.wheels@.len() as int);
}

/// Switching the mapping on takes up the keys that are held already: right after it, every
/// finger and every stick is as they say.
pub proof fn switching_on_takes_up_held_keys<C>(
    m: Model<C>,
    sh: Shared<C>,
    ly: Layout,
    now: u64,
)
    requires
        !sh.enabled,
        sh.control is Some,
        sh.control->0.connected,
        settled(m, sh.profile),
        ly.fits(sh.profile),
        never_crowded(m, sh.profile),
    ensures
        in_line(
            buttons::button_done(m, sh, ly, sh.profile.toggle_key, true, now),
            sh.profile,
            ly,
        ),
        !buttons::button_done(m, sh, ly, sh.profile.toggle_key, true, now).aim.released,
{
    let p = sh.profile;
    let m1 = session::mouse_back(buttons::noted(m, p.aim, p.toggle_key, true));
    assert(session::followed(m1, p, ly) =~= m1);
    realigned_in_line(m1, p, ly);
    realigned_frame(m1, p, ly);
    wheels_aligned_rest(
        reconcile::binds_aligned(m1, p, ly, p.binds@.len() as int),
        p,
        ly,
        p.wheels@.len() as int,
    );
    binds_aligned_rest(m1, p, ly, p.binds@.len() as int);
}

// ---- mouse look ------------------------------------------------------------------------

/// Mouse motions count: aiming is on and has an anchor, the mouse was not handed back, and the
/// button that aiming may depend on is held.
pub open spec fn aims<C>(a: Aim<C>, st: engine::AimState<C>) -> bool {
    a.enabled && a.anchor is Some && !st.released && (a.hold_key == 0 || st.gate_down)
}

/// A motion drags the aim finger. The finger goes to the target, down if it was up; a drag from
/// another anchor is ended first. Where the screen ends, or in threshold mode beyond the
/// threshold, it is then lifted at the target and put down at the anchor, and the drag starts
/// over; in the mode that never returns it stays at the target, and so it does in all other
/// cases. Without room for the finger the motion is given up. Nothing but the aim finger takes
/// part.
pub proof fn a_motion_drags_the_finger<C>(
    m: Model<C>,
    a: Aim<C>,
    anchor: (i32, i32),
    d: aim::Drag<C>,
    now: u64,
)
    ensures
        ({
            let m2 = session::motion_done(m, a, true, anchor, d, now);
            let other_anchor = m.aim.anchor_used != anchor;
            let start = if other_anchor && m.aim.down {
                m.out.push(control::touch(control::ACTION_UP, 3000, m.aim.cur))
            } else {
                m.out
            };
            let there = start.push(
                control::touch(
                    if m.aim.down && !other_anchor {
                        control::ACTION_MOVE
                    } else {
                        control::ACTION_DOWN
                    },
                    3000,
                    d.target,
                ),
            );
            let stays = m2.out == there && m2.aim.cur == d.target && m2.aim.offset == Some(d.offset);
            let comes_home = m2.out == there.push(
                control::touch(control::ACTION_UP, 3000, d.target),
            ).push(control::touch(control::ACTION_DOWN, 3000, anchor)) && m2.aim.cur == anchor
                && m2.aim.offset is None;
            &&& !aims(a, m.aim) ==> m2 == m
            &&& aims(a, m.aim) && !m.aim.down && engine::total(m) >= 10 ==> {
                &&& m2.out == m.out
                &&& m2.aim == m.aim
                &&& m2.live.refused == m.live.refused.wrapping_add(1)
                &&& m2.live.last_refused == 0
            }
            &&& aims(a, m.aim) && (m.aim.down || engine::total(m) < 10) ==> {
                &&& m2.aim.down
                &&& m2.aim.anchor_used == anchor
                &&& m2.aim.last_motion == Some(now)
                &&& m2.live == m.live
                &&& a.recenter == RecenterMode::Never ==> stays
                &&& a.recenter != RecenterMode::Never && d.hit_edge ==> comes_home
                &&& a.recenter == RecenterMode::Threshold && d.over_threshold ==> comes_home
                &&& !d.hit_edge && !d.over_threshold ==> stays
                &&& !d.hit_edge && a.recenter != RecenterMode::Threshold ==> stays
            }
            &&& m2 == (Model { aim: m2.aim, live: m2.live, out: m2.out, ..m })
            &&& m2.aim.gate_down == m.aim.gate_down
            &&& m2.aim.released == m.aim.released
        }),
{
}

/// While the mapping is off, or has no live channel, motions change nothing.
pub proof fn motions_need_the_mapping<C>(
    m: Model<C>,
    a: Aim<C>,
    anchor: (i32, i32),
    d: aim::Drag<C>,
    now: u64,
)
    ensures
        session::motion_done(m, a, false, anchor, d, now) == m,
{
}

/// The aim finger between motions, over a live channel. In idle mode a finger that was dragged
/// away returns to the anchor once the mouse has rested for the set time, sixteen milliseconds
/// at least: lifted where it is, down at the anchor, the drag forgotten. Before that, and in the
/// other modes, it is left alone. As soon as motions do not count any more it is lifted where it
/// is.
pub proof fn a_resting_mouse_brings_the_finger_home<C>(
    m: Model<C>,
    a: Aim<C>,
    anchor: (i32, i32),
    enabled: bool,
    away: bool,
    now: u64,
)
    ensures
        ({
            let m2 = session::kept_up(m, a, true, anchor, enabled, away, now);
            let rest = if a.recenter_idle_ms < 16 {
                16
            } else {
                a.recenter_idle_ms as int
            };
            let rested = m.aim.last_motion is Some && now - m.aim.last_motion->0 >= 1_000_000
                * rest;
            let goes = m.aim.down && a.recenter == RecenterMode::Idle && rested
                && m.aim.offset is Some && away;
            &&& enabled && aims(a, m.aim) && goes ==> {
                &&& m2.out == m.out.push(
                    control::touch(control::ACTION_UP, 3000, m.aim.cur),
                ).push(control::touch(control::ACTION_DOWN, 3000, anchor))
                &&& m2.aim.down
                &&& m2.aim.cur == anchor
                &&& m2.aim.offset is None
                &&& m2.aim.last_motion == Some(now)
            }
            &&& enabled && aims(a, m.aim) && !goes ==> m2.out == m.out && m2.aim == m.aim
            &&& !(enabled && aims(a, m.aim)) ==> {
                &&& m2.out == (if m.aim.down {
                    m.out.push(control::touch(control::ACTION_UP, 3000, m.aim.cur))
                } else {
                    m.out
                })
                &&& !m2.aim.down
                &&& m2.aim.offset is None
            }
            &&& m2 == (Model { aim: m2.aim, live: m2.live, out: m2.out, ..m })
            &&& m2.live.refused == m.live.refused
            &&& engine::sane(m) ==> m2.live.pointers == engine::total(m2)
        }),
{
    let rest = aim::rest_ms(a) as int;
    if m.aim.last_motion is Some {
        let d = now - m.aim.last_motion->0;
        assert(d / 1_000_000 >= rest <==> d >= 1_000_000 * rest);
    }
}

/// Without a live channel the drag is forgotten, and nothing is sent.
pub proof fn a_lost_channel_ends_the_drag<C>(
    m: Model<C>,
    a: Aim<C>,
    anchor: (i32, i32),
    enabled: bool,
    away: bool,
    now: u64,
)
    ensures
        ({
            let m2 = session::kept_up(m, a, false, anchor, enabled, away, now);
            &&& m2.out == m.out
            &&& !m2.aim.down
            &&& m2.aim.offset is None
            &&& m2 == (Model { aim: m2.aim, live: m2.live, ..m })
        }),
{
}

proof fn switching_leaves_aim<C>(
    m: Model<C>,
    p: Profile<C>,
    ly: Layout,
    code: u16,
    pressed: bool,
    n: int,
)
    ensures
        ({
            let m2 = buttons::wheels_switched(m, p, ly, code, pressed, n);
            &&& m2.aim == m.aim
            &&& m2.ctrl_down == m.ctrl_down
            &&& m2.alt_down == m.alt_down
        }),
    decreases n,
{
    if n > 0 {
        switching_leaves_aim(m, p, ly, code, pressed, n - 1);
        let m1 = buttons::wheels_switched(m, p, ly, code, pressed, n - 1);
        let j = n - 1;
        let nb = p.binds@.len() as int;
        let off = reconcile::wheel_off(m1, j, ly.wheels@[j].center);
        let on = Model {
            wheels: m1.wheels.update(j, WheelState { active: true, ..m1.wheels[j] }),
            ..m1
        };
        gave_way_rest(on, p, ly, p.wheels@[j], nb);
        let on2 = buttons::wheel_on(m1, p, ly, j);
        modifiers_stay(off, p, ly, nb);
        modifiers_stay(on2, p, ly, nb);
        wheels_aligned_rest(
            reconcile::binds_aligned(off, p, ly, nb),
            p,
            ly,
            p.wheels@.len() as int,
        );
        wheels_aligned_rest(
            reconcile::binds_aligned(on2, p, ly, nb),
            p,
            ly,
            p.wheels@.len() as int,
        );
    }
}

proof fn modifiers_stay<C>(m: Model<C>, p: Profile<C>, ly: Layout, n: int)
    ensures
        ({
            let m2 = reconcile::binds_aligned(m, p, ly, n);
            m2.aim == m.aim && m2.ctrl_down == m.ctrl_down && m2.alt_down == m.alt_down
        }),
    decreases n,
{
    if n > 0 {
        modifiers_stay(m, p, ly, n - 1);
    }
}

/// What every key is noted for. The button that aiming depends on opens and closes it. Ctrl and
/// Alt together, pressed in either order, hand the mouse back or take it again, provided that
/// aiming captures the mouse; no other key does.
pub proof fn keys_are_noted<C>(
    m: Model<C>,
    sh: Shared<C>,
    ly: Layout,
    code: u16,
    pressed: bool,
    now: u64,
)
    requires
        runs(sh) ==> settled(m, sh.profile),
        !(code == sh.profile.toggle_key && pressed),
    ensures
        ({
            let a = sh.profile.aim;
            let m2 = buttons::button_done(m, sh, ly, code, pressed, now);
            let ctrl = code == 29 || code == 97;
            let alt = code == 56 || code == 100;
            &&& m2.aim.gate_down == (if a.hold_key != 0 && code == a.hold_key {
                pressed
            } else {
                m.aim.gate_down
            })
            &&& ctrl ==> m2.ctrl_down == pressed && m2.alt_down == m.alt_down
            &&& alt ==> m2.alt_down == pressed && m2.ctrl_down == m.ctrl_down
            &&& !ctrl && !alt ==> m2.ctrl_down == m.ctrl_down && m2.alt_down == m.alt_down
            &&& m2.aim.released != m.aim.released <==> {
                &&& a.enabled && a.capture_mouse && a.anchor is Some
                &&& pressed
                &&& ctrl && m.alt_down || alt && m.ctrl_down
            }
            &&& m2.aim.down == m.aim.down
            &&& m2.aim.offset == m.aim.offset
            &&& m2.aim.cur == m.aim.cur
        }),
{
    let p = sh.profile;
    let m1 = buttons::counted(buttons::noted(m, p.aim, code, pressed));
    if runs(sh) {
        running(m, sh, ly, code, pressed, now);
        switching_leaves_aim(m1, p, ly, code, pressed, p.wheels@.len() as int);
        wheels_aligned_rest(m1, p, ly, p.wheels@.len() as int);
        binds_hit_rest(m1, p, ly, code, pressed, now, p.binds@.len() as int);
    }
}

// ---- switching the mapping -------------------------------------------------------------

/// While the mapping is off, or has no live channel, keys are noted and nothing else happens:
/// no finger moves and nothing is sent.
pub proof fn keys_need_the_mapping<C>(
    m: Model<C>,
    sh: Shared<C>,
    ly: Layout,
    code: u16,
    pressed: bool,
    now: u64,
)
    requires
        !runs(sh),
        !(code == sh.profile.toggle_key && pressed),
    ensures
        ({
            let m2 = buttons::button_done(m, sh, ly, code, pressed, now);
            &&& m2.out == m.out
            &&& m2.down == m.down
            &&& m2.keys == m.keys
            &&& m2.wheels == m.wheels
            &&& m2.sched == m.sched
            &&& m2.held == (if pressed {
                m.held.insert(code)
            } else {
                m.held.remove(code)
            })
        }),
{
}

/// Pressing the switch while the mapping is on lets go of everything: the device, if it was in
/// step, holds no pointer and no key when the commands have arrived, nothing is down for the
/// engine either, and no temporary wheel is on.
#[verifier::spinoff_prover]
pub proof fn the_switch_lets_go<C>(
    m: Model<C>,
    d: laws::Device,
    sh: Shared<C>,
    ly: Layout,
    now: u64,
)
    requires
        sh.enabled,
        sh.control is Some,
        laws::in_step(m, d),
        laws::small_profile(sh.profile),
    ensures
        ({
            let m2 = buttons::button_done(m, sh, ly, sh.profile.toggle_key, true, now);
            &&& laws::device_after(d, m2.out).pointers == Set::<u64>::empty()
            &&& laws::device_after(d, m2.out).keys == Set::<u32>::empty()
            &&& forall|i: int| !#[trigger] fingers::slot(m2.down, i)
            &&& m2.keys.len() == 0
            &&& !m2.aim.down
            &&& forall|j: int|
                0 <= j < m2.wheels.len() ==> !(#[trigger] m2.wheels[j]).active
                    && !m2.wheels[j].down
        }),
{
    let p = sh.profile;
    let m0 = buttons::noted(m, p.aim, p.toggle_key, true);
    laws::noting_keeps_step(m, d, p.aim, p.toggle_key, true);
    laws::switching_off_leaves_nothing(m0, d, p, ly);
    let off = session::switched_off(m0, true, p, ly);
    let m2 = buttons::button_done(m, sh, ly, p.toggle_key, true, now);
    assert(m2 == (Model { toolbar_prev: m2.toolbar_prev, ..off }));
}

// ---- what was planned ------------------------------------------------------------------

/// The command that carries out a planned action.
pub open spec fn command_of(a: SchedAct) -> ControlCmd {
    match a {
        SchedAct::Up { pid, x, y } => control::touch(control::ACTION_UP, pid, (x, y)),
        SchedAct::Move { pid, x, y } => control::touch(control::ACTION_MOVE, pid, (x, y)),
    }
}

proof fn acts_done_each<C>(m: Model<C>, acts: Seq<SchedAct>, n: int)
    requires
        0 <= n <= acts.len(),
    ensures
        ({
            let m2 = session::acts_done(m, acts, n);
            &&& m2 == (Model { down: m2.down, out: m2.out, ..m })
            &&& m2.down.len() == m.down.len()
            &&& m2.out.len() == m.out.len() + n
            &&& m2.out.take(m.out.len() as int) == m.out
            &&& forall|k: int|
                0 <= k < n ==> #[trigger] m2.out[m.out.len() + k] == command_of(acts[k])
            &&& forall|i: int|
                0 <= i < 1000 ==> #[trigger] fingers::slot(m2.down, i) == (fingers::slot(m.down, i)
                    && !exists|k: int|
                    0 <= k < n && (#[trigger] acts[k]) is Up && acts[k]->Up_pid == 1000 + i)
        }),
    decreases n,
{
    let m2 = session::acts_done(m, acts, n);
    if n == 0 {
        assert(m2.out.take(m.out.len() as int) =~= m.out);
    } else {
        acts_done_each(m, acts, n - 1);
        let m1 = session::acts_done(m, acts, n - 1);
        assert(m2.out == m1.out.push(command_of(acts[n - 1])));
        assert(m2.out.take(m.out.len() as int) =~= m1.out.take(m.out.len() as int));
        assert forall|k: int| 0 <= k < n implies #[trigger] m2.out[m.out.len() + k] == command_of(
            acts[k],
        ) by {
            if k < n - 1 {
                assert(m1.out[m.out.len() + k] == command_of(acts[k]));
            }
        }
        assert forall|i: int| 0 <= i < 1000 implies #[trigger] fingers::slot(m2.down, i) == (
        fingers::slot(m.down, i) && !exists|k: int|
            0 <= k < n && (#[trigger] acts[k]) is Up && acts[k]->Up_pid == 1000 + i) by {
            assert(fingers::slot(m1.down, i) == (fingers::slot(m.down, i) && !exists|k: int|
                0 <= k < n - 1 && (#[trigger] acts[k]) is Up && acts[k]->Up_pid == 1000 + i));
            let last = acts[n - 1];
            if last is Up && last->Up_pid == 1000 + i {
                assert(!fingers::slot(m2.down, i));
            } else {
                assert(fingers::slot(m2.down, i) == fingers::slot(m1.down, i));
            }
        }
    }
}

/// Entry `q` of a plan is due or stays; what is due at `k` and what stays at `r` were planned.
#[verifier::spinoff_prover]
proof fn due_members(s: Seq<(u64, SchedAct)>, now: u64, q: int, k: int, r: int)
    ensures
        ({
            let (rest, due) = session::due_split(s, 0, now);
            &&& rest.len() + due.len() == s.len()
            &&& 0 <= q < s.len() && s[q].0 <= now ==> due.contains(s[q].1)
            &&& 0 <= q < s.len() && s[q].0 > now ==> rest.contains(s[q])
            &&& 0 <= k < due.len() ==> exists|p: int|
                0 <= p < s.len() && (#[trigger] s[p]).0 <= now && due[k] == s[p].1
            &&& 0 <= r < rest.len() ==> rest[r].0 > now && s.contains(rest[r])
        }),
{
    let (rest, due) = session::due_split(s, 0, now);
    laws::due_split_partitions(s, 0, now);
    if 0 <= k < due.len() {
        let a = due[k];
        let p = choose|p: int| 0 <= p < s.len() && s[p].0 <= now && #[trigger] s[p].1 == a;
        assert(s[p].0 <= now);
    }
}

/// What was planned is carried out when its time has come, and not before. A planned action
/// (entry `q`) that is due is sent, and one that is not stays planned. A command that is sent
/// (the one at `k`) is that of a planned action that is due, and what stays planned (entry `r`)
/// was planned and is not due. Nothing is lost and nothing sent twice: as many commands are sent
/// as the plan has entries less.
#[verifier::spinoff_prover]
pub proof fn plans_are_carried_out<C>(m: Model<C>, now: u64, q: int, k: int, r: int)
    ensures
        ({
            let m2 = session::due_done(m, true, now);
            let start = m.out.len() as int;
            &&& m2.out.take(start) == m.out
            &&& m2.out.len() + m2.sched.len() == m.out.len() + m.sched.len()
            &&& 0 <= q < m.sched.len() && m.sched[q].0 <= now ==> m2.out.skip(start).contains(
                command_of(m.sched[q].1),
            )
            &&& 0 <= q < m.sched.len() && m.sched[q].0 > now ==> m2.sched.contains(m.sched[q])
            &&& start <= k < m2.out.len() ==> exists|p: int|
                0 <= p < m.sched.len() && (#[trigger] m.sched[p]).0 <= now && m2.out[k]
                    == command_of(m.sched[p].1)
            &&& 0 <= r < m2.sched.len() ==> m2.sched[r].0 > now && m.sched.contains(m2.sched[r])
            &&& m2.keys == m.keys
            &&& m2.wheels == m.wheels
            &&& m2.aim == m.aim
            &&& m2.held == m.held
        }),
{
    let (rest, due) = session::due_split(m.sched, 0, now);
    let m1 = Model { sched: rest, ..m };
    let m2 = session::due_done(m, true, now);
    let start = m.out.len() as int;
    due_members(m.sched, now, q, k - start, r);
    acts_done_each(m1, due, due.len() as int);
    assert(m2 == session::acts_done(m1, due, due.len() as int));
    if 0 <= q < m.sched.len() && m.sched[q].0 <= now {
        let at = due.index_of(m.sched[q].1);
        assert(m2.out[m1.out.len() + at] == command_of(due[at]));
        assert(m2.out.skip(start)[at] == command_of(m.sched[q].1));
    }
    if start <= k < m2.out.len() {
        let at = k - start;
        assert(m2.out[m1.out.len() + at] == command_of(due[at]));
    }
}

/// A finger whose planned lift is due is free again; all others are as they were.
#[verifier::spinoff_prover]
pub proof fn planned_lifts_free_fingers<C>(m: Model<C>, now: u64, i: int)
    requires
        0 <= i < 1000,
    ensures
        fingers::slot(session::due_done(m, true, now).down, i) == (fingers::slot(m.down, i)
            && !exists|q: int|
            0 <= q < m.sched.len() && (#[trigger] m.sched[q]).0 <= now && m.sched[q].1 is Up
                && m.sched[q].1->Up_pid == 1000 + i),
{
    let (rest, due) = session::due_split(m.sched, 0, now);
    let m1 = Model { sched: rest, ..m };
    let m2 = session::due_done(m, true, now);
    acts_done_each(m1, due, due.len() as int);
    assert(m2 == session::acts_done(m1, due, due.len() as int));
    let by_act = exists|k: int|
        0 <= k < due.len() && (#[trigger] due[k]) is Up && due[k]->Up_pid == 1000 + i;
    let by_plan = exists|q: int|
        0 <= q < m.sched.len() && (#[trigger] m.sched[q]).0 <= now && m.sched[q].1 is Up
            && m.sched[q].1->Up_pid == 1000 + i;
    assert(fingers::slot(m2.down, i) == (fingers::slot(m1.down, i) && !by_act));
    if by_act {
        let k = choose|k: int|
            0 <= k < due.len() && (#[trigger] due[k]) is Up && due[k]->Up_pid == 1000 + i;
        due_members(m.sched, now, 0, k, 0);
    }
    if by_plan {
        let q = choose|q: int|
            0 <= q < m.sched.len() && (#[trigger] m.sched[q]).0 <= now && m.sched[q].1 is Up
                && m.sched[q].1->Up_pid == 1000 + i;
        due_members(m.sched, now, q, 0, 0);
        let k = due.index_of(m.sched[q].1);
        assert(due[k] is Up);
    }
}

/// Without a channel what is due is dropped: nothing is sent.
pub proof fn plans_need_a_channel<C>(m: Model<C>, now: u64)
    ensures
        session::due_done(m, false, now).out == m.out,
        session::due_done(m, false, now).down == m.down,
        session::due_done(m, false, now).sched == session::due_done(m, true, now).sched,
{
    let (rest, due) = session::due_split(m.sched, 0, now);
    acts_done_each(Model { sched: rest, ..m }, due, due.len() as int);
}

// ---- profiles that change shape --------------------------------------------------------

/// A profile of another shape starts afresh. Of wheels that were changed none is on but those
/// that a key which is held holds on, and right away every finger and every stick is as the keys
/// held say, by the new profile.
pub proof fn a_new_shape_starts_afresh<C>(m: Model<C>, p: Profile<C>, ly: Layout)
    requires
        ly.fits(p),
        p.binds@.len() <= 8,
        p.binds@.len() + p.wheels@.len() <= 9,
        m.binds_sig != reconcile::binds_print(p.binds@) || m.wheel_sig != reconcile::wheels_print(
            p.wheels@,
        ),
        m.binds_sig == reconcile::binds_print(p.binds@) ==> m.down.len() == p.binds@.len(),
        m.wheel_sig == reconcile::wheels_print(p.wheels@) ==> m.wheels.len() == p.wheels@.len(),
    ensures
        ({
            let m2 = buttons::caught_up(m, p, ly);
            &&& settled(m2, p)
            &&& in_line(m2, p, ly)
            &&& m2.held == m.held
            &&& m2.sched == m.sched
            &&& m.wheel_sig != reconcile::wheels_print(p.wheels@) ==> forall|j: int|
                0 <= j < p.wheels@.len() ==> (#[trigger] m2.wheels[j]).active == (
                p.wheels@[j].temp is Some && p.wheels@[j].temp->0.mode == TempMode::Hold
                    && m.held.contains(p.wheels@[j].temp->0.key))
            &&& m.wheel_sig == reconcile::wheels_print(p.wheels@) ==> forall|j: int|
                0 <= j < p.wheels@.len() ==> (#[trigger] m2.wheels[j]).active
                    == m.wheels[j].active
        }),
{
    let n = session::slots(m.down.len(), p.binds@.len());
    session::fingers_lifted_frame(m, ly, n);
    let m1 = session::binds_followed(m, p, ly);
    assert(m1.down.len() == p.binds@.len());
    assert(m1.held == m.held && m1.sched == m.sched && m1.wheels == m.wheels);
    session::wheels_lifted_frame(m1, ly, m1.wheels.len() as int);
    let m2 = session::followed(m, p, ly);
    assert(settled(m2, p));
    realigned_in_line(m2, p, ly);
    realigned_frame(m2, p, ly);
}

// ---- what a wheel takes ----------------------------------------------------------------

/// A finger that is up stays up while bindings are aligned, unless it is that of a hold whose key
/// is held and free.
proof fn alignment_leaves_up<C>(m: Model<C>, p: Profile<C>, ly: Layout, n: int, i: int)
    requires
        0 <= i < p.binds@.len(),
        n <= p.binds@.len(),
        !fingers::slot(m.down, i),
        reconcile::owned(p.wheels@, m.wheels, p.binds@[i].key),
    ensures
        !fingers::slot(reconcile::binds_aligned(m, p, ly, n).down, i),
    decreases n,
{
    if n > 0 {
        alignment_leaves_up(m, p, ly, n - 1, i);
        binds_aligned_rest(m, p, ly, n - 1);
    }
}

proof fn giving_way<C>(m: Model<C>, p: Profile<C>, ly: Layout, w: Wheel<C>, n: int, i: int)
    requires
        0 <= i < p.binds@.len(),
        n <= p.binds@.len(),
        !(p.binds@[i].action is AndroidKey),
    ensures
        ({
            let m2 = reconcile::all_gave_way(m, p, ly, w, n);
            &&& i < n && w.steers(p.binds@[i].key) ==> !fingers::slot(m2.down, i)
            &&& !fingers::slot(m.down, i) ==> !fingers::slot(m2.down, i)
        }),
    decreases n,
{
    if n > 0 {
        giving_way(m, p, ly, w, n - 1, i);
    }
}

/// Wheel `j` at its turn: binding `i` is up afterwards if the wheel went on and took its key, and
/// if it was up already with its key taken by a wheel that is still on.
proof fn taking<C>(
    m: Model<C>,
    p: Profile<C>,
    ly: Layout,
    j: int,
    code: u16,
    pressed: bool,
    i: int,
    by: int,
)
    requires
        settled(m, p),
        0 <= j < p.wheels@.len(),
        0 <= by < p.wheels@.len(),
        0 <= i < p.binds@.len(),
        !(p.binds@[i].action is AndroidKey),
        p.wheels@[by].steers(p.binds@[i].key),
        by == j ==> !m.wheels[j].active,
        by != j ==> !fingers::slot(m.down, i) && m.wheels[by].active,
        buttons::wheel_switched(m, p, ly, j, code, pressed).wheels[by].active,
    ensures
        !fingers::slot(buttons::wheel_switched(m, p, ly, j, code, pressed).down, i),
{
    let nb = p.binds@.len() as int;
    let nw = p.wheels@.len() as int;
    let m2 = buttons::wheel_switched(m, p, ly, j, code, pressed);
    one_wheel_switched(m, p, ly, j, code, pressed);
    if m2.wheels[j].active != m.wheels[j].active {
        let m1 = if m.wheels[j].active {
            reconcile::wheel_off(m, j, ly.wheels@[j].center)
        } else {
            buttons::wheel_on(m, p, ly, j)
        };
        let on = Model {
            wheels: m.wheels.update(j, WheelState { active: true, ..m.wheels[j] }),
            ..m
        };
        gave_way_rest(on, p, ly, p.wheels@[j], nb);
        giving_way(on, p, ly, p.wheels@[j], nb, i);
        assert(!fingers::slot(m1.down, i));
        assert(m1.wheels[by].active);
        assert(reconcile::owns(p.wheels@, m1.wheels, by, p.binds@[i].key));
        alignment_leaves_up(m1, p, ly, nb, i);
        wheels_aligned_rest(reconcile::binds_aligned(m1, p, ly, nb), p, ly, nw);
    }
}

proof fn all_taking<C>(
    m: Model<C>,
    p: Profile<C>,
    ly: Layout,
    code: u16,
    pressed: bool,
    n: int,
    i: int,
    by: int,
)
    requires
        settled(m, p),
        0 <= by < n <= p.wheels@.len(),
        0 <= i < p.binds@.len(),
        !(p.binds@[i].action is AndroidKey),
        p.wheels@[by].steers(p.binds@[i].key),
        !m.wheels[by].active,
        buttons::wheels_switched(m, p, ly, code, pressed, n).wheels[by].active,
    ensures
        !fingers::slot(buttons::wheels_switched(m, p, ly, code, pressed, n).down, i),
    decreases n,
{
    all_wheels_switched(m, p, ly, code, pressed, n - 1);
    let m1 = buttons::wheels_switched(m, p, ly, code, pressed, n - 1);
    one_wheel_switched(m1, p, ly, n - 1, code, pressed);
    if by < n - 1 {
        all_taking(m, p, ly, code, pressed, n - 1, i, by);
    }
    taking(m1, p, ly, n - 1, code, pressed, i, by);
}

/// A wheel that goes on takes its keys. Every tap, hold and swipe on one of its four direction
/// keys has its finger up at once, also one that was latched or under way.
pub proof fn a_wheel_takes_its_keys<C>(
    m: Model<C>,
    sh: Shared<C>,
    ly: Layout,
    code: u16,
    pressed: bool,
    now: u64,
    j: int,
    i: int,
)
    requires
        runs(sh),
        settled(m, sh.profile),
        !(code == sh.profile.toggle_key && pressed),
        0 <= j < sh.profile.wheels@.len(),
        0 <= i < sh.profile.binds@.len(),
        !(sh.profile.binds@[i].action is AndroidKey),
        ({
            let (w, key) = (sh.profile.wheels@[j], sh.profile.binds@[i].key);
            key == w.up || key == w.down || key == w.left || key == w.right
        }),
        !m.wheels[j].active,
        buttons::button_done(m, sh, ly, code, pressed, now).wheels[j].active,
    ensures
        !fingers::slot(buttons::button_done(m, sh, ly, code, pressed, now).down, i),
{
    let p = sh.profile;
    a_wheel_obeys_its_key(m, sh, ly, code, pressed, now, j);
    running(m, sh, ly, code, pressed, now);
    let m1 = buttons::counted(buttons::noted(m, p.aim, code, pressed));
    assert(reconcile::enables(p.wheels@[j], code));
    assert(p.wheels@[j].steers(p.binds@[i].key));
    all_taking(m1, p, ly, code, pressed, p.wheels@.len() as int, i, j);
}

proof fn android_keys_aligned<C>(m: Model<C>, p: Profile<C>, ly: Layout, n: int, i: int)
    requires
        0 <= i < p.binds@.len(),
        n <= p.binds@.len(),
        p.binds@[i].action is AndroidKey,
        m.keys.no_duplicates(),
        forall|k: int|
            0 <= k < p.binds@.len() && k != i && (#[trigger] p.binds@[k]).action is AndroidKey
                ==> p.binds@[k].action->keycode as u16 != p.binds@[i].action->keycode as u16,
    ensures
        ({
            let m2 = reconcile::binds_aligned(m, p, ly, n);
            let known = p.binds@[i].action->keycode as u16;
            &&& m2.keys.no_duplicates()
            &&& m2.keys.contains(known) == (if n > i {
                m.held.contains(p.binds@[i].key) && !reconcile::owned(
                    p.wheels@,
                    m.wheels,
                    p.binds@[i].key,
                )
            } else {
                m.keys.contains(known)
            })
        }),
    decreases n,
{
    if n > 0 {
        android_keys_aligned(m, p, ly, n - 1, i);
        binds_aligned_rest(m, p, ly, n - 1);
        let m1 = reconcile::binds_aligned(m, p, ly, n - 1);
        let b = p.binds@[n - 1];
        if b.action is AndroidKey {
            let code = b.action->keycode as u16;
            if m1.keys.contains(code) {
                key_leaves(m1.keys, code);
            } else {
                key_joins(m1.keys, code);
            }
        }
    }
}

/// When fingers and sticks are brought in line with the keys held, so are Android keys: one that
/// no other binding presses is down exactly when its key is held and no wheel has it.
pub proof fn android_keys_change_hands_too<C>(m: Model<C>, p: Profile<C>, ly: Layout, i: int)
    requires
        settled(m, p),
        m.keys.no_duplicates(),
        0 <= i < p.binds@.len(),
        p.binds@[i].action is AndroidKey,
        forall|k: int|
            0 <= k < p.binds@.len() && k != i && (#[trigger] p.binds@[k]).action is AndroidKey
                ==> p.binds@[k].action->keycode as u16 != p.binds@[i].action->keycode as u16,
    ensures
        ({
            let m2 = buttons::realigned(m, p, ly);
            m2.keys.contains(p.binds@[i].action->keycode as u16) == (m2.held.contains(
                p.binds@[i].key,
            ) && !taken(p, m2.wheels, p.binds@[i].key))
        }),
{
    let nb = p.binds@.len() as int;
    let m1 = reconcile::binds_aligned(m, p, ly, nb);
    android_keys_aligned(m, p, ly, nb, i);
    binds_aligned_rest(m, p, ly, nb);
    wheels_aligned_rest(m1, p, ly, p.wheels@.len() as int);
    let m2 = buttons::realigned(m, p, ly);
    handover::ownership_by_activity(p.wheels@, m2.wheels, m.wheels, p.binds@[i].key);
    owned_means_taken(p, m2.wheels, p.binds@[i].key);
}

// ---- how everything is let go ----------------------------------------------------------

proof fn fingers_lifted_each<C>(m: Model<C>, ly: Layout, n: int, pid: u64)
    requires
        0 <= n,
        n + 3000 <= u64::MAX,
        m.down.len() + 3000 <= u64::MAX,
    ensures
        ({
            let m2 = session::fingers_lifted(m, ly, n);
            let i = pid - 1000;
            for_pointer(m2.out, pid) == (if 0 <= i < n && fingers::slot(m.down, i) {
                for_pointer(m.out, pid).push(control::touch(control::ACTION_UP, pid, ly.point(i)))
            } else {
                for_pointer(m.out, pid)
            })
        }),
    decreases n,
{
    if n > 0 {
        fingers_lifted_each(m, ly, n - 1, pid);
        session::fingers_lifted_frame(m, ly, n - 1);
        let m1 = session::fingers_lifted(m, ly, n - 1);
        let up = control::touch(control::ACTION_UP, engine::bind_id(n - 1), ly.point(n - 1));
        one_command(m1.out, up, pid);
        assert(fingers::slot(m1.down, n - 1) == fingers::slot(m.down, n - 1));
    }
}

proof fn keys_upped_each(out: Seq<ControlCmd>, keys: Seq<u16>, n: int, pid: u64)
    ensures
        for_pointer(session::keys_upped(out, keys, n), pid) == for_pointer(out, pid),
    decreases n,
{
    if n > 0 {
        keys_upped_each(out, keys, n - 1, pid);
        one_command(
            session::keys_upped(out, keys, n - 1),
            control::key_cmd(false, keys[n - 1] as u32),
            pid,
        );
    }
}

proof fn wheels_lifted_each<C>(m: Model<C>, ly: Layout, n: int, pid: u64)
    requires
        0 <= n <= m.wheels.len(),
        m.wheels.len() + 3000 <= u64::MAX,
    ensures
        ({
            let m2 = session::wheels_lifted(m, ly, n);
            let j = pid - 2000;
            let at = if j < ly.wheels@.len() {
                ly.wheels@[j].center
            } else {
                m.wheels[j].last
            };
            for_pointer(m2.out, pid) == (if 0 <= j < n && m.wheels[j].down {
                for_pointer(m.out, pid).push(control::touch(control::ACTION_MOVE, pid, at)).push(
                    control::touch(control::ACTION_UP, pid, at),
                )
            } else {
                for_pointer(m.out, pid)
            })
        }),
    decreases n,
{
    if n > 0 {
        wheels_lifted_each(m, ly, n - 1, pid);
        session::wheels_lifted_frame(m, ly, n - 1);
        let m1 = session::wheels_lifted(m, ly, n - 1);
        let at = session::wheel_rest(m1, ly, n - 1);
        let own = engine::wheel_id(n - 1);
        let go = control::touch(control::ACTION_MOVE, own, at);
        let up = control::touch(control::ACTION_UP, own, at);
        one_command(m1.out, go, pid);
        one_command(m1.out.push(go), up, pid);
        assert(m1.wheels[n - 1] == m.wheels[n - 1]);
    }
}

/// How everything is let go when the mapping is switched off: each finger once and where it
/// belongs. That of a binding at the binding's place, that of a stick at the centre after going
/// back there, that of mouse look where it is. What was up is not touched.
pub proof fn each_finger_is_lifted_in_its_place<C>(
    m: Model<C>,
    sh: Shared<C>,
    ly: Layout,
    now: u64,
    k: int,
)
    requires
        sh.enabled,
        sh.control is Some,
        ly.fits(sh.profile),
        0 <= k < 1000,
        m.down.len() <= 1000,
        m.wheels.len() <= 1000,
    ensures
        ({
            let m2 = buttons::button_done(m, sh, ly, sh.profile.toggle_key, true, now);
            let (b, w) = ((1000 + k) as u64, (2000 + k) as u64);
            let center = if k < ly.wheels@.len() {
                ly.wheels@[k].center
            } else {
                m.wheels[k].last
            };
            &&& for_pointer(m2.out, b) == (if fingers::slot(m.down, k) {
                for_pointer(m.out, b).push(control::touch(control::ACTION_UP, b, ly.point(k)))
            } else {
                for_pointer(m.out, b)
            })
            &&& for_pointer(m2.out, w) == (if k < m.wheels.len() && m.wheels[k].down {
                for_pointer(m.out, w).push(control::touch(control::ACTION_MOVE, w, center)).push(
                    control::touch(control::ACTION_UP, w, center),
                )
            } else {
                for_pointer(m.out, w)
            })
            &&& for_pointer(m2.out, 3000) == (if m.aim.down {
                for_pointer(m.out, 3000).push(
                    control::touch(control::ACTION_UP, 3000, m.aim.cur),
                )
            } else {
                for_pointer(m.out, 3000)
            })
        }),
{
    let p = sh.profile;
    let m0 = buttons::noted(m, p.aim, p.toggle_key, true);
    let m1 = aim::lifted(m0);
    let up = control::touch(control::ACTION_UP, 3000, m.aim.cur);
    let n = session::slots(m1.down.len(), p.binds@.len());
    let f = session::fingers_lifted(m1, ly, n);
    let r = session::keys_released(f);
    session::fingers_lifted_frame(m1, ly, n);
    let pids = seq![(1000 + k) as u64, (2000 + k) as u64, 3000u64];
    assert forall|q: int| 0 <= q < 3 implies for_pointer(
        buttons::button_done(m, sh, ly, p.toggle_key, true, now).out,
        #[trigger] pids[q],
    ) == for_pointer(session::wheels_lifted(r, ly, r.wheels.len() as int).out, pids[q]) by {}
    lift_chain(m0, p, ly, (1000 + k) as u64);
    lift_chain(m0, p, ly, (2000 + k) as u64);
    lift_chain(m0, p, ly, 3000);
    assert(pids[0] == (1000 + k) as u64 && pids[1] == (2000 + k) as u64 && pids[2] == 3000);
}

/// What lifting everything sends to one pointer.
proof fn lift_chain<C>(m: Model<C>, p: Profile<C>, ly: Layout, pid: u64)
    requires
        m.down.len() <= 1000,
        m.wheels.len() <= 1000,
        p.binds@.len() + 3000 <= u64::MAX,
    ensures
        ({
            let m1 = aim::lifted(m);
            let n = session::slots(m1.down.len(), p.binds@.len());
            let r = session::keys_released(session::fingers_lifted(m1, ly, n));
            let end = for_pointer(session::wheels_lifted(r, ly, r.wheels.len() as int).out, pid);
            let start = for_pointer(m.out, pid);
            let i = pid - 1000;
            let j = pid - 2000;
            let at = if j < ly.wheels@.len() {
                ly.wheels@[j].center
            } else {
                m.wheels[j].last
            };
            &&& pid < 2000 ==> end == (if fingers::slot(m.down, i) {
                start.push(control::touch(control::ACTION_UP, pid, ly.point(i)))
            } else {
                start
            })
            &&& 2000 <= pid < 3000 ==> end == (if j < m.wheels.len() && m.wheels[j].down {
                start.push(control::touch(control::ACTION_MOVE, pid, at)).push(
                    control::touch(control::ACTION_UP, pid, at),
                )
            } else {
                start
            })
            &&& pid == 3000 ==> end == (if m.aim.down {
                start.push(control::touch(control::ACTION_UP, pid, m.aim.cur))
            } else {
                start
            })
        }),
{
    let m1 = aim::lifted(m);
    let n = session::slots(m1.down.len(), p.binds@.len());
    let f = session::fingers_lifted(m1, ly, n);
    let r = session::keys_released(f);
    one_command(m.out, control::touch(control::ACTION_UP, 3000, m.aim.cur), pid);
    session::fingers_lifted_frame(m1, ly, n);
    fingers_lifted_each(m1, ly, n, pid);
    keys_upped_each(f.out, f.keys, f.keys.len() as int, pid);
    wheels_lifted_each(r, ly, r.wheels.len() as int, pid);
}

proof fn only_wheel_switched<C>(
    m: Model<C>,
    p: Profile<C>,
    ly: Layout,
    code: u16,
    pressed: bool,
    n: int,
    j: int,
)
    requires
        0 <= j < p.wheels@.len(),
        n <= p.wheels@.len(),
        forall|k: int|
            0 <= k < p.wheels@.len() && k != j ==> !((#[trigger] p.wheels@[k]).temp is Some
                && p.wheels@[k].temp->0.key == code),
    ensures
        buttons::wheels_switched(m, p, ly, code, pressed, n) == (if n > j {
            buttons::wheel_switched(m, p, ly, j, code, pressed)
        } else {
            m
        }),
    decreases n,
{
    if n > 0 {
        only_wheel_switched(m, p, ly, code, pressed, n - 1, j);
        assert(n - 1 != j ==> !(p.wheels@[n - 1].temp is Some && p.wheels@[n - 1].temp->0.key
            == code));
    }
}

proof fn alignment_sends_no_wheel<C>(m: Model<C>, p: Profile<C>, ly: Layout, n: int, pid: u64)
    requires
        n <= p.binds@.len() <= 1000,
        pid >= 2000,
    ensures
        for_pointer(reconcile::binds_aligned(m, p, ly, n).out, pid) == for_pointer(m.out, pid),
    decreases n,
{
    if n > 0 {
        alignment_sends_no_wheel(m, p, ly, n - 1, pid);
        let m1 = reconcile::binds_aligned(m, p, ly, n - 1);
        let b = p.binds@[n - 1];
        let own = engine::bind_id(n - 1);
        let at = ly.point(n - 1);
        one_command(m1.out, control::touch(control::ACTION_DOWN, own, at), pid);
        one_command(m1.out, control::touch(control::ACTION_UP, own, at), pid);
        if b.action is AndroidKey {
            one_command(m1.out, control::key_cmd(true, b.action->keycode), pid);
            one_command(m1.out, control::key_cmd(false, b.action->keycode), pid);
        }
    }
}

/// A wheel that is switched off returns: if its finger was down it goes back to the centre and is
/// lifted there, just once, and no direction pushes the stick any more.
pub proof fn a_wheel_switched_off_returns<C>(
    m: Model<C>,
    sh: Shared<C>,
    ly: Layout,
    pressed: bool,
    now: u64,
    j: int,
)
    requires
        runs(sh),
        settled(m, sh.profile),
        ly.fits(sh.profile),
        sh.profile.binds@.len() <= 1000,
        0 <= j < sh.profile.wheels@.len() <= 1000,
        sh.profile.wheels@[j].temp is Some,
        !(sh.profile.wheels@[j].temp->0.key == sh.profile.toggle_key && pressed),
        forall|k: int|
            0 <= k < sh.profile.wheels@.len() && k != j ==> !((
            #[trigger] sh.profile.wheels@[k]).temp is Some && sh.profile.wheels@[k].temp->0.key
                == sh.profile.wheels@[j].temp->0.key),
        m.wheels[j].active,
        !buttons::button_done(
            m,
            sh,
            ly,
            sh.profile.wheels@[j].temp->0.key,
            pressed,
            now,
        ).wheels[j].active,
    ensures
        ({
            let code = sh.profile.wheels@[j].temp->0.key;
            let m2 = buttons::button_done(m, sh, ly, code, pressed, now);
            let pid = (2000 + j) as u64;
            let center = ly.wheels@[j].center;
            let st = m2.wheels[j];
            &&& !st.down
            &&& !st.pressed.up && !st.pressed.down && !st.pressed.left && !st.pressed.right
            &&& for_pointer(m2.out, pid) == (if m.wheels[j].down {
                for_pointer(m.out, pid).push(
                    control::touch(control::ACTION_MOVE, pid, center),
                ).push(control::touch(control::ACTION_UP, pid, center))
            } else {
                for_pointer(m.out, pid)
            })
        }),
{
    let p = sh.profile;
    let code = p.wheels@[j].temp->0.key;
    let nb = p.binds@.len() as int;
    let nw = p.wheels@.len() as int;
    let pid = (2000 + j) as u64;
    let center = ly.wheels@[j].center;
    a_wheel_obeys_its_key(m, sh, ly, code, pressed, now, j);
    running(m, sh, ly, code, pressed, now);
    let m1 = buttons::counted(buttons::noted(m, p.aim, code, pressed));
    assert(reconcile::enables(p.wheels@[j], code));
    only_wheel_switched(m1, p, ly, code, pressed, nw, j);
    let off = reconcile::wheel_off(m1, j, center);
    let go = control::touch(control::ACTION_MOVE, pid, center);
    one_command(m1.out, go, pid);
    one_command(m1.out.push(go), control::touch(control::ACTION_UP, pid, center), pid);
    alignment_sends_no_wheel(off, p, ly, nb, pid);
    binds_aligned_rest(off, p, ly, nb);
    all_sticks(reconcile::binds_aligned(off, p, ly, nb), p, ly, nw, j);
}

/// The window's wish to switch the mapping off is followed once, when it appears, and then
/// everything is let go: the device, if it was in step, holds nothing afterwards, and the mouse is
/// ours again. A wish that was followed already changes nothing, and neither does none.
pub proof fn the_window_lets_go_too<C>(
    m: Model<C>,
    d: laws::Device,
    wish: bool,
    p: Profile<C>,
    ly: Layout,
)
    requires
        laws::in_step(m, d),
        laws::small_profile(p),
    ensures
        ({
            let m2 = session::wish_followed(m, wish, true, p, ly);
            &&& m2.toolbar_prev == wish
            &&& wish && !m.toolbar_prev ==> {
                &&& laws::device_after(d, m2.out).pointers == Set::<u64>::empty()
                &&& laws::device_after(d, m2.out).keys == Set::<u32>::empty()
                &&& forall|i: int| !#[trigger] fingers::slot(m2.down, i)
                &&& m2.keys.len() == 0
                &&& !m2.aim.down
                &&& !m2.aim.released
            }
            &&& !wish || m.toolbar_prev ==> m2 == (Model { toolbar_prev: wish, ..m })
        }),
{
    laws::switching_off_leaves_nothing(m, d, p, ly);
    let off = session::switched_off(m, true, p, ly);
    let m2 = session::wish_followed(m, wish, true, p, ly);
    if wish && !m.toolbar_prev {
        assert(m2.out == off.out);
        assert(m2.down == off.down);
    }
}

/// Switching the mapping on without a live channel takes nothing up: nothing is sent and no
/// finger goes down, but the mouse is ours again.
pub proof fn switching_on_needs_a_channel<C>(m: Model<C>, sh: Shared<C>, ly: Layout, now: u64)
    requires
        !sh.enabled,
        sh.control is None || !sh.control->0.connected,
    ensures
        ({
            let m2 = buttons::button_done(m, sh, ly, sh.profile.toggle_key, true, now);
            &&& m2.out == m.out
            &&& m2.down == m.down
            &&& m2.wheels == m.wheels
            &&& m2.keys == m.keys
            &&& !m2.aim.released
        }),
{
}

/// A press that finds no room is noted. When a stick is pushed and its finger is up while all ten
/// pointers are in use, the finger stays up, nothing is sent to it, and the engine shows that a
/// press of the wheel was given up.
pub proof fn a_crowded_stick_is_noted<C>(
    m: Model<C>,
    sh: Shared<C>,
    ly: Layout,
    code: u16,
    pressed: bool,
    now: u64,
)
    requires
        runs(sh),
        settled(m, sh.profile),
        ly.fits(sh.profile),
        !(code == sh.profile.toggle_key && pressed),
        sh.profile.wheels@.len() == 1,
        sh.profile.wheels@[0].temp is None,
        ({
            let w = sh.profile.wheels@[0];
            let held = if pressed {
                m.held.insert(code)
            } else {
                m.held.remove(code)
            };
            &&& code == w.up || code == w.down || code == w.left || code == w.right
            &&& held.contains(w.left) != held.contains(w.right) || held.contains(w.up)
                != held.contains(w.down)
        }),
        !m.wheels[0].down,
        engine::total(m) >= 10,
    ensures
        ({
            let m2 = buttons::button_done(m, sh, ly, code, pressed, now);
            &&& m2.out == m.out
            &&& !m2.wheels[0].down
            &&& m2.live.refused == m.live.refused.wrapping_add(1)
            &&& m2.live.last_refused == sh.profile.wheels@[0].up
        }),
{
    let p = sh.profile;
    running(m, sh, ly, code, pressed, now);
    let m1 = buttons::counted(buttons::noted(m, p.aim, code, pressed));
    assert(!buttons::switches_any(p.wheels@, code)) by {
        if buttons::switches_any(p.wheels@, code) {
            let k = choose|k: int|
                0 <= k < p.wheels@.len() && reconcile::enables(#[trigger] p.wheels@[k], code);
            assert(k == 0);
        }
    }
    assert(buttons::steers_any(p.wheels@, m1.wheels, code)) by {
        assert(reconcile::engaged(p.wheels@, m1.wheels, 0));
        assert(p.wheels@[0].steers(code));
    }
    let r = reconcile::wheel_read(m1, p, 0);
    reconcile::downs_update(m1.wheels, 0, r.wheels[0]);
    assert(reconcile::wheels_aligned(m1, p, ly, 0) == m1);
    assert(reconcile::wheels_aligned(m1, p, ly, 1) == reconcile::wheel_aligned(m1, p, ly, 0));
}

} // verus!
