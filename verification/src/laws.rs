//! Laws of the engine as a whole: what the device holds is what the engine thinks it holds,
//! and never more than the device can hold.

use vstd::prelude::*;
use crate::aim;
use crate::buttons;
use crate::control::{self, ControlCmd};
use crate::engine::{self, AIM_PID, AimState, Model, SchedAct, Shared, WheelState};
use crate::fingers::{self, DEVICE_MAX_POINTERS};
use crate::keymap::{Action, Aim, KeyBind, Profile, Wheel};
use crate::layout::{BindPx, Layout, WheelPx};
use crate::reconcile;
use crate::session;

verus! {

/// What the device holds down.
#[verifier::ext_equal]
pub struct Device {
    pub pointers: Set<u64>,
    pub keys: Set<u32>,
}

/// The device after one command.
pub open spec fn received(d: Device, c: ControlCmd) -> Device {
    match c {
        ControlCmd::Touch { action, pointer_id, .. } => if action == control::ACTION_DOWN {
            Device { pointers: d.pointers.insert(pointer_id), ..d }
        } else if action == control::ACTION_UP {
            Device { pointers: d.pointers.remove(pointer_id), ..d }
        } else {
            d
        },
        ControlCmd::Key { action, keycode } => if action == control::ACTION_DOWN {
            Device { keys: d.keys.insert(keycode), ..d }
        } else if action == control::ACTION_UP {
            Device { keys: d.keys.remove(keycode), ..d }
        } else {
            d
        },
    }
}

/// The device after a series of commands.
pub open spec fn device_after(d: Device, out: Seq<ControlCmd>) -> Device
    decreases out.len(),
{
    if out.len() == 0 {
        d
    } else {
        received(device_after(d, out.drop_last()), out.last())
    }
}

/// The pointer ids of the slots that are down, counted from `first`.
pub open spec fn pointer_ids(s: Seq<bool>, first: int) -> Set<u64> {
    Set::new(|p: u64| fingers::slot(s, p - first))
}

pub open spec fn aim_ids(down: bool) -> Set<u64> {
    if down {
        set![AIM_PID]
    } else {
        Set::empty()
    }
}

/// The pointers that the engine thinks are down.
pub open spec fn held_pointers<C>(m: Model<C>) -> Set<u64> {
    pointer_ids(m.down, 1000) + pointer_ids(engine::downs(m.wheels), 2000) + aim_ids(m.aim.down)
}

/// The Android keys that the engine thinks are down.
pub open spec fn key_ids(keys: Seq<u16>) -> Set<u32> {
    Set::new(|k: u32| k <= 0xffff && keys.contains(k as u16))
}

pub open spec fn thought<C>(m: Model<C>) -> Device {
    Device { pointers: held_pointers(m), keys: key_ids(m.keys) }
}

/// The ids of bindings, wheels and aim do not overlap.
pub open spec fn small<C>(m: Model<C>) -> bool {
    m.down.len() <= 1000 && m.wheels.len() <= 1000
}

/// The same of a profile, and its Android key codes fit the range that is kept.
pub open spec fn small_profile<C>(p: Profile<C>) -> bool {
    &&& p.binds@.len() <= 1000
    &&& p.wheels@.len() <= 1000
    &&& forall|i: int|
        0 <= i < p.binds@.len() ==> ((#[trigger] p.binds@[i]).action matches Action::AndroidKey {
            keycode,
        } ==> keycode <= 0xffff)
}

/// At no time while the commands arrive does the device hold more pointers than it can.
pub open spec fn roomy(d: Device, out: Seq<ControlCmd>) -> bool {
    forall|n: int|
        0 <= n <= out.len() ==> (#[trigger] device_after(d, out.take(n))).pointers.finite()
            && device_after(d, out.take(n)).pointers.len() <= DEVICE_MAX_POINTERS
}

/// Only fingers of bindings are scheduled to be lifted.
pub open spec fn binding_schedule(s: Seq<(u64, SchedAct)>) -> bool {
    forall|i: int|
        0 <= i < s.len() ==> ((#[trigger] s[i]).1 matches SchedAct::Up { pid, .. } ==> 1000 <= pid
            < 2000)
}

/// Engine and device agree: after everything queued has arrived, the device, which held `d`
/// before, holds exactly what the engine thinks, it was never asked for too much, and only
/// fingers of bindings are scheduled to be lifted.
pub open spec fn in_step<C>(m: Model<C>, d: Device) -> bool {
    &&& small(m)
    &&& engine::sane(m)
    &&& m.keys.no_duplicates()
    &&& binding_schedule(m.sched)
    &&& device_after(d, m.out) == thought(m)
    &&& roomy(d, m.out)
}

proof fn ids_len(s: Seq<bool>, first: int)
    requires
        0 <= first,
        first + s.len() <= u64::MAX,
    ensures
        pointer_ids(s, first).finite(),
        pointer_ids(s, first).len() == fingers::count_true(s),
    decreases s.len(),
{
    if s.len() == 0 {
        assert(pointer_ids(s, first) =~= Set::empty());
    } else {
        let t = s.drop_last();
        ids_len(t, first);
        let last = (first + s.len() - 1) as u64;
        if s.last() {
            assert(pointer_ids(s, first) =~= pointer_ids(t, first).insert(last));
        } else {
            assert(pointer_ids(s, first) =~= pointer_ids(t, first));
        }
    }
}

/// The engine thinks of exactly as many pointers as it counts.
pub proof fn held_pointers_count<C>(m: Model<C>)
    requires
        small(m),
    ensures
        held_pointers(m).finite(),
        held_pointers(m).len() == engine::total(m),
{
    let a = pointer_ids(m.down, 1000);
    let b = pointer_ids(engine::downs(m.wheels), 2000);
    let c = aim_ids(m.aim.down);
    ids_len(m.down, 1000);
    ids_len(engine::downs(m.wheels), 2000);
    vstd::set_lib::lemma_set_disjoint_lens(a, b);
    assert(a.disjoint(b));
    vstd::set_lib::lemma_set_disjoint_lens(a + b, c);
    assert((a + b).disjoint(c));
}

proof fn one_more<C>(m: Model<C>, m2: Model<C>, d: Device, c: ControlCmd)
    requires
        in_step(m, d),
        m2.out == m.out.push(c),
        small(m2),
        engine::sane(m2),
        m2.keys.no_duplicates(),
        binding_schedule(m2.sched),
        received(thought(m), c) == thought(m2),
    ensures
        in_step(m2, d),
{
    assert(m2.out.drop_last() =~= m.out);
    held_pointers_count(m2);
    assert forall|n: int| 0 <= n <= m2.out.len() implies (#[trigger] device_after(
        d,
        m2.out.take(n),
    )).pointers.finite() && device_after(d, m2.out.take(n)).pointers.len()
        <= DEVICE_MAX_POINTERS by {
        if n <= m.out.len() {
            assert(m2.out.take(n) =~= m.out.take(n));
        } else {
            assert(m2.out.take(n) =~= m2.out);
        }
    }
}

proof fn no_more<C>(m: Model<C>, m2: Model<C>, d: Device)
    requires
        in_step(m, d),
        m2.out == m.out,
        m2.down == m.down,
        engine::downs(m2.wheels) == engine::downs(m.wheels),
        m2.aim.down == m.aim.down,
        m2.keys == m.keys,
        binding_schedule(m2.sched),
    ensures
        in_step(m2, d),
{
    assert(m2.wheels.len() == engine::downs(m2.wheels).len());
    assert(m.wheels.len() == engine::downs(m.wheels).len());
}

// ---- single steps ----------------------------------------------------------------------

proof fn finger_down_keeps<C>(m: Model<C>, d: Device, idx: int, at: (i32, i32))
    requires
        in_step(m, d),
        0 <= idx < 1000,
        fingers::can_press(m.down, idx, engine::reserved(m) as int),
    ensures
        in_step(engine::finger_down(m, idx, at), d),
{
    let m2 = engine::finger_down(m, idx, at);
    engine::pool_after_finger(m, idx);
    let pid = engine::bind_id(idx);
    assert(pointer_ids(m2.down, 1000) =~= pointer_ids(m.down, 1000).insert(pid));
    assert(held_pointers(m2) =~= held_pointers(m).insert(pid));
    one_more(m, m2, d, control::touch(control::ACTION_DOWN, pid, at));
}

proof fn finger_up_keeps<C>(m: Model<C>, d: Device, idx: int, at: (i32, i32))
    requires
        in_step(m, d),
        0 <= idx < 1000,
    ensures
        in_step(engine::finger_up(m, idx, at), d),
{
    if fingers::slot(m.down, idx) {
        let m2 = engine::finger_up(m, idx, at);
        engine::pool_after_finger(m, idx);
        let pid = engine::bind_id(idx);
        assert(pointer_ids(m2.down, 1000) =~= pointer_ids(m.down, 1000).remove(pid));
        assert(held_pointers(m2) =~= held_pointers(m).remove(pid));
        one_more(m, m2, d, control::touch(control::ACTION_UP, pid, at));
    }
}

proof fn key_down_keeps<C>(m: Model<C>, d: Device, keycode: u32)
    requires
        in_step(m, d),
        keycode <= 0xffff,
    ensures
        in_step(engine::key_down(m, keycode), d),
{
    let code = keycode as u16;
    if !m.keys.contains(code) {
        let m2 = engine::key_down(m, keycode);
        assert forall|k: u32| key_ids(m2.keys).contains(k) == key_ids(m.keys).insert(
            keycode,
        ).contains(k) by {
            if k <= 0xffff {
                if m.keys.contains(k as u16) {
                    let i = m.keys.index_of(k as u16);
                    assert(m2.keys[i] == k as u16);
                }
                if m2.keys.contains(k as u16) {
                    let i = m2.keys.index_of(k as u16);
                    assert(i == m.keys.len() || m.keys[i] == k as u16);
                }
                assert(m2.keys[m.keys.len() as int] == code);
            }
        }
        assert(key_ids(m2.keys) =~= key_ids(m.keys).insert(keycode));
        one_more(m, m2, d, control::key_cmd(true, keycode));
    }
}

proof fn removal(s: Seq<u16>, code: u16)
    requires
        s.no_duplicates(),
        s.contains(code),
    ensures
        fingers::key_removed(s, code).no_duplicates(),
        forall|k: u16|
            fingers::key_removed(s, code).contains(k) <==> (s.contains(k) && k != code),
{
    let i = s.index_of(code);
    let t = s.remove(i);
    assert forall|k: u16| t.contains(k) <==> (s.contains(k) && k != code) by {
        if t.contains(k) {
            let j = t.index_of(k);
            let j2 = if j < i {
                j
            } else {
                j + 1
            };
            assert(s[j2] == k);
            assert(j2 != i);
        }
        if s.contains(k) && k != code {
            let j = s.index_of(k);
            let j2 = if j < i {
                j
            } else {
                j - 1
            };
            assert(t[j2] == k);
        }
    }
}

proof fn key_up_keeps<C>(m: Model<C>, d: Device, keycode: u32)
    requires
        in_step(m, d),
        keycode <= 0xffff,
    ensures
        in_step(engine::key_up(m, keycode), d),
{
    let code = keycode as u16;
    if m.keys.contains(code) {
        let m2 = engine::key_up(m, keycode);
        removal(m.keys, code);
        assert forall|k: u32| key_ids(m2.keys).contains(k) == key_ids(m.keys).remove(
            keycode,
        ).contains(k) by {
            if k <= 0xffff {
                assert(m2.keys.contains(k as u16) <==> (m.keys.contains(k as u16) && k as u16
                    != code));
            }
        }
        assert(key_ids(m2.keys) =~= key_ids(m.keys).remove(keycode));
        one_more(m, m2, d, control::key_cmd(false, keycode));
    }
}

proof fn try_press_keeps<C>(m: Model<C>, d: Device, idx: int, code: u16, at: (i32, i32))
    requires
        in_step(m, d),
        0 <= idx < 1000,
    ensures
        in_step(engine::try_press(m, idx, code, at), d),
{
    if fingers::can_press(m.down, idx, engine::reserved(m) as int) {
        finger_down_keeps(m, d, idx, at);
    } else {
        no_more(m, engine::refused(m, code), d);
    }
}

// ---- wheels ----------------------------------------------------------------------------

proof fn wheel_ids(m: Seq<WheelState>, j: int, w: WheelState)
    requires
        0 <= j < m.len() <= 1000,
    ensures
        w.down ==> pointer_ids(engine::downs(m.update(j, w)), 2000) == pointer_ids(
            engine::downs(m),
            2000,
        ).insert(engine::wheel_id(j)),
        !w.down ==> pointer_ids(engine::downs(m.update(j, w)), 2000) == pointer_ids(
            engine::downs(m),
            2000,
        ).remove(engine::wheel_id(j)),
{
    let a = engine::downs(m);
    let b = engine::downs(m.update(j, w));
    assert(b =~= a.update(j, w.down));
    if w.down {
        assert(pointer_ids(b, 2000) =~= pointer_ids(a, 2000).insert(engine::wheel_id(j)));
    } else {
        assert(pointer_ids(b, 2000) =~= pointer_ids(a, 2000).remove(engine::wheel_id(j)));
    }
}

proof fn moved_keeps<C>(m: Model<C>, d: Device, pid: u64, at: (i32, i32))
    requires
        in_step(m, d),
    ensures
        in_step(engine::emit(m, control::touch(control::ACTION_MOVE, pid, at)), d),
{
    let m2 = engine::emit(m, control::touch(control::ACTION_MOVE, pid, at));
    one_more(m, m2, d, control::touch(control::ACTION_MOVE, pid, at));
}

proof fn wheel_lifted_keeps<C>(m: Model<C>, d: Device, j: int, at: (i32, i32))
    requires
        in_step(m, d),
        0 <= j < m.wheels.len(),
    ensures
        in_step(reconcile::wheel_lifted(m, j, at), d),
        reconcile::wheel_lifted(m, j, at).wheels.len() == m.wheels.len(),
{
    if m.wheels[j].down {
        let pid = engine::wheel_id(j);
        moved_keeps(m, d, pid, at);
        let m1 = engine::emit(m, control::touch(control::ACTION_MOVE, pid, at));
        let m2 = reconcile::wheel_lifted(m, j, at);
        let w = WheelState { down: false, ..m.wheels[j] };
        wheel_ids(m.wheels, j, w);
        reconcile::downs_update(m.wheels, j, w);
        assert(held_pointers(m2) =~= held_pointers(m1).remove(pid));
        one_more(m1, m2, d, control::touch(control::ACTION_UP, pid, at));
    }
}

proof fn wheel_pushed_keeps<C>(m: Model<C>, d: Device, j: int, px: WheelPx)
    requires
        in_step(m, d),
        0 <= j < m.wheels.len(),
    ensures
        in_step(reconcile::wheel_pushed(m, j, px), d),
        reconcile::wheel_pushed(m, j, px).wheels.len() == m.wheels.len(),
{
    let st = m.wheels[j];
    if reconcile::centred(st.pressed) {
        wheel_lifted_keeps(m, d, j, px.center);
    } else if reconcile::wheel_crowded_out(m, j) {
    } else {
        let t = reconcile::push_target(px, st.pressed);
        let pid = engine::wheel_id(j);
        let m2 = reconcile::wheel_pushed(m, j, px);
        let w = WheelState { down: true, last: t, ..st };
        reconcile::downs_update(m.wheels, j, w);
        wheel_ids(m.wheels, j, w);
        if !st.down {
            let m1 = Model {
                wheels: m.wheels.update(j, w),
                ..engine::emit(m, control::touch(control::ACTION_DOWN, pid, px.center))
            };
            assert(held_pointers(m1) =~= held_pointers(m).insert(pid));
            one_more(m, m1, d, control::touch(control::ACTION_DOWN, pid, px.center));
            moved_keeps(m1, d, pid, t);
            assert(m2 =~= engine::emit(m1, control::touch(control::ACTION_MOVE, pid, t)));
        } else {
            assert(engine::downs(m.wheels.update(j, w)) =~= engine::downs(m.wheels));
            if st.last != t {
                moved_keeps(m, d, pid, t);
                no_more(engine::emit(m, control::touch(control::ACTION_MOVE, pid, t)), m2, d);
            } else {
                no_more(m, m2, d);
            }
        }
    }
}

proof fn wheel_aligned_keeps<C>(m: Model<C>, d: Device, p: Profile<C>, ly: Layout, j: int)
    requires
        in_step(m, d),
        0 <= j,
    ensures
        in_step(reconcile::wheel_aligned(m, p, ly, j), d),
        reconcile::wheel_aligned(m, p, ly, j).wheels.len() == m.wheels.len(),
{
    if j < m.wheels.len() {
        let m1 = reconcile::wheel_read(m, p, j);
        assert(engine::downs(m1.wheels) =~= engine::downs(m.wheels));
        no_more(m, m1, d);
        wheel_pushed_keeps(m1, d, j, ly.wheels@[j]);
        let m2 = reconcile::wheel_pushed(m1, j, ly.wheels@[j]);
        no_more(m2, engine::refused(m2, p.wheels@[j].up), d);
    }
}

proof fn wheels_aligned_keeps<C>(m: Model<C>, d: Device, p: Profile<C>, ly: Layout, n: int)
    requires
        in_step(m, d),
    ensures
        in_step(reconcile::wheels_aligned(m, p, ly, n), d),
        reconcile::wheels_aligned(m, p, ly, n).wheels.len() == m.wheels.len(),
    decreases n,
{
    if n > 0 {
        wheels_aligned_keeps(m, d, p, ly, n - 1);
        wheel_aligned_keeps(reconcile::wheels_aligned(m, p, ly, n - 1), d, p, ly, n - 1);
    }
}

proof fn wheel_off_keeps<C>(m: Model<C>, d: Device, j: int, at: (i32, i32))
    requires
        in_step(m, d),
        0 <= j < m.wheels.len(),
    ensures
        in_step(reconcile::wheel_off(m, j, at), d),
{
    let m1 = Model {
        wheels: m.wheels.update(
            j,
            WheelState { active: false, pressed: engine::no_dirs(), ..m.wheels[j] },
        ),
        ..m
    };
    assert(engine::downs(m1.wheels) =~= engine::downs(m.wheels));
    no_more(m, m1, d);
    wheel_lifted_keeps(m1, d, j, at);
}

// ---- bindings --------------------------------------------------------------------------

proof fn bind_aligned_keeps<C>(m: Model<C>, d: Device, p: Profile<C>, ly: Layout, i: int)
    requires
        in_step(m, d),
        small_profile(p),
        0 <= i < p.binds@.len(),
    ensures
        in_step(reconcile::bind_aligned(m, p, ly, i), d),
{
    let b = p.binds@[i];
    match b.action {
        Action::Hold { .. } => {
            try_press_keeps(m, d, i, b.key, ly.point(i));
            finger_up_keeps(m, d, i, ly.point(i));
        },
        Action::AndroidKey { keycode } => {
            key_down_keeps(m, d, keycode);
            key_up_keeps(m, d, keycode);
        },
        _ => {},
    }
}

proof fn binds_aligned_keeps<C>(m: Model<C>, d: Device, p: Profile<C>, ly: Layout, n: int)
    requires
        in_step(m, d),
        small_profile(p),
        n <= p.binds@.len(),
    ensures
        in_step(reconcile::binds_aligned(m, p, ly, n), d),
    decreases n,
{
    if n > 0 {
        binds_aligned_keeps(m, d, p, ly, n - 1);
        bind_aligned_keeps(reconcile::binds_aligned(m, p, ly, n - 1), d, p, ly, n - 1);
    }
}

proof fn realigned_keeps<C>(m: Model<C>, d: Device, p: Profile<C>, ly: Layout)
    requires
        in_step(m, d),
        small_profile(p),
    ensures
        in_step(buttons::realigned(m, p, ly), d),
{
    binds_aligned_keeps(m, d, p, ly, p.binds@.len() as int);
    wheels_aligned_keeps(
        reconcile::binds_aligned(m, p, ly, p.binds@.len() as int),
        d,
        p,
        ly,
        p.wheels@.len() as int,
    );
}

proof fn all_gave_way_keeps<C>(
    m: Model<C>,
    d: Device,
    p: Profile<C>,
    ly: Layout,
    w: Wheel<C>,
    n: int,
)
    requires
        in_step(m, d),
        small_profile(p),
        n <= p.binds@.len(),
    ensures
        in_step(reconcile::all_gave_way(m, p, ly, w, n), d),
    decreases n,
{
    if n > 0 {
        all_gave_way_keeps(m, d, p, ly, w, n - 1);
        let m1 = reconcile::all_gave_way(m, p, ly, w, n - 1);
        match p.binds@[n - 1].action {
            Action::AndroidKey { keycode } => {
                key_up_keeps(m1, d, keycode);
            },
            _ => {
                finger_up_keeps(m1, d, n - 1, ly.point(n - 1));
            },
        }
    }
}

proof fn fingers_lifted_keeps<C>(m: Model<C>, d: Device, ly: Layout, n: int)
    requires
        in_step(m, d),
        n <= 1000,
    ensures
        in_step(session::fingers_lifted(m, ly, n), d),
    decreases n,
{
    if n > 0 {
        fingers_lifted_keeps(m, d, ly, n - 1);
        finger_up_keeps(session::fingers_lifted(m, ly, n - 1), d, n - 1, ly.point(n - 1));
    }
}

proof fn keys_released_keeps<C>(m: Model<C>, d: Device, n: int)
    requires
        in_step(m, d),
        0 <= n <= m.keys.len(),
    ensures
        in_step(
            Model { keys: m.keys.skip(n), out: session::keys_upped(m.out, m.keys, n), ..m },
            d,
        ),
    decreases n,
{
    if n == 0 {
        assert(m.keys.skip(0) =~= m.keys);
    } else {
        keys_released_keeps(m, d, n - 1);
        let m1 = Model {
            keys: m.keys.skip(n - 1),
            out: session::keys_upped(m.out, m.keys, n - 1),
            ..m
        };
        let m2 = Model { keys: m.keys.skip(n), out: session::keys_upped(m.out, m.keys, n), ..m };
        let code = m.keys[n - 1];
        assert forall|k: u32| key_ids(m2.keys).contains(k) == key_ids(m1.keys).remove(
            code as u32,
        ).contains(k) by {
            if k <= 0xffff {
                let c = k as u16;
                if m2.keys.contains(c) {
                    let i = m2.keys.index_of(c);
                    assert(m1.keys[i + 1] == c);
                    assert(m.keys[n + i] == c);
                }
                if m1.keys.contains(c) && c != code {
                    let i = m1.keys.index_of(c);
                    assert(i > 0);
                    assert(m2.keys[i - 1] == c);
                }
            }
        }
        assert(key_ids(m2.keys) =~= key_ids(m1.keys).remove(code as u32));
        assert(m2.keys.no_duplicates());
        one_more(m1, m2, d, control::key_cmd(false, code as u32));
    }
}

proof fn all_keys_released_keeps<C>(m: Model<C>, d: Device)
    requires
        in_step(m, d),
    ensures
        in_step(session::keys_released(m), d),
{
    keys_released_keeps(m, d, m.keys.len() as int);
    assert(m.keys.skip(m.keys.len() as int) =~= Seq::<u16>::empty());
}

proof fn wheels_lifted_keeps<C>(m: Model<C>, d: Device, ly: Layout, n: int)
    requires
        in_step(m, d),
        n <= m.wheels.len(),
    ensures
        in_step(session::wheels_lifted(m, ly, n), d),
    decreases n,
{
    if n > 0 {
        wheels_lifted_keeps(m, d, ly, n - 1);
        session::wheels_lifted_frame(m, ly, n - 1);
        let m1 = session::wheels_lifted(m, ly, n - 1);
        wheel_lifted_keeps(m1, d, n - 1, session::wheel_rest(m1, ly, n - 1));
    }
}

/// A table in which nothing is down may be cleared without telling the device.
proof fn nothing_down_keeps<C>(m: Model<C>, d: Device, n: nat)
    requires
        in_step(m, d),
        n <= 1000,
        forall|i: int| 0 <= i < m.down.len() ==> !m.down[i],
    ensures
        in_step(Model { down: Seq::new(n, |i: int| false), ..m }, d),
        in_step(Model { down: Seq::empty(), ..m }, d),
{
    let f = Seq::new(n, |i: int| false);
    let e = Seq::<bool>::empty();
    assert(pointer_ids(f, 1000) =~= pointer_ids(m.down, 1000));
    assert(pointer_ids(e, 1000) =~= pointer_ids(m.down, 1000));
    fingers::count_none(m.down);
    fingers::count_none(f);
    fingers::count_none(e);
}

proof fn padded_keeps<C>(m: Model<C>, d: Device, n: nat)
    requires
        in_step(m, d),
        n <= 1000,
    ensures
        in_step(Model { down: fingers::padded(m.down, n), ..m }, d),
{
    let f = fingers::padded(m.down, n);
    assert(pointer_ids(f, 1000) =~= pointer_ids(m.down, 1000));
    if m.down.len() < n {
        fingers::count_padding(m.down, (n - m.down.len()) as nat);
    }
}

proof fn binds_released_keeps<C>(m: Model<C>, d: Device, p: Profile<C>, ly: Layout)
    requires
        in_step(m, d),
        small_profile(p),
    ensures
        in_step(session::binds_released(m, p, ly), d),
        forall|i: int|
            0 <= i < session::binds_released(m, p, ly).down.len() ==> !session::binds_released(
                m,
                p,
                ly,
            ).down[i],
{
    let n = session::slots(m.down.len(), p.binds@.len());
    fingers_lifted_keeps(m, d, ly, n);
    session::fingers_lifted_frame(m, ly, n);
    let m1 = session::fingers_lifted(m, ly, n);
    all_keys_released_keeps(m1, d);
    let m2 = session::keys_released(m1);
    nothing_down_keeps(m2, d, m2.down.len());
}

proof fn followed_keeps<C>(m: Model<C>, d: Device, p: Profile<C>, ly: Layout)
    requires
        in_step(m, d),
        small_profile(p),
    ensures
        in_step(session::followed(m, p, ly), d),
{
    let print = reconcile::binds_print(p.binds@);
    let m1 = if print != m.binds_sig {
        Model { binds_sig: print, down: Seq::empty(), ..session::binds_released(m, p, ly) }
    } else {
        m
    };
    if print != m.binds_sig {
        binds_released_keeps(m, d, p, ly);
        let r = session::binds_released(m, p, ly);
        nothing_down_keeps(r, d, 0);
        no_more(Model { down: Seq::empty(), ..r }, m1, d);
    }
    padded_keeps(m1, d, p.binds@.len());
    let m2 = session::binds_followed(m, p, ly);
    if reconcile::wheels_print(p.wheels@) != m2.wheel_sig {
        let n = m2.wheels.len() as int;
        wheels_lifted_keeps(m2, d, ly, n);
        session::wheels_lifted_frame(m2, ly, n);
        let m3 = session::wheels_lifted(m2, ly, n);
        let m4 = session::wheels_followed(m2, p, ly);
        let a = engine::downs(m3.wheels);
        let b = engine::downs(m4.wheels);
        assert forall|k: int| 0 <= k < a.len() implies !a[k] by {
            assert(!m3.wheels[k].down);
        }
        assert(pointer_ids(a, 2000) =~= pointer_ids(b, 2000));
        fingers::count_none(a);
        fingers::count_none(b);
    }
}

// ---- aim -------------------------------------------------------------------------------

proof fn aim_changed<C>(m: Model<C>, m2: Model<C>, d: Device, c: ControlCmd)
    requires
        in_step(m, d),
        m2 == (Model { aim: m2.aim, out: m.out.push(c), ..m }),
        m.aim.down != m2.aim.down,
        m2.aim.down ==> engine::total(m) < DEVICE_MAX_POINTERS,
        (c matches ControlCmd::Touch { action, pointer_id, .. } && pointer_id == AIM_PID && action
            == if m2.aim.down {
            control::ACTION_DOWN
        } else {
            control::ACTION_UP
        }),
    ensures
        in_step(m2, d),
        engine::total(m2) + engine::flag(m.aim.down) == engine::total(m) + engine::flag(
            m2.aim.down,
        ),
{
    if m2.aim.down {
        assert(held_pointers(m2) =~= held_pointers(m).insert(AIM_PID));
    } else {
        assert(held_pointers(m2) =~= held_pointers(m).remove(AIM_PID));
    }
    one_more(m, m2, d, c);
}

proof fn aim_lifted_keeps<C>(m: Model<C>, d: Device)
    requires
        in_step(m, d),
    ensures
        in_step(aim::lifted(m), d),
        engine::total(aim::lifted(m)) + engine::flag(m.aim.down) == engine::total(m),
{
    if m.aim.down {
        aim_changed(
            m,
            aim::lifted(m),
            d,
            control::touch(control::ACTION_UP, AIM_PID, m.aim.cur),
        );
    } else {
        no_more(m, aim::lifted(m), d);
    }
}

proof fn recentred_keeps<C>(m: Model<C>, d: Device, anchor: (i32, i32), now: u64)
    requires
        in_step(m, d),
    ensures
        in_step(aim::recentred(m, anchor, now), d),
{
    let m3 = aim::recentred(m, anchor, now);
    if !m.aim.down {
        no_more(m, m3, d);
    } else {
        let up = control::touch(control::ACTION_UP, AIM_PID, m.aim.cur);
        let m1 = Model { aim: AimState { down: false, ..m.aim }, ..engine::emit(m, up) };
        aim_changed(m, m1, d, up);
        aim_changed(m1, m3, d, control::touch(control::ACTION_DOWN, AIM_PID, anchor));
    }
}

proof fn dragged_keeps<C>(
    m: Model<C>,
    d: Device,
    a: Aim<C>,
    anchor: (i32, i32),
    drag: aim::Drag<C>,
    now: u64,
)
    requires
        in_step(m, d),
    ensures
        in_step(aim::dragged(m, a, anchor, drag, now), d),
{
    if aim::aim_ready(a, m.aim) && !aim::crowded_out(m, a) {
        let m1 = aim::anchored(m, anchor);
        if m.aim.anchor_used != anchor {
            aim_lifted_keeps(m, d);
            no_more(aim::lifted(m), m1, d);
        }
        let m2 = aim::dragged_to(m1, drag, now);
        if m1.aim.down {
            let c = control::touch(control::ACTION_MOVE, AIM_PID, drag.target);
            moved_keeps(m1, d, AIM_PID, drag.target);
            no_more(engine::emit(m1, c), m2, d);
        } else {
            aim_changed(m1, m2, d, control::touch(control::ACTION_DOWN, AIM_PID, drag.target));
        }
        recentred_keeps(m2, d, anchor, now);
    }
}

// ---- the laws --------------------------------------------------------------------------

/// A fresh engine and a device that holds nothing agree.
pub proof fn fresh_in_step<C>()
    ensures
        in_step(
            engine::initial_model::<C>(),
            Device { pointers: Set::empty(), keys: Set::empty() },
        ),
{
    let m = engine::initial_model::<C>();
    let d = Device { pointers: Set::empty(), keys: Set::empty() };
    assert(engine::downs(m.wheels) =~= Seq::<bool>::empty());
    assert(held_pointers(m) =~= Set::<u64>::empty());
    assert(key_ids(m.keys) =~= Set::<u32>::empty());
    assert forall|n: int| 0 <= n <= m.out.len() implies (#[trigger] device_after(
        d,
        m.out.take(n),
    )).pointers.finite() && device_after(d, m.out.take(n)).pointers.len()
        <= DEVICE_MAX_POINTERS by {
        assert(m.out.take(n) =~= Seq::<ControlCmd>::empty());
    }
}

proof fn filtered_schedule(s: Seq<(u64, SchedAct)>, pid: u64)
    requires
        binding_schedule(s),
    ensures
        binding_schedule(buttons::without_lifts(s, pid)),
    decreases s.len(),
{
    reveal(Seq::filter);
    if s.len() > 0 {
        assert(binding_schedule(s.drop_last())) by {
            assert forall|i: int| 0 <= i < s.drop_last().len() implies ((
            #[trigger] s.drop_last()[i]).1 matches SchedAct::Up { pid, .. } ==> 1000 <= pid < 2000)
                by {
                assert(s[i] == s.drop_last()[i]);
            }
        }
        filtered_schedule(s.drop_last(), pid);
        let t = buttons::without_lifts(s, pid);
        let t0 = buttons::without_lifts(s.drop_last(), pid);
        assert(t == t0 || t == t0.push(s[s.len() - 1]));
    }
}

proof fn bind_hit_keeps<C>(
    m: Model<C>,
    d: Device,
    b: KeyBind<C>,
    px: BindPx,
    i: int,
    pressed: bool,
    now: u64,
)
    requires
        in_step(m, d),
        0 <= i < 1000,
        b.action matches Action::AndroidKey { keycode } ==> keycode <= 0xffff,
    ensures
        in_step(buttons::bind_hit(m, b, px, i, pressed, now), d),
{
    match b.action {
        Action::Tap { duration_ms, .. } => {
            if pressed {
                try_press_keeps(m, d, i, b.key, px.at);
                finger_up_keeps(m, d, i, px.at);
                if duration_ms != 0 {
                    filtered_schedule(m.sched, engine::bind_id(i));
                    let m1 = if fingers::slot(m.down, i) {
                        engine::finger_up(
                            Model {
                                sched: buttons::without_lifts(m.sched, engine::bind_id(i)),
                                ..m
                            },
                            i,
                            px.at,
                        )
                    } else {
                        m
                    };
                    if fingers::slot(m.down, i) {
                        let c = Model {
                            sched: buttons::without_lifts(m.sched, engine::bind_id(i)),
                            ..m
                        };
                        no_more(m, c, d);
                        finger_up_keeps(c, d, i, px.at);
                    }
                    if fingers::can_press(m1.down, i, engine::reserved(m1) as int) {
                        finger_down_keeps(m1, d, i, px.at);
                        no_more(
                            engine::finger_down(m1, i, px.at),
                            buttons::tapped(m, i, b.key, px.at, duration_ms, now),
                            d,
                        );
                    } else {
                        no_more(m1, engine::refused(m1, b.key), d);
                    }
                }
            }
        },
        Action::Hold { .. } => {
            try_press_keeps(m, d, i, b.key, px.at);
            finger_up_keeps(m, d, i, px.at);
        },
        Action::Swipe(s) => {
            if pressed {
                if fingers::can_press(m.down, i, engine::reserved(m) as int) {
                    finger_down_keeps(m, d, i, px.path@[0]);
                    no_more(
                        engine::finger_down(m, i, px.path@[0]),
                        buttons::swiped(m, i, b.key, px, s.duration_ms, now),
                        d,
                    );
                } else {
                    no_more(m, engine::refused(m, b.key), d);
                }
            }
        },
        Action::AndroidKey { keycode } => {
            key_down_keeps(m, d, keycode);
            key_up_keeps(m, d, keycode);
        },
    }
}

proof fn binds_hit_keeps<C>(
    m: Model<C>,
    d: Device,
    p: Profile<C>,
    ly: Layout,
    code: u16,
    pressed: bool,
    now: u64,
    n: int,
)
    requires
        in_step(m, d),
        small_profile(p),
        n <= p.binds@.len(),
    ensures
        in_step(buttons::binds_hit(m, p, ly, code, pressed, now, n), d),
    decreases n,
{
    if n > 0 {
        binds_hit_keeps(m, d, p, ly, code, pressed, now, n - 1);
        bind_hit_keeps(
            buttons::binds_hit(m, p, ly, code, pressed, now, n - 1),
            d,
            p.binds@[n - 1],
            ly.binds@[n - 1],
            n - 1,
            pressed,
            now,
        );
    }
}

proof fn wheels_switched_keeps<C>(
    m: Model<C>,
    d: Device,
    p: Profile<C>,
    ly: Layout,
    code: u16,
    pressed: bool,
    n: int,
)
    requires
        in_step(m, d),
        small_profile(p),
        n <= p.wheels@.len(),
    ensures
        in_step(buttons::wheels_switched(m, p, ly, code, pressed, n), d),
    decreases n,
{
    if n > 0 {
        wheels_switched_keeps(m, d, p, ly, code, pressed, n - 1);
        let m1 = buttons::wheels_switched(m, p, ly, code, pressed, n - 1);
        let j = n - 1;
        if let Some(t) = p.wheels@[j].temp {
            if t.key == code && j < m1.wheels.len() {
                if m1.wheels[j].active {
                    wheel_off_keeps(m1, d, j, ly.wheels@[j].center);
                    realigned_keeps(
                        reconcile::wheel_off(m1, j, ly.wheels@[j].center),
                        d,
                        p,
                        ly,
                    );
                } else {
                    let m2 = Model {
                        wheels: m1.wheels.update(j, WheelState { active: true, ..m1.wheels[j] }),
                        ..m1
                    };
                    assert(engine::downs(m2.wheels) =~= engine::downs(m1.wheels));
                    no_more(m1, m2, d);
                    all_gave_way_keeps(m2, d, p, ly, p.wheels@[j], p.binds@.len() as int);
                    realigned_keeps(buttons::wheel_on(m1, p, ly, j), d, p, ly);
                }
            }
        }
    }
}

proof fn all_released_keeps<C>(m: Model<C>, d: Device, p: Profile<C>, ly: Layout)
    requires
        in_step(m, d),
        small_profile(p),
    ensures
        in_step(session::all_released(m, p, ly), d),
{
    aim_lifted_keeps(m, d);
    let m1 = aim::lifted(m);
    let n = session::slots(m1.down.len(), p.binds@.len());
    fingers_lifted_keeps(m1, d, ly, n);
    session::fingers_lifted_frame(m1, ly, n);
    let m1b = session::fingers_lifted(m1, ly, n);
    all_keys_released_keeps(m1b, d);
    let m2 = session::keys_released(m1b);
    wheels_lifted_keeps(m2, d, ly, m2.wheels.len() as int);
    session::wheels_lifted_frame(m2, ly, m2.wheels.len() as int);
    let m3 = session::wheels_lifted(m2, ly, m2.wheels.len() as int);
    nothing_down_keeps(m3, d, m3.down.len());
    let m4 = Model { down: Seq::new(m3.down.len(), |i: int| false), ..m3 };
    let m5 = session::all_released(m, p, ly);
    assert forall|k: int| 0 <= k < m3.wheels.len() implies engine::downs(m5.wheels)[k]
        == engine::downs(m4.wheels)[k] by {
        assert(!m3.wheels[k].down);
    }
    assert(engine::downs(m5.wheels) =~= engine::downs(m4.wheels));
    no_more(m4, m5, d);
}

/// Noting a key keeps engine and device in step.
pub proof fn noting_keeps_step<C>(m: Model<C>, d: Device, a: Aim<C>, code: u16, pressed: bool)
    requires
        in_step(m, d),
    ensures
        in_step(buttons::noted(m, a, code, pressed), d),
{
    no_more(m, buttons::noted(m, a, code, pressed), d);
}

/// Whatever key is pressed or released, engine and device stay in step: every finger that
/// goes down on the device is one the engine knows of and will lift, and the device is never
/// asked for more than it holds.
pub proof fn a_key_keeps_step<C>(
    m: Model<C>,
    d: Device,
    sh: Shared<C>,
    ly: Layout,
    code: u16,
    pressed: bool,
    now: u64,
)
    requires
        in_step(m, d),
        small_profile(sh.profile),
        sh.control is Some,
    ensures
        in_step(buttons::button_done(m, sh, ly, code, pressed, now), d),
{
    let p = sh.profile;
    let m1 = buttons::noted(m, p.aim, code, pressed);
    no_more(m, m1, d);
    if code == p.toggle_key && pressed {
        if sh.enabled {
            all_released_keeps(m1, d, p, ly);
            no_more(session::all_released(m1, p, ly), buttons::toggled(m1, sh, ly), d);
        } else {
            let b = session::mouse_back(m1);
            no_more(m1, b, d);
            followed_keeps(b, d, p, ly);
            realigned_keeps(session::followed(b, p, ly), d, p, ly);
            no_more(
                buttons::switched_on(m1, session::online(sh.control), p, ly),
                buttons::toggled(m1, sh, ly),
                d,
            );
        }
    } else if sh.enabled && session::online(sh.control) {
        followed_keeps(m1, d, p, ly);
        realigned_keeps(session::followed(m1, p, ly), d, p, ly);
        let c = buttons::caught_up(m1, p, ly);
        let m2 = buttons::counted(c);
        no_more(c, m2, d);
        wheels_switched_keeps(m2, d, p, ly, code, pressed, p.wheels@.len() as int);
        wheels_aligned_keeps(m2, d, p, ly, p.wheels@.len() as int);
        binds_hit_keeps(m2, d, p, ly, code, pressed, now, p.binds@.len() as int);
        let h = buttons::binds_hit(m2, p, ly, code, pressed, now, p.binds@.len() as int);
        no_more(h, buttons::counted(h), d);
    }
}

/// Mouse motions keep engine and device in step.
pub proof fn a_motion_keeps_step<C>(
    m: Model<C>,
    d: Device,
    a: Aim<C>,
    mapped: bool,
    anchor: (i32, i32),
    drag: aim::Drag<C>,
    now: u64,
)
    requires
        in_step(m, d),
    ensures
        in_step(session::motion_done(m, a, mapped, anchor, drag, now), d),
{
    dragged_keeps(m, d, a, anchor, drag, now);
    let m1 = aim::dragged(m, a, anchor, drag, now);
    no_more(m1, engine::refused(m1, 0), d);
}

/// The upkeep keeps engine and device in step while the channel is alive.
pub proof fn upkeep_keeps_step<C>(
    m: Model<C>,
    d: Device,
    a: Aim<C>,
    anchor: (i32, i32),
    enabled: bool,
    away: bool,
    now: u64,
)
    requires
        in_step(m, d),
    ensures
        in_step(session::kept_up(m, a, true, anchor, enabled, away, now), d),
{
    aim_lifted_keeps(m, d);
    recentred_keeps(m, d, anchor, now);
    let m1 = aim::ticked(m, a, anchor, enabled, away, now);
    no_more(m1, session::kept_up(m, a, true, anchor, enabled, away, now), d);
}

proof fn act_done_keeps<C>(m: Model<C>, d: Device, a: SchedAct)
    requires
        in_step(m, d),
        a matches SchedAct::Up { pid, .. } ==> 1000 <= pid < 2000,
    ensures
        in_step(session::act_done(m, a), d),
{
    match a {
        SchedAct::Up { pid, x, y } => {
            let m2 = session::act_done(m, a);
            let idx = pid - 1000;
            engine::pool_after_finger(m, idx);
            assert(pointer_ids(m2.down, 1000) =~= pointer_ids(m.down, 1000).remove(pid));
            assert(held_pointers(m2) =~= held_pointers(m).remove(pid));
            one_more(m, m2, d, control::touch(control::ACTION_UP, pid, (x, y)));
        },
        SchedAct::Move { pid, x, y } => {
            moved_keeps(m, d, pid, (x, y));
        },
    }
}

proof fn acts_done_keep<C>(m: Model<C>, d: Device, acts: Seq<SchedAct>, n: int)
    requires
        in_step(m, d),
        n <= acts.len(),
        forall|i: int|
            0 <= i < acts.len() ==> ((#[trigger] acts[i]) matches SchedAct::Up { pid, .. } ==> 1000
                <= pid < 2000),
    ensures
        in_step(session::acts_done(m, acts, n), d),
    decreases n,
{
    if n > 0 {
        acts_done_keep(m, d, acts, n - 1);
        act_done_keeps(session::acts_done(m, acts, n - 1), d, acts[n - 1]);
    }
}

/// What is taken out was due, what stays is not, and nothing is lost: entries that stay and
/// actions that are due together are the schedule.
#[verifier::spinoff_prover]
pub proof fn due_split_partitions(s: Seq<(u64, SchedAct)>, i: int, now: u64)
    requires
        0 <= i <= s.len(),
    ensures
        ({
            let (rest, due) = session::due_split(s, i, now);
            &&& rest.len() + due.len() == s.len()
            &&& i <= rest.len()
            &&& rest.take(i) == s.take(i)
            &&& forall|k: int| i <= k < rest.len() ==> (#[trigger] rest[k]).0 > now
            &&& forall|k: int|
                0 <= k < rest.len() ==> s.contains(#[trigger] rest[k])
            &&& forall|k: int|
                #![trigger due[k]]
                0 <= k < due.len() ==> exists|q: int|
                    i <= q < s.len() && s[q].0 <= now && #[trigger] s[q].1 == due[k]
            &&& forall|q: int|
                i <= q < s.len() && (#[trigger] s[q]).0 > now ==> rest.contains(s[q])
            &&& forall|q: int|
                i <= q < s.len() && (#[trigger] s[q]).0 <= now ==> due.contains(s[q].1)
        }),
    decreases s.len() - i,
{
    let (rest, due) = session::due_split(s, i, now);
    if i == s.len() {
        assert(rest.take(i) =~= s.take(i));
        assert forall|k: int| 0 <= k < rest.len() implies s.contains(#[trigger] rest[k]) by {
            assert(s[k] == rest[k]);
        }
    } else if s[i].0 <= now {
        let t = session::taken_out(s, i);
        due_split_partitions(t, i, now);
        let (rest2, due2) = session::due_split(t, i, now);
        assert(t.take(i) =~= s.take(i));
        assert forall|k: int| 0 <= k < rest.len() implies s.contains(#[trigger] rest[k]) by {
            assert(t.contains(rest[k]));
            let q = t.index_of(rest[k]);
            if q == i {
                assert(s[s.len() - 1] == rest[k]);
            } else {
                assert(s[q] == rest[k]);
            }
        }
        assert forall|k: int|
            #![trigger due[k]]
            0 <= k < due.len() implies exists|q: int|
            i <= q < s.len() && s[q].0 <= now && #[trigger] s[q].1 == due[k] by {
            if k == 0 {
                assert(s[i].1 == due[0]);
            } else {
                assert(due[k] == due2[k - 1]);
                let q = choose|q: int|
                    i <= q < t.len() && t[q].0 <= now && #[trigger] t[q].1 == due2[k - 1];
                if q == i {
                    assert(s[s.len() - 1].1 == due[k]);
                } else {
                    assert(s[q].1 == due[k]);
                }
            }
        }
        assert forall|q: int| i <= q < s.len() && (#[trigger] s[q]).0 > now implies rest.contains(
            s[q],
        ) by {
            let q2 = if q == s.len() - 1 {
                i
            } else {
                q
            };
            assert(t[q2] == s[q]);
        }
        assert forall|q: int| i <= q < s.len() && (#[trigger] s[q]).0 <= now implies due.contains(
            s[q].1,
        ) by {
            if q == i {
                assert(due[0] == s[q].1);
            } else {
                let q2 = if q == s.len() - 1 {
                    i
                } else {
                    q
                };
                assert(t[q2] == s[q]);
                assert(due2.contains(t[q2].1));
                let k = due2.index_of(t[q2].1);
                assert(due[k + 1] == s[q].1);
            }
        }
    } else {
        due_split_partitions(s, i + 1, now);
        assert(rest.take(i) =~= rest.take(i + 1).take(i));
        assert(s.take(i) =~= s.take(i + 1).take(i));
        assert(rest[i] == rest.take(i + 1)[i]);
        assert(s[i] == s.take(i + 1)[i]);
        assert forall|k: int|
            #![trigger due[k]]
            0 <= k < due.len() implies exists|q: int|
            i <= q < s.len() && s[q].0 <= now && #[trigger] s[q].1 == due[k] by {
            let q = choose|q: int|
                i + 1 <= q < s.len() && s[q].0 <= now && #[trigger] s[q].1 == due[k];
            assert(s[q].1 == due[k]);
        }
        assert forall|k: int| i <= k < rest.len() implies (#[trigger] rest[k]).0 > now by {
            if k == i {
                assert(rest[i] == s[i]);
            }
        }
        assert forall|q: int| i <= q < s.len() && (#[trigger] s[q]).0 > now implies rest.contains(
            s[q],
        ) by {
            if q == i {
                assert(rest[i] == s[i]);
            }
        }
        assert forall|q: int| i <= q < s.len() && (#[trigger] s[q]).0 <= now implies due.contains(
            s[q].1,
        ) by {
            assert(q != i);
        }
    }
}

/// Carrying out what is due keeps engine and device in step.
pub proof fn due_keeps_step<C>(m: Model<C>, d: Device, now: u64)
    requires
        in_step(m, d),
    ensures
        in_step(session::due_done(m, true, now), d),
{
    let (rest, due) = session::due_split(m.sched, 0, now);
    due_split_partitions(m.sched, 0, now);
    let m1 = Model { sched: rest, ..m };
    assert(binding_schedule(rest)) by {
        assert forall|k: int| 0 <= k < rest.len() implies ((#[trigger] rest[k]).1 matches SchedAct::Up {
            pid,
            ..
        } ==> 1000 <= pid < 2000) by {
            assert(m.sched.contains(rest[k]));
        }
    }
    no_more(m, m1, d);
    acts_done_keep(m1, d, due, due.len() as int);
}

/// Switching mapping off over a channel leaves nothing behind: no pointer and no key stays
/// down on the device, and no temporary wheel stays on.
pub proof fn switching_off_leaves_nothing<C>(m: Model<C>, d: Device, p: Profile<C>, ly: Layout)
    requires
        in_step(m, d),
        small_profile(p),
    ensures
        ({
            let m2 = session::switched_off(m, true, p, ly);
            &&& in_step(m2, d)
            &&& device_after(d, m2.out).pointers == Set::<u64>::empty()
            &&& device_after(d, m2.out).keys == Set::<u32>::empty()
            &&& engine::total(m2) == 0
            &&& forall|i: int| !#[trigger] fingers::slot(m2.down, i)
            &&& m2.keys.len() == 0
            &&& !m2.aim.down
            &&& forall|j: int|
                0 <= j < m2.wheels.len() ==> !(#[trigger] m2.wheels[j]).active
                    && !m2.wheels[j].down
        }),
{
    all_released_keeps(m, d, p, ly);
    let m2 = session::all_released(m, p, ly);
    let m1 = aim::lifted(m);
    let n = session::slots(m1.down.len(), p.binds@.len());
    session::fingers_lifted_frame(m1, ly, n);
    let k = session::keys_released(session::fingers_lifted(m1, ly, n));
    session::wheels_lifted_frame(k, ly, k.wheels.len() as int);
    assert(!m2.aim.down);
    assert forall|p: u64| !held_pointers(m2).contains(p) by {
        assert(!fingers::slot(m2.down, p - 1000));
        assert(!fingers::slot(engine::downs(m2.wheels), p - 2000));
    }
    assert(held_pointers(m2) =~= Set::<u64>::empty());
    assert(m2.keys =~= Seq::<u16>::empty());
    assert(key_ids(m2.keys) =~= Set::<u32>::empty());
    fingers::count_none(m2.down);
    fingers::count_none(engine::downs(m2.wheels));
}

/// The window's wish to switch off is carried out just as completely.
pub proof fn toolbar_keeps_step<C>(m: Model<C>, d: Device, p: Profile<C>, ly: Layout)
    requires
        in_step(m, d),
        small_profile(p),
    ensures
        in_step(session::mouse_back(session::switched_off(m, true, p, ly)), d),
{
    all_released_keeps(m, d, p, ly);
    let m2 = session::all_released(m, p, ly);
    no_more(m2, session::mouse_back(m2), d);
}

} // verus!
