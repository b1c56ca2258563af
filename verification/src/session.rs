//! The engine's steps: due actions, switching off, regular upkeep, mouse motions, keys.
//!
//! A driver calls these in a loop: [`run_due`], [`toolbar`], [`upkeep`], then waits
//! [`wait_for`] at most and hands the event it got, if any, to [`on_motion`] or
//! [`crate::buttons::on_button`].

use vstd::prelude::*;
use crate::aim::{
    self, Drag, aim_active, aim_lift, aim_on_motion, aim_release_local, aim_tick, wants_mouse,
};
use crate::control::{self, ControlClient, ControlCmd};
use crate::engine::{
    self, Engine, IDLE_FAST_MS, IDLE_SLOW_MS, MS, Model, SchedAct, Shared, WheelState,
    all_pointers, lift_finger, none_pressed, refuse,
};
use crate::fingers;
use crate::keymap::{Aim, Profile, TempMode, TempWheel, Wheel};
use crate::layout::Layout;
use crate::reconcile::{self, binds_signature, lift_wheel, wheel_signature};

verus! {

// ---- lifting everything ----------------------------------------------------------------

/// The fingers of the first `n` slots lifted.
pub open spec fn fingers_lifted<C>(m: Model<C>, ly: Layout, n: int) -> Model<C>
    decreases n,
{
    if n <= 0 {
        m
    } else {
        engine::finger_up(fingers_lifted(m, ly, n - 1), n - 1, ly.point(n - 1))
    }
}

/// The queue after key-up commands for the first `n` of `keys`.
pub open spec fn keys_upped(out: Seq<ControlCmd>, keys: Seq<u16>, n: int) -> Seq<ControlCmd>
    decreases n,
{
    if n <= 0 {
        out
    } else {
        keys_upped(out, keys, n - 1).push(control::key_cmd(false, keys[n - 1] as u32))
    }
}

/// Every Android key released.
pub open spec fn keys_released<C>(m: Model<C>) -> Model<C> {
    Model { keys: Seq::empty(), out: keys_upped(m.out, m.keys, m.keys.len() as int), ..m }
}

pub open spec fn slots(a: nat, b: nat) -> int {
    if a < b {
        b as int
    } else {
        a as int
    }
}

/// Every finger of a binding lifted, also of bindings the profile no longer has, and every
/// Android key released.
pub open spec fn binds_released<C>(m: Model<C>, p: Profile<C>, ly: Layout) -> Model<C> {
    let m1 = keys_released(fingers_lifted(m, ly, slots(m.down.len(), p.binds@.len())));
    Model { down: Seq::new(m1.down.len(), |i: int| false), ..m1 }
}

proof fn fingers_lifted_len<C>(m: Model<C>, ly: Layout, n: int)
    ensures
        fingers_lifted(m, ly, n).down.len() == m.down.len(),
        fingers_lifted(m, ly, n).wheels == m.wheels,
        fingers_lifted(m, ly, n).aim == m.aim,
        fingers_lifted(m, ly, n).keys == m.keys,
    decreases n,
{
    if n > 0 {
        fingers_lifted_len(m, ly, n - 1);
    }
}

proof fn none_down_is_sane<C>(m: Model<C>, n: nat)
    requires
        engine::sane(m),
        n + 3000 <= u64::MAX,
    ensures
        engine::sane(Model { down: Seq::new(n, |i: int| false), ..m }),
{
    fingers::count_none(Seq::new(n, |i: int| false));
}

fn lift_fingers<C: Copy>(eng: &mut Engine<C>, ctl: &mut ControlClient, p: &Profile<C>, ly: &Layout)
    requires
        old(eng).wf(),
        ly.fits(*p),
    ensures
        final(eng).wf(),
        engine::model(*final(eng), final(ctl)@) == fingers_lifted(
            engine::model(*old(eng), old(ctl)@),
            *ly,
            slots(old(eng).fingers@.len(), p.binds@.len()),
        ),
        final(ctl).same_link(*old(ctl)),
{
    let ghost m0 = engine::model(*eng, ctl@);
    let a: usize = eng.fingers.down.len();
    let b: usize = p.binds.len();
    let n: usize = if a < b {
        b
    } else {
        a
    };
    assert(engine::sane(engine::model(*eng, Seq::empty())));
    for idx in 0..n
        invariant
            eng.wf(),
            n + 3000 <= u64::MAX,
            engine::model(*eng, ctl@) == fingers_lifted(m0, *ly, idx as int),
            ctl.same_link(*old(ctl)),
    {
        let at = ly.bind_point(idx);
        lift_finger(eng, ctl, idx, at);
    }
}

fn release_keys<C: Copy>(eng: &mut Engine<C>, ctl: &mut ControlClient)
    requires
        old(eng).wf(),
    ensures
        final(eng).wf(),
        engine::model(*final(eng), final(ctl)@) == keys_released(
            engine::model(*old(eng), old(ctl)@),
        ),
        final(ctl).same_link(*old(ctl)),
{
    let ghost out0 = ctl@;
    let n: usize = eng.keys.codes.len();
    for i in 0..n
        invariant
            *eng == *old(eng),
            n == eng.keys.codes.len(),
            ctl@ == keys_upped(out0, eng.keys@, i as int),
            ctl.same_link(*old(ctl)),
    {
        ctl.key(false, eng.keys.codes[i] as u32);
    }
    eng.keys.clear();
}

fn free_fingers<C: Copy>(eng: &mut Engine<C>)
    requires
        old(eng).wf(),
    ensures
        final(eng).wf(),
        forall|out: Seq<ControlCmd>| #[trigger]
            engine::model(*final(eng), out) == (Model {
                down: Seq::new(old(eng).fingers@.len(), |i: int| false),
                ..engine::model(*old(eng), out)
            }),
{
    proof {
        none_down_is_sane(engine::model(*eng, Seq::empty()), eng.fingers@.len());
    }
    eng.fingers.free_all();
}

fn release_all_binds<C: Copy>(
    eng: &mut Engine<C>,
    ctl: &mut ControlClient,
    p: &Profile<C>,
    ly: &Layout,
)
    requires
        old(eng).wf(),
        ly.fits(*p),
    ensures
        final(eng).wf(),
        engine::model(*final(eng), final(ctl)@) == binds_released(
            engine::model(*old(eng), old(ctl)@),
            *p,
            *ly,
        ),
        final(ctl).same_link(*old(ctl)),
{
    lift_fingers(eng, ctl, p, ly);
    release_keys(eng, ctl);
    free_fingers(eng);
}

/// Where wheel `j` is lifted: at its centre, or where it was last if the profile lost it.
pub open spec fn wheel_rest<C>(m: Model<C>, ly: Layout, j: int) -> (i32, i32) {
    if j < ly.wheels@.len() {
        ly.wheels@[j].center
    } else {
        m.wheels[j].last
    }
}

/// The fingers of the first `n` wheels lifted.
pub open spec fn wheels_lifted<C>(m: Model<C>, ly: Layout, n: int) -> Model<C>
    decreases n,
{
    if n <= 0 {
        m
    } else {
        let m1 = wheels_lifted(m, ly, n - 1);
        reconcile::wheel_lifted(m1, n - 1, wheel_rest(m1, ly, n - 1))
    }
}

fn lift_wheels<C: Copy>(eng: &mut Engine<C>, ctl: &mut ControlClient, ly: &Layout)
    requires
        old(eng).wf(),
    ensures
        final(eng).wf(),
        final(eng).wheels@.len() == old(eng).wheels@.len(),
        engine::model(*final(eng), final(ctl)@) == wheels_lifted(
            engine::model(*old(eng), old(ctl)@),
            *ly,
            old(eng).wheels@.len() as int,
        ),
        final(ctl).same_link(*old(ctl)),
{
    let ghost m0 = engine::model(*eng, ctl@);
    let n: usize = eng.wheels.len();
    for j in 0..n
        invariant
            eng.wf(),
            n == eng.wheels.len(),
            engine::model(*eng, ctl@) == wheels_lifted(m0, *ly, j as int),
            ctl.same_link(*old(ctl)),
    {
        let at = if j < ly.wheels.len() {
            ly.wheels[j].center
        } else {
            eng.wheels[j].last
        };
        lift_wheel(eng, ctl, j, at);
    }
}

/// All wheels at rest and off; where they were last is kept.
pub open spec fn wheels_reset(ws: Seq<WheelState>) -> Seq<WheelState> {
    ws.map_values(
        |w: WheelState|
            WheelState { down: false, pressed: engine::no_dirs(), active: false, ..w },
    )
}

/// Mapping switched off over a channel: the aim finger, every binding and every wheel lifted,
/// every Android key released, every temporary wheel off.
pub open spec fn all_released<C>(m: Model<C>, p: Profile<C>, ly: Layout) -> Model<C> {
    let m1 = aim::lifted(m);
    let m2 = keys_released(fingers_lifted(m1, ly, slots(m1.down.len(), p.binds@.len())));
    let m3 = wheels_lifted(m2, ly, m2.wheels.len() as int);
    Model {
        down: Seq::new(m3.down.len(), |i: int| false),
        wheels: wheels_reset(m3.wheels),
        ..m3
    }
}

/// Mapping switched off without a channel: the same, with nothing to send it on.
pub open spec fn all_forgotten<C>(m: Model<C>) -> Model<C> {
    let m1 = aim::forgotten(m);
    Model {
        keys: Seq::empty(),
        down: Seq::new(m1.down.len(), |i: int| false),
        wheels: wheels_reset(m1.wheels),
        ..m1
    }
}

proof fn reset_none_down(ws: Seq<WheelState>)
    ensures
        engine::wheels_down(wheels_reset(ws)) == 0,
{
    fingers::count_none(engine::downs(wheels_reset(ws)));
}

fn reset_states(ws: &mut Vec<WheelState>)
    ensures
        final(ws)@ == wheels_reset(old(ws)@),
{
    let ghost before = ws@;
    let n: usize = ws.len();
    for j in 0..n
        invariant
            n == ws.len(),
            n == before.len(),
            forall|k: int| 0 <= k < j ==> ws@[k] == wheels_reset(before)[k],
            forall|k: int| j <= k < n ==> ws@[k] == before[k],
    {
        let mut st = ws[j];
        st.down = false;
        st.pressed = none_pressed();
        st.active = false;
        ws[j] = st;
    }
    assert(ws@ =~= wheels_reset(before));
}

fn reset_wheels<C: Copy>(eng: &mut Engine<C>)
    requires
        old(eng).wf(),
    ensures
        final(eng).wf(),
        forall|out: Seq<ControlCmd>| #[trigger]
            engine::model(*final(eng), out) == (Model {
                wheels: wheels_reset(old(eng).wheels@),
                ..engine::model(*old(eng), out)
            }),
{
    assert(engine::sane(engine::model(*eng, Seq::empty())));
    proof {
        reset_none_down(eng.wheels@);
    }
    reset_states(&mut eng.wheels);
}

/// Switches mapping off: lifts everything and forgets it.
pub(crate) fn release_all<C: Copy>(
    eng: &mut Engine<C>,
    control: &mut Option<ControlClient>,
    p: &Profile<C>,
    ly: &Layout,
)
    requires
        old(eng).wf(),
        ly.fits(*p),
    ensures
        final(eng).wf(),
        engine::model(*final(eng), queued(*final(control))) == (if *old(control) is Some {
            all_released(engine::model(*old(eng), queued(*old(control))), *p, *ly)
        } else {
            all_forgotten(engine::model(*old(eng), queued(*old(control))))
        }),
        same_channel(*final(control), *old(control)),
{
    match control.take() {
        Some(mut c) => {
            aim_lift(eng, &mut c);
            lift_fingers(eng, &mut c, p, ly);
            release_keys(eng, &mut c);
            lift_wheels(eng, &mut c, ly);
            free_fingers(eng);
            reset_wheels(eng);
            *control = Some(c);
        },
        None => {
            eng.keys.clear();
            aim_release_local(eng);
            free_fingers(eng);
            reset_wheels(eng);
        },
    }
}

/// What is queued on a channel; nothing where there is none.
pub open spec fn queued(c: Option<ControlClient>) -> Seq<ControlCmd> {
    match c {
        Some(c) => c@,
        None => Seq::empty(),
    }
}

/// The same channel, or none in both cases; the queues may differ.
pub open spec fn same_channel(a: Option<ControlClient>, b: Option<ControlClient>) -> bool {
    match (a, b) {
        (Some(x), Some(y)) => x.same_link(y),
        (None, None) => true,
        _ => false,
    }
}

pub open spec fn online(c: Option<ControlClient>) -> bool {
    c matches Some(c) && c.connected
}

// ---- following the profile -------------------------------------------------------------

/// What a wheel starts from: switched on only if it is held on by a key that is held.
pub open spec fn fresh_wheel(t: Option<TempWheel>, held: Set<u16>) -> WheelState {
    engine::idle_wheel(t matches Some(t) && t.mode == TempMode::Hold && held.contains(t.key))
}

pub open spec fn fresh_wheels<C>(wheels: Seq<Wheel<C>>, held: Set<u16>) -> Seq<WheelState> {
    wheels.map_values(|w: Wheel<C>| fresh_wheel(w.temp, held))
}

/// The bindings followed: everything lifted if their fingerprint changed, and a slot for each.
pub open spec fn binds_followed<C>(m: Model<C>, p: Profile<C>, ly: Layout) -> Model<C> {
    let print = reconcile::binds_print(p.binds@);
    let m1 = if print != m.binds_sig {
        Model { binds_sig: print, down: Seq::empty(), ..binds_released(m, p, ly) }
    } else {
        m
    };
    Model { down: fingers::padded(m1.down, p.binds@.len()), ..m1 }
}

/// The wheels followed: all lifted and started afresh if their fingerprint changed.
pub open spec fn wheels_followed<C>(m: Model<C>, p: Profile<C>, ly: Layout) -> Model<C> {
    let print = reconcile::wheels_print(p.wheels@);
    if print != m.wheel_sig {
        let m1 = wheels_lifted(m, ly, m.wheels.len() as int);
        Model { wheel_sig: print, wheels: fresh_wheels(p.wheels@, m.held), ..m1 }
    } else {
        m
    }
}

pub open spec fn followed<C>(m: Model<C>, p: Profile<C>, ly: Layout) -> Model<C> {
    wheels_followed(binds_followed(m, p, ly), p, ly)
}

/// Whether the profile changed its shape.
pub open spec fn reshaped<C>(m: Model<C>, p: Profile<C>) -> bool {
    reconcile::binds_print(p.binds@) != m.binds_sig || reconcile::wheels_print(p.wheels@)
        != m.wheel_sig
}

proof fn fresh_none_down<C>(wheels: Seq<Wheel<C>>, held: Set<u16>)
    ensures
        engine::wheels_down(fresh_wheels(wheels, held)) == 0,
{
    fingers::count_none(engine::downs(fresh_wheels(wheels, held)));
}

/// Drops every slot.
fn drop_slots<C: Copy>(eng: &mut Engine<C>)
    requires
        old(eng).wf(),
    ensures
        final(eng).wf(),
        forall|out: Seq<ControlCmd>| #[trigger]
            engine::model(*final(eng), out) == (Model {
                down: Seq::empty(),
                ..engine::model(*old(eng), out)
            }),
{
    assert(engine::sane(engine::model(*eng, Seq::empty())));
    proof {
        fingers::count_none(Seq::<bool>::empty());
    }
    eng.fingers.clear();
}

/// Makes sure of a slot for each of `n` bindings.
fn make_slots<C: Copy>(eng: &mut Engine<C>, n: usize)
    requires
        old(eng).wf(),
        n + 3000 <= u64::MAX,
    ensures
        final(eng).wf(),
        forall|out: Seq<ControlCmd>| #[trigger]
            engine::model(*final(eng), out) == (Model {
                down: fingers::padded(old(eng).fingers@, n as nat),
                ..engine::model(*old(eng), out)
            }),
{
    assert(engine::sane(engine::model(*eng, Seq::empty())));
    proof {
        if eng.fingers@.len() < n {
            fingers::count_padding(eng.fingers@, (n - eng.fingers@.len()) as nat);
        }
    }
    eng.fingers.align(n);
}

fn follow_binds<C: Copy>(
    eng: &mut Engine<C>,
    ctl: &mut ControlClient,
    p: &Profile<C>,
    ly: &Layout,
) -> (changed: bool)
    requires
        old(eng).wf(),
        ly.fits(*p),
    ensures
        final(eng).wf(),
        changed == (reconcile::binds_print(p.binds@) != old(eng).binds_sig),
        engine::model(*final(eng), final(ctl)@) == binds_followed(
            engine::model(*old(eng), old(ctl)@),
            *p,
            *ly,
        ),
        final(ctl).same_link(*old(ctl)),
{
    let ghost m0 = engine::model(*eng, ctl@);
    let bs: u64 = binds_signature(&p.binds);
    let changed: bool = bs != eng.binds_sig;
    if changed {
        release_all_binds(eng, ctl, p, ly);
        drop_slots(eng);
        assert(engine::model(*eng, ctl@) == (Model {
            down: Seq::empty(),
            ..binds_released(m0, *p, *ly)
        }));
        assert(engine::sane(engine::model(*eng, Seq::empty())));
        eng.binds_sig = bs;
    }
    let ghost m1 = engine::model(*eng, ctl@);
    make_slots(eng, p.binds.len());
    changed
}

fn fresh_states<C: Copy>(wheels: &Vec<Wheel<C>>, held: &fingers::Held) -> (r: Vec<WheelState>)
    ensures
        r@ == fresh_wheels(wheels@, held@),
{
    let n: usize = wheels.len();
    let mut r: Vec<WheelState> = Vec::new();
    for j in 0..n
        invariant
            n == wheels.len(),
            r@ == fresh_wheels(wheels@, held@).take(j as int),
    {
        let mut st = WheelState::default();
        if let Some(t) = wheels[j].temp {
            st.active = t.mode == TempMode::Hold && held.has(t.key);
        }
        r.push(st);
        assert(r@ =~= fresh_wheels(wheels@, held@).take(j + 1));
    }
    assert(fresh_wheels(wheels@, held@).take(n as int) =~= fresh_wheels(wheels@, held@));
    r
}

fn follow_wheels<C: Copy>(
    eng: &mut Engine<C>,
    ctl: &mut ControlClient,
    p: &Profile<C>,
    ly: &Layout,
) -> (changed: bool)
    requires
        old(eng).wf(),
        ly.fits(*p),
    ensures
        final(eng).wf(),
        changed == (reconcile::wheels_print(p.wheels@) != old(eng).wheel_sig),
        engine::model(*final(eng), final(ctl)@) == wheels_followed(
            engine::model(*old(eng), old(ctl)@),
            *p,
            *ly,
        ),
        final(ctl).same_link(*old(ctl)),
{
    let ghost m0 = engine::model(*eng, ctl@);
    let ws: u64 = wheel_signature(&p.wheels);
    if ws == eng.wheel_sig {
        return false;
    }
    lift_wheels(eng, ctl, ly);
    proof {
        wheels_lifted_frame(m0, *ly, m0.wheels.len() as int);
        fresh_none_down(p.wheels@, eng.held@);
    }
    assert(engine::sane(engine::model(*eng, Seq::empty())));
    let fresh = fresh_states(&p.wheels, &eng.held);
    eng.wheel_sig = ws;
    eng.wheels = fresh;
    assert(engine::sane(engine::model(*eng, Seq::empty())));
    true
}

/// Lifting wheels touches nothing but the wheels and the queue.
pub proof fn wheels_lifted_frame<C>(m: Model<C>, ly: Layout, n: int)
    requires
        n <= m.wheels.len(),
    ensures
        wheels_lifted(m, ly, n).wheels.len() == m.wheels.len(),
        wheels_lifted(m, ly, n) == (Model {
            wheels: wheels_lifted(m, ly, n).wheels,
            out: wheels_lifted(m, ly, n).out,
            ..m
        }),
        forall|j: int|
            0 <= j < n ==> !(#[trigger] wheels_lifted(m, ly, n).wheels[j]).down,
        forall|j: int|
            n <= j < m.wheels.len() ==> (#[trigger] wheels_lifted(m, ly, n).wheels[j])
                == m.wheels[j],
        forall|j: int|
            0 <= j < m.wheels.len() ==> (#[trigger] wheels_lifted(m, ly, n).wheels[j]).last
                == m.wheels[j].last,
    decreases n,
{
    if n > 0 {
        wheels_lifted_frame(m, ly, n - 1);
    }
}

/// Makes the engine follow the profile; true when the profile changed its shape.
pub(crate) fn sync_structures<C: Copy>(
    eng: &mut Engine<C>,
    ctl: &mut ControlClient,
    p: &Profile<C>,
    ly: &Layout,
) -> (changed: bool)
    requires
        old(eng).wf(),
        ly.fits(*p),
    ensures
        final(eng).wf(),
        changed == reshaped(engine::model(*old(eng), old(ctl)@), *p),
        engine::model(*final(eng), final(ctl)@) == followed(
            engine::model(*old(eng), old(ctl)@),
            *p,
            *ly,
        ),
        final(ctl).same_link(*old(ctl)),
{
    let ghost m0 = engine::model(*eng, ctl@);
    proof {
        fingers_lifted_frame(m0, *ly, slots(m0.down.len(), p.binds@.len()));
    }
    let b: bool = follow_binds(eng, ctl, p, ly);
    let w: bool = follow_wheels(eng, ctl, p, ly);
    b || w
}

/// Lifting fingers touches nothing but the fingers and the queue.
pub proof fn fingers_lifted_frame<C>(m: Model<C>, ly: Layout, n: int)
    ensures
        fingers_lifted(m, ly, n) == (Model {
            down: fingers_lifted(m, ly, n).down,
            out: fingers_lifted(m, ly, n).out,
            ..m
        }),
        fingers_lifted(m, ly, n).down.len() == m.down.len(),
        forall|i: int|
            0 <= i < n && i < m.down.len() ==> !(#[trigger] fingers_lifted(m, ly, n).down[i]),
        forall|i: int|
            n <= i < m.down.len() ==> (#[trigger] fingers_lifted(m, ly, n).down[i]) == m.down[i],
    decreases n,
{
    if n > 0 {
        fingers_lifted_frame(m, ly, n - 1);
    }
}

// ---- scheduled actions -----------------------------------------------------------------

/// `s` with entry `i` taken out and the last entry in its place.
pub open spec fn taken_out<T>(s: Seq<T>, i: int) -> Seq<T> {
    s.update(i, s.last()).drop_last()
}

/// Goes through the schedule from entry `i` on and takes out what is due. First what stays,
/// then what is due, in the order in which it is met.
pub open spec fn due_split(s: Seq<(u64, SchedAct)>, i: int, now: u64) -> (
    Seq<(u64, SchedAct)>,
    Seq<SchedAct>,
)
    decreases s.len() - i,
{
    if i < 0 || i >= s.len() {
        (s, Seq::empty())
    } else if s[i].0 <= now {
        let rest = due_split(taken_out(s, i), i, now);
        (rest.0, seq![s[i].1] + rest.1)
    } else {
        due_split(s, i + 1, now)
    }
}

/// One scheduled action carried out. A lift also frees the slot of the binding it belongs to.
pub open spec fn act_done<C>(m: Model<C>, a: SchedAct) -> Model<C> {
    match a {
        SchedAct::Up { pid, x, y } => {
            let m1 = engine::emit(m, control::touch(control::ACTION_UP, pid, (x, y)));
            if 1000 <= pid < 2000 {
                Model { down: fingers::lift(m1.down, pid - 1000), ..m1 }
            } else {
                m1
            }
        },
        SchedAct::Move { pid, x, y } => engine::emit(
            m,
            control::touch(control::ACTION_MOVE, pid, (x, y)),
        ),
    }
}

pub open spec fn acts_done<C>(m: Model<C>, acts: Seq<SchedAct>, n: int) -> Model<C>
    decreases n,
{
    if n <= 0 {
        m
    } else {
        act_done(acts_done(m, acts, n - 1), acts[n - 1])
    }
}

/// The model after everything due was carried out; without a channel it is dropped.
pub open spec fn due_done<C>(m: Model<C>, channel: bool, now: u64) -> Model<C> {
    let (rest, due) = due_split(m.sched, 0, now);
    let m1 = Model { sched: rest, ..m };
    if channel {
        acts_done(m1, due, due.len() as int)
    } else {
        m1
    }
}

fn take_due(s: &mut Vec<(u64, SchedAct)>, now: u64) -> (due: Vec<SchedAct>)
    ensures
        (final(s)@, due@) == due_split(old(s)@, 0, now),
{
    let ghost whole = due_split(s@, 0, now);
    let mut due: Vec<SchedAct> = Vec::new();
    let mut i: usize = 0;
    assert(Seq::<SchedAct>::empty() + due_split(s@, 0, now).1 =~= due_split(s@, 0, now).1);
    while i < s.len()
        invariant
            i <= s.len(),
            whole.0 == due_split(s@, i as int, now).0,
            whole.1 == due@ + due_split(s@, i as int, now).1,
        decreases s.len() - i,
    {
        if s[i].0 <= now {
            let ghost before = s@;
            let ghost had = due@;
            let (_, act) = s.swap_remove(i);
            due.push(act);
            proof {
                assert(s@ =~= taken_out(before, i as int));
                let rest = due_split(s@, i as int, now);
                assert(had + (seq![act] + rest.1) =~= had.push(act) + rest.1);
            }
        } else {
            i = i + 1;
        }
    }
    assert(due@ + Seq::<SchedAct>::empty() =~= due@);
    due
}

fn do_act<C: Copy>(eng: &mut Engine<C>, ctl: &mut ControlClient, act: SchedAct)
    requires
        old(eng).wf(),
    ensures
        final(eng).wf(),
        engine::model(*final(eng), final(ctl)@) == act_done(
            engine::model(*old(eng), old(ctl)@),
            act,
        ),
        final(ctl).same_link(*old(ctl)),
{
    match act {
        SchedAct::Up { pid, x, y } => {
            ctl.touch_up(pid, x, y);
            if 1000 <= pid && pid < 2000 {
                proof {
                    engine::pool_after_finger(
                        engine::model(*eng, Seq::empty()),
                        pid - 1000,
                    );
                }
                eng.fingers.release((pid - 1000) as usize);
            }
        },
        SchedAct::Move { pid, x, y } => {
            ctl.touch_move(pid, x, y);
        },
    }
}

/// Carries out every scheduled action that is due.
pub fn run_due<C: Copy>(eng: &mut Engine<C>, shared: &mut Shared<C>, now: u64)
    requires
        old(eng).wf(),
    ensures
        final(eng).wf(),
        engine::model(*final(eng), queued(final(shared).control)) == due_done(
            engine::model(*old(eng), queued(old(shared).control)),
            old(shared).control is Some,
            now,
        ),
        same_channel(final(shared).control, old(shared).control),
        *final(shared) == (Shared { control: final(shared).control, ..*old(shared) }),
{
    let ghost m0 = engine::model(*eng, queued(shared.control));
    let due = take_due(&mut eng.scheduled, now);
    assert(engine::sane(engine::model(*eng, Seq::empty())));
    let ghost m1 = engine::model(*eng, queued(shared.control));
    match shared.control.take() {
        Some(mut c) => {
            let n: usize = due.len();
            let ghost link = c;
            for k in 0..n
                invariant
                    eng.wf(),
                    n == due.len(),
                    engine::model(*eng, c@) == acts_done(m1, due@, k as int),
                    c.same_link(link),
            {
                do_act(eng, &mut c, due[k]);
            }
            shared.control = Some(c);
        },
        None => {},
    }
}

// ---- switching off from the window -----------------------------------------------------

/// The mouse is ours again.
pub open spec fn mouse_back<C>(m: Model<C>) -> Model<C> {
    Model { aim: engine::AimState { released: false, ..m.aim }, ..m }
}

/// Everything released, over the channel if there is one.
pub open spec fn switched_off<C>(m: Model<C>, channel: bool, p: Profile<C>, ly: Layout) -> Model<
    C,
> {
    if channel {
        all_released(m, p, ly)
    } else {
        all_forgotten(m)
    }
}

/// The model after a look at the window's wish to switch mapping off.
pub open spec fn wish_followed<C>(
    m: Model<C>,
    wish: bool,
    channel: bool,
    p: Profile<C>,
    ly: Layout,
) -> Model<C> {
    let m1 = if wish && !m.toolbar_prev {
        mouse_back(switched_off(m, channel, p, ly))
    } else {
        m
    };
    Model { toolbar_prev: wish, ..m1 }
}

/// Follows the window's wish to switch mapping off: acts once each time the wish appears.
pub fn toolbar<C: Copy>(eng: &mut Engine<C>, shared: &mut Shared<C>, ly: &Layout)
    requires
        old(eng).wf(),
        ly.fits(old(shared).profile),
    ensures
        final(eng).wf(),
        engine::model(*final(eng), queued(final(shared).control)) == wish_followed(
            engine::model(*old(eng), queued(old(shared).control)),
            old(shared).toolbar_release,
            old(shared).control is Some,
            old(shared).profile,
            *ly,
        ),
        same_channel(final(shared).control, old(shared).control),
        *final(shared) == (Shared {
            control: final(shared).control,
            enabled: old(shared).enabled && !(old(shared).toolbar_release && !old(
                eng,
            ).toolbar_prev),
            ..*old(shared)
        }),
{
    if shared.toolbar_release && !eng.toolbar_prev {
        shared.enabled = false;
        let mut control = shared.control.take();
        release_all(eng, &mut control, &shared.profile, ly);
        shared.control = control;
        assert(engine::sane(engine::model(*eng, Seq::empty())));
        eng.aim.released = false;
    }
    assert(engine::sane(engine::model(*eng, Seq::empty())));
    eng.toolbar_prev = shared.toolbar_release;
}

// ---- regular upkeep --------------------------------------------------------------------

/// What the upkeep asks of the driver.
#[derive(Debug, Clone, Copy, PartialEq, Eq, Structural)]
pub struct Upkeep {
    /// Whether the cursor is to be captured.
    pub grab_mouse: bool,
    /// Whether to look for events at the fast pace.
    pub fast: bool,
}

/// The model after the upkeep.
pub open spec fn kept_up<C>(
    m: Model<C>,
    a: Aim<C>,
    connected: bool,
    anchor: (i32, i32),
    enabled: bool,
    away: bool,
    now: u64,
) -> Model<C> {
    let m1 = if connected {
        aim::ticked(m, a, anchor, enabled, away, now)
    } else {
        aim::forgotten(m)
    };
    Model { live: engine::EngineLive { pointers: engine::total(m1) as usize, ..m1.live }, ..m1 }
}

/// Looks after the aim finger and the cursor and publishes the engine's state. `away` says
/// whether the aim offset, if there is one, is other than zero.
pub fn upkeep<C: Copy>(
    eng: &mut Engine<C>,
    shared: &mut Shared<C>,
    anchor: (i32, i32),
    away: bool,
    now: u64,
) -> (r: Upkeep)
    requires
        old(eng).wf(),
    ensures
        final(eng).wf(),
        engine::model(*final(eng), queued(final(shared).control)) == kept_up(
            engine::model(*old(eng), queued(old(shared).control)),
            old(shared).profile.aim,
            online(old(shared).control),
            anchor,
            old(shared).enabled,
            away,
            now,
        ),
        r.fast == (old(shared).enabled && online(old(shared).control) || old(eng).aim.down),
        r.grab_mouse == aim::captures(
            old(shared).profile.aim,
            old(eng).aim,
            old(shared).enabled,
            online(old(shared).control),
        ),
        same_channel(final(shared).control, old(shared).control),
        *final(shared) == (Shared {
            control: final(shared).control,
            live: final(eng).live,
            aim_live: engine::AimLive {
                offset: final(eng).aim.offset,
                down: final(eng).aim.down,
                active: aim::aim_ready(old(shared).profile.aim, final(eng).aim),
                sent: final(eng).aim.sent,
                ..old(shared).aim_live
            },
            ..*old(shared)
        }),
{
    let cfg = shared.profile.aim;
    let enabled: bool = shared.enabled;
    let connected: bool = match &shared.control {
        Some(c) => c.is_connected(),
        None => false,
    };
    let fast: bool = (enabled && connected) || eng.aim.down;
    let grab_mouse: bool = wants_mouse(&cfg, &eng.aim, enabled, connected);
    if connected {
        match shared.control.take() {
            Some(mut c) => {
                aim_tick(eng, &mut c, &cfg, anchor, enabled, away, now);
                shared.control = Some(c);
            },
            None => {},
        }
    } else {
        aim_release_local(eng);
    }
    shared.aim_live.offset = eng.aim.offset;
    shared.aim_live.down = eng.aim.down;
    shared.aim_live.active = aim_active(&cfg, &eng.aim);
    shared.aim_live.sent = eng.aim.sent;
    assert(engine::sane(engine::model(*eng, Seq::empty())));
    let n: usize = all_pointers(eng);
    assert(n == engine::total(engine::model(*eng, queued(shared.control))));
    eng.live.pointers = n;
    shared.live = eng.live;
    Upkeep { grab_mouse, fast }
}

/// How far away a time is.
pub open spec fn until(t: u64, now: u64) -> int {
    if t > now {
        t - now
    } else {
        0
    }
}

/// How long to wait for an event, in nanoseconds: until the next scheduled action, but no
/// longer than the pace allows.
pub fn wait_for(scheduled: &Vec<(u64, SchedAct)>, fast: bool, now: u64) -> (w: u64)
    ensures
        ({
            let pace = if fast {
                IDLE_FAST_MS * MS
            } else {
                IDLE_SLOW_MS * MS
            };
            &&& w <= pace
            &&& forall|i: int|
                0 <= i < scheduled@.len() ==> w <= until((#[trigger] scheduled@[i]).0, now)
            &&& w == pace || exists|i: int|
                0 <= i < scheduled@.len() && w == until((#[trigger] scheduled@[i]).0, now)
        }),
{
    let mut w: u64 = if fast {
        IDLE_FAST_MS * MS
    } else {
        IDLE_SLOW_MS * MS
    };
    let ghost pace = w;
    let n: usize = scheduled.len();
    for i in 0..n
        invariant
            n == scheduled.len(),
            w <= pace,
            forall|k: int| 0 <= k < i ==> w <= until((#[trigger] scheduled@[k]).0, now),
            w == pace || exists|k: int|
                0 <= k < i && w == until((#[trigger] scheduled@[k]).0, now),
    {
        let t: u64 = scheduled[i].0;
        let d: u64 = if t > now {
            t - now
        } else {
            0
        };
        if d < w {
            w = d;
        }
    }
    w
}

// ---- mouse motion ----------------------------------------------------------------------

/// The model after a mouse motion.
pub open spec fn motion_done<C>(
    m: Model<C>,
    a: Aim<C>,
    mapped: bool,
    anchor: (i32, i32),
    d: Drag<C>,
    now: u64,
) -> Model<C> {
    if mapped {
        let m1 = aim::dragged(m, a, anchor, d, now);
        if aim::crowded_out(m, a) {
            engine::refused(m1, 0)
        } else {
            m1
        }
    } else {
        m
    }
}

/// Handles a mouse motion; `drag` is what it amounts to (see [`crate::aim::drag_base`]).
pub fn on_motion<C: Copy>(
    eng: &mut Engine<C>,
    shared: &mut Shared<C>,
    anchor: (i32, i32),
    motion: (C, C),
    drag: &Drag<C>,
    now: u64,
)
    requires
        old(eng).wf(),
    ensures
        final(eng).wf(),
        engine::model(*final(eng), queued(final(shared).control)) == motion_done(
            engine::model(*old(eng), queued(old(shared).control)),
            old(shared).profile.aim,
            old(shared).enabled && online(old(shared).control),
            anchor,
            *drag,
            now,
        ),
        same_channel(final(shared).control, old(shared).control),
        *final(shared) == (Shared {
            control: final(shared).control,
            live: final(eng).live,
            aim_live: engine::AimLive {
                motions: old(shared).aim_live.motions.wrapping_add(1),
                last: Some(motion),
                offset: final(eng).aim.offset,
                down: final(eng).aim.down,
                sent: final(eng).aim.sent,
                ..old(shared).aim_live
            },
            ..*old(shared)
        }),
{
    shared.aim_live.motions = shared.aim_live.motions.wrapping_add(1);
    shared.aim_live.last = Some(motion);
    if shared.enabled {
        let cfg = shared.profile.aim;
        match shared.control.take() {
            Some(mut c) => {
                if c.is_connected() {
                    if aim_on_motion(eng, &mut c, &cfg, anchor, drag, now) {
                        assert(engine::sane(engine::model(*eng, Seq::empty())));
                        refuse(&mut eng.live, 0);
                    }
                }
                shared.control = Some(c);
            },
            None => {},
        }
    }
    shared.aim_live.offset = eng.aim.offset;
    shared.aim_live.down = eng.aim.down;
    shared.aim_live.sent = eng.aim.sent;
    shared.live = eng.live;
}

} // verus!
