//! The mapping engine: key and mouse events in, control commands out.
//!
//! A tap touches for a while, a hold touches while its key is held, a swipe runs along its
//! path, a wheel pushes a joystick in the direction of the keys held. Three rules run through
//! the whole module. Every finger that went down is lifted again, whatever happens in between.
//! When a key changes hands between a wheel and a binding, both sides are brought in line with
//! the keys that are physically held. When the profile changes shape, everything is lifted and
//! built up again from the profile as it now is.
//!
//! The state is described by [`Model`]; each function says which model it makes of which.

use vstd::prelude::*;
use crate::control::{self, ControlClient, ControlCmd};
use crate::fingers::{self, Fingers, Held, KeySet, DEVICE_MAX_POINTERS};
use crate::keymap::Profile;

verus! {

/// Pointer id of the aim finger.
pub const AIM_PID: u64 = 3000;

/// How long to wait for an event while mapping runs, in milliseconds.
pub const IDLE_FAST_MS: u64 = 4;

/// How long to wait for an event otherwise, in milliseconds.
pub const IDLE_SLOW_MS: u64 = 16;

/// Nanoseconds in a millisecond. Times are readings of a monotonic clock in nanoseconds.
pub const MS: u64 = 1_000_000;

/// The latest clock reading that still leaves room for every schedule.
pub const LAST_CLOCK: u64 = 0x7fff_ffff_ffff_ffff;

pub const KEY_LEFTCTRL: u16 = 29;

pub const KEY_RIGHTCTRL: u16 = 97;

pub const KEY_LEFTALT: u16 = 56;

pub const KEY_RIGHTALT: u16 = 100;

pub open spec fn ctrl_code(code: u16) -> bool {
    code == KEY_LEFTCTRL || code == KEY_RIGHTCTRL
}

pub open spec fn alt_code(code: u16) -> bool {
    code == KEY_LEFTALT || code == KEY_RIGHTALT
}

pub fn is_ctrl(code: u16) -> (r: bool)
    ensures
        r == ctrl_code(code),
{
    code == KEY_LEFTCTRL || code == KEY_RIGHTCTRL
}

pub fn is_alt(code: u16) -> (r: bool)
    ensures
        r == alt_code(code),
{
    code == KEY_LEFTALT || code == KEY_RIGHTALT
}

pub open spec fn chord(code: u16, pressed: bool, ctrl_down: bool, alt_down: bool) -> bool {
    pressed && ctrl_down && alt_down && (ctrl_code(code) || alt_code(code))
}

/// Whether this event completes Ctrl+Alt: both are down and this press is one of them.
pub fn ctrl_alt_chord(code: u16, pressed: bool, ctrl_down: bool, alt_down: bool) -> (r: bool)
    ensures
        r == chord(code, pressed, ctrl_down, alt_down),
{
    pressed && ctrl_down && alt_down && (is_ctrl(code) || is_alt(code))
}

/// What the engine shows of itself.
#[derive(Debug, Clone, Copy, PartialEq, Eq, Structural)]
pub struct EngineLive {
    /// Pointers down right now.
    pub pointers: usize,
    /// Presses given up so far because the device had no pointer left.
    pub refused: u64,
    /// The key of the last one given up.
    pub last_refused: u16,
}

impl Default for EngineLive {
    fn default() -> (r: Self)
        ensures
            r == (EngineLive { pointers: 0, refused: 0, last_refused: 0 }),
    {
        EngineLive { pointers: 0, refused: 0, last_refused: 0 }
    }
}

/// An action waiting for its time.
#[derive(Debug, Clone, Copy, PartialEq, Eq, Structural)]
pub enum SchedAct {
    Up { pid: u64, x: i32, y: i32 },
    Move { pid: u64, x: i32, y: i32 },
}

/// Which direction keys of a wheel are held.
#[derive(Debug, Clone, Copy, PartialEq, Eq, Structural)]
pub struct Dirs {
    pub up: bool,
    pub down: bool,
    pub left: bool,
    pub right: bool,
}

/// State of one wheel.
#[derive(Debug, Clone, Copy, PartialEq, Eq)]
pub struct WheelState {
    pub pressed: Dirs,
    /// Whether its finger is down.
    pub down: bool,
    /// Where the finger was last pushed to.
    pub last: (i32, i32),
    /// Whether a temporary wheel is switched on.
    pub active: bool,
}

pub open spec fn no_dirs() -> Dirs {
    Dirs { up: false, down: false, left: false, right: false }
}

pub(crate) fn none_pressed() -> (r: Dirs)
    ensures
        r == no_dirs(),
{
    Dirs { up: false, down: false, left: false, right: false }
}

pub open spec fn idle_wheel(active: bool) -> WheelState {
    WheelState { pressed: no_dirs(), down: false, last: (0, 0), active }
}

impl Default for WheelState {
    fn default() -> (r: Self)
        ensures
            r == idle_wheel(false),
    {
        WheelState { pressed: none_pressed(), down: false, last: (0, 0), active: false }
    }
}

/// State of mouse look. An offset of `None` is no offset.
#[derive(Debug, PartialEq)]
pub struct AimState<C> {
    /// Whether the aim finger is down.
    pub down: bool,
    /// How far the finger was dragged from the anchor, in pixels.
    pub offset: Option<(C, C)>,
    /// Where the finger is.
    pub cur: (i32, i32),
    /// Whether the button that enables aiming is held.
    pub gate_down: bool,
    /// Whether the mouse was handed back to the system.
    pub released: bool,
    /// When the mouse last moved.
    pub last_motion: Option<u64>,
    /// The anchor of the current drag.
    pub anchor_used: (i32, i32),
    /// Touch messages sent so far.
    pub sent: u64,
}

impl<C: Copy> Clone for AimState<C> {
    fn clone(&self) -> (r: Self)
        ensures
            r == *self,
    {
        *self
    }
}

impl<C: Copy> Copy for AimState<C> {

}

impl<C> Default for AimState<C> {
    fn default() -> (r: Self)
        ensures
            r == (AimState::<C> {
                down: false,
                offset: None,
                cur: (0, 0),
                gate_down: false,
                released: false,
                last_motion: None,
                anchor_used: (0, 0),
                sent: 0,
            }),
    {
        AimState {
            down: false,
            offset: None,
            cur: (0, 0),
            gate_down: false,
            released: false,
            last_motion: None,
            anchor_used: (0, 0),
            sent: 0,
        }
    }
}

/// What mouse look shows of itself.
#[derive(Debug, PartialEq)]
pub struct AimLive<C> {
    /// Mouse motions received so far.
    pub motions: u64,
    /// The last motion.
    pub last: Option<(C, C)>,
    pub offset: Option<(C, C)>,
    pub down: bool,
    pub active: bool,
    pub sent: u64,
}

impl<C: Copy> Clone for AimLive<C> {
    fn clone(&self) -> (r: Self)
        ensures
            r == *self,
    {
        *self
    }
}

impl<C: Copy> Copy for AimLive<C> {

}

impl<C> Default for AimLive<C> {
    fn default() -> (r: Self)
        ensures
            r == (AimLive::<C> {
                motions: 0,
                last: None,
                offset: None,
                down: false,
                active: false,
                sent: 0,
            }),
    {
        AimLive { motions: 0, last: None, offset: None, down: false, active: false, sent: 0 }
    }
}

/// What the engine and the window share.
pub struct Shared<C> {
    pub profile: Profile<C>,
    /// Whether mapping is on.
    pub enabled: bool,
    pub control: Option<ControlClient>,
    pub aim_live: AimLive<C>,
    pub live: EngineLive,
    /// The window asks for mapping to be switched off with everything lifted.
    pub toolbar_release: bool,
}

/// All state of the engine.
pub struct Engine<C> {
    pub fingers: Fingers,
    pub keys: KeySet,
    pub wheels: Vec<WheelState>,
    pub held: Held,
    pub live: EngineLive,
    pub aim: AimState<C>,
    pub binds_sig: u64,
    pub wheel_sig: u64,
    pub ctrl_down: bool,
    pub alt_down: bool,
    pub toolbar_prev: bool,
    pub scheduled: Vec<(u64, SchedAct)>,
}

/// The engine and its outgoing queue as mathematical values.
#[verifier::ext_equal]
pub struct Model<C> {
    pub down: Seq<bool>,
    pub keys: Seq<u16>,
    pub wheels: Seq<WheelState>,
    pub held: Set<u16>,
    pub live: EngineLive,
    pub aim: AimState<C>,
    pub binds_sig: u64,
    pub wheel_sig: u64,
    pub ctrl_down: bool,
    pub alt_down: bool,
    pub toolbar_prev: bool,
    pub sched: Seq<(u64, SchedAct)>,
    pub out: Seq<ControlCmd>,
}

pub open spec fn model<C>(e: Engine<C>, out: Seq<ControlCmd>) -> Model<C> {
    Model {
        down: e.fingers@,
        keys: e.keys@,
        wheels: e.wheels@,
        held: e.held@,
        live: e.live,
        aim: e.aim,
        binds_sig: e.binds_sig,
        wheel_sig: e.wheel_sig,
        ctrl_down: e.ctrl_down,
        alt_down: e.alt_down,
        toolbar_prev: e.toolbar_prev,
        sched: e.scheduled@,
        out,
    }
}

/// For each wheel, whether its finger is down.
pub open spec fn downs(ws: Seq<WheelState>) -> Seq<bool> {
    ws.map_values(|w: WheelState| w.down)
}

/// How many wheel fingers are down.
pub open spec fn wheels_down(ws: Seq<WheelState>) -> nat {
    fingers::count_true(downs(ws))
}

pub open spec fn flag(b: bool) -> nat {
    if b {
        1
    } else {
        0
    }
}

/// Pointers held by wheels and aim.
pub open spec fn reserved<C>(m: Model<C>) -> nat {
    wheels_down(m.wheels) + flag(m.aim.down)
}

/// All pointers down.
pub open spec fn total<C>(m: Model<C>) -> nat {
    fingers::count_true(m.down) + reserved(m)
}

/// The device is never asked for more pointers than it has, and pointer ids exist for every
/// slot.
pub open spec fn sane<C>(m: Model<C>) -> bool {
    &&& total(m) <= DEVICE_MAX_POINTERS
    &&& m.down.len() + 3000 <= u64::MAX
    &&& m.wheels.len() + 3000 <= u64::MAX
}

impl<C> Engine<C> {
    pub open spec fn wf(self) -> bool {
        &&& self.fingers.wf()
        &&& self.keys.wf()
        &&& sane(model(self, Seq::empty()))
    }

    /// An engine with nothing pressed.
    pub fn new() -> (e: Self)
        ensures
            e.wf(),
            model(e, Seq::empty()) == initial_model::<C>(),
    {
        let e = Engine {
            fingers: Fingers::default(),
            keys: KeySet::default(),
            wheels: Vec::new(),
            held: Held::default(),
            live: EngineLive::default(),
            aim: AimState::default(),
            binds_sig: 0,
            wheel_sig: 0,
            ctrl_down: false,
            alt_down: false,
            toolbar_prev: false,
            scheduled: Vec::new(),
        };
        assert(downs(e.wheels@) =~= Seq::<bool>::empty());
        e
    }
}

pub open spec fn initial_model<C>() -> Model<C> {
    Model {
        down: Seq::empty(),
        keys: Seq::empty(),
        wheels: Seq::empty(),
        held: Set::empty(),
        live: EngineLive { pointers: 0, refused: 0, last_refused: 0 },
        aim: AimState {
            down: false,
            offset: None,
            cur: (0, 0),
            gate_down: false,
            released: false,
            last_motion: None,
            anchor_used: (0, 0),
            sent: 0,
        },
        binds_sig: 0,
        wheel_sig: 0,
        ctrl_down: false,
        alt_down: false,
        toolbar_prev: false,
        sched: Seq::empty(),
        out: Seq::empty(),
    }
}

// ---- small steps on models -------------------------------------------------------------

/// One more command in the queue.
pub open spec fn emit<C>(m: Model<C>, cmd: ControlCmd) -> Model<C> {
    Model { out: m.out.push(cmd), ..m }
}

/// A press of `code` was given up.
pub open spec fn refused<C>(m: Model<C>, code: u16) -> Model<C> {
    Model {
        live: EngineLive {
            refused: m.live.refused.wrapping_add(1),
            last_refused: code,
            ..m.live
        },
        ..m
    }
}

pub(crate) fn refuse(live: &mut EngineLive, code: u16)
    ensures
        *final(live) == (EngineLive {
            refused: old(live).refused.wrapping_add(1),
            last_refused: code,
            ..*old(live)
        }),
{
    live.refused = live.refused.wrapping_add(1);
    live.last_refused = code;
}

pub open spec fn bind_id(idx: int) -> u64 {
    (1000 + idx) as u64
}

pub open spec fn wheel_id(idx: int) -> u64 {
    (2000 + idx) as u64
}

/// Bindings, wheels and mouse look have fingers of their own: as long as there are no more than
/// a thousand bindings and a thousand wheels, no two of them share a pointer.
pub proof fn pointers_are_distinct(i: int, j: int)
    requires
        0 <= i < 1000,
        0 <= j < 1000,
    ensures
        bind_id(i) != wheel_id(j),
        bind_id(i) != AIM_PID,
        wheel_id(i) != AIM_PID,
        bind_id(i) == bind_id(j) ==> i == j,
        wheel_id(i) == wheel_id(j) ==> i == j,
{
}

pub fn bind_pid(idx: usize) -> (r: u64)
    requires
        idx + 1000 <= u64::MAX,
    ensures
        r == bind_id(idx as int),
{
    1000 + idx as u64
}

pub fn wheel_pid(idx: usize) -> (r: u64)
    requires
        idx + 2000 <= u64::MAX,
    ensures
        r == wheel_id(idx as int),
{
    2000 + idx as u64
}

/// Finger `idx` goes down at `at`.
pub open spec fn finger_down<C>(m: Model<C>, idx: int, at: (i32, i32)) -> Model<C> {
    emit(
        Model { down: fingers::press(m.down, idx), ..m },
        control::touch(control::ACTION_DOWN, bind_id(idx), at),
    )
}

/// Finger `idx` is lifted at `at` if it is down.
pub open spec fn finger_up<C>(m: Model<C>, idx: int, at: (i32, i32)) -> Model<C> {
    if fingers::slot(m.down, idx) {
        emit(
            Model { down: fingers::lift(m.down, idx), ..m },
            control::touch(control::ACTION_UP, bind_id(idx), at),
        )
    } else {
        m
    }
}

/// Android key `keycode` goes down unless it is.
pub open spec fn key_down<C>(m: Model<C>, keycode: u32) -> Model<C> {
    if m.keys.contains(keycode as u16) {
        m
    } else {
        emit(
            Model { keys: fingers::key_added(m.keys, keycode as u16), ..m },
            control::key_cmd(true, keycode),
        )
    }
}

/// Android key `keycode` goes up if it is down.
pub open spec fn key_up<C>(m: Model<C>, keycode: u32) -> Model<C> {
    if m.keys.contains(keycode as u16) {
        emit(
            Model { keys: fingers::key_removed(m.keys, keycode as u16), ..m },
            control::key_cmd(false, keycode),
        )
    } else {
        m
    }
}

/// A slot that may go down does, at `at`; otherwise the press of `code` is given up.
pub open spec fn try_press<C>(m: Model<C>, idx: int, code: u16, at: (i32, i32)) -> Model<C> {
    if fingers::can_press(m.down, idx, reserved(m) as int) {
        finger_down(m, idx, at)
    } else {
        refused(m, code)
    }
}

pub proof fn pool_after_finger<C>(m: Model<C>, idx: int)
    requires
        0 <= idx,
        sane(m),
        idx + 3000 < u64::MAX,
    ensures
        fingers::can_press(m.down, idx, reserved(m) as int) ==> sane(
            Model { down: fingers::press(m.down, idx), ..m },
        ),
        sane(Model { down: fingers::lift(m.down, idx), ..m }),
{
    fingers::press_lift_count(m.down, idx);
}

/// Presses finger `idx` if it may go down; says whether it did.
pub(crate) fn press_finger<C: Copy>(
    eng: &mut Engine<C>,
    ctl: &mut ControlClient,
    idx: usize,
    at: (i32, i32),
) -> (ok: bool)
    requires
        old(eng).wf(),
        idx + 3000 < u64::MAX,
        idx < usize::MAX,
    ensures
        final(eng).wf(),
        ok == fingers::can_press(
            old(eng).fingers@,
            idx as int,
            reserved(model(*old(eng), old(ctl)@)) as int,
        ),
        model(*final(eng), final(ctl)@) == (if ok {
            finger_down(model(*old(eng), old(ctl)@), idx as int, at)
        } else {
            model(*old(eng), old(ctl)@)
        }),
        final(ctl).same_link(*old(ctl)),
{
    let others: usize = reserved_pointers(eng);
    proof {
        pool_after_finger(model(*eng, Seq::empty()), idx as int);
    }
    if eng.fingers.try_down(idx, others) {
        ctl.touch_down(bind_pid(idx), at.0, at.1);
        true
    } else {
        false
    }
}

/// Lifts finger `idx` if it is down; says whether it was.
pub(crate) fn lift_finger<C: Copy>(
    eng: &mut Engine<C>,
    ctl: &mut ControlClient,
    idx: usize,
    at: (i32, i32),
) -> (was_down: bool)
    requires
        old(eng).wf(),
        idx + 3000 < u64::MAX,
    ensures
        final(eng).wf(),
        was_down == fingers::slot(old(eng).fingers@, idx as int),
        model(*final(eng), final(ctl)@) == finger_up(
            model(*old(eng), old(ctl)@),
            idx as int,
            at,
        ),
        final(ctl).same_link(*old(ctl)),
{
    proof {
        pool_after_finger(model(*eng, Seq::empty()), idx as int);
    }
    if eng.fingers.release(idx) {
        ctl.touch_up(bind_pid(idx), at.0, at.1);
        true
    } else {
        false
    }
}

pub(crate) fn press_key<C: Copy>(eng: &mut Engine<C>, ctl: &mut ControlClient, keycode: u32)
    requires
        old(eng).wf(),
    ensures
        final(eng).wf(),
        model(*final(eng), final(ctl)@) == key_down(model(*old(eng), old(ctl)@), keycode),
        final(ctl).same_link(*old(ctl)),
{
    if eng.keys.insert(keycode as u16) {
        ctl.key(true, keycode);
    }
}

pub(crate) fn release_key<C: Copy>(eng: &mut Engine<C>, ctl: &mut ControlClient, keycode: u32)
    requires
        old(eng).wf(),
    ensures
        final(eng).wf(),
        model(*final(eng), final(ctl)@) == key_up(model(*old(eng), old(ctl)@), keycode),
        final(ctl).same_link(*old(ctl)),
{
    if eng.keys.remove(keycode as u16) {
        ctl.key(false, keycode);
    }
}

/// How many wheel fingers are down.
pub fn wheel_pointers(wheels: &Vec<WheelState>) -> (r: usize)
    ensures
        r == wheels_down(wheels@),
{
    let mut n: usize = 0;
    let len: usize = wheels.len();
    let ghost d = downs(wheels@);
    assert(d.take(0) =~= Seq::<bool>::empty());
    for i in 0..len
        invariant
            len == wheels.len(),
            d == downs(wheels@),
            n <= i,
            n == fingers::count_true(d.take(i as int)),
    {
        assert(d.take(i + 1).drop_last() =~= d.take(i as int));
        if wheels[i].down {
            n = n + 1;
        }
    }
    assert(d.take(len as int) =~= d);
    n
}

pub(crate) fn reserved_pointers<C>(eng: &Engine<C>) -> (r: usize)
    requires
        eng.wf(),
    ensures
        forall|out: Seq<ControlCmd>| r == reserved(#[trigger] model(*eng, out)),
{
    let n: usize = wheel_pointers(&eng.wheels);
    assert(sane(model(*eng, Seq::empty())));
    if eng.aim.down {
        n + 1
    } else {
        n
    }
}

pub(crate) fn all_pointers<C>(eng: &Engine<C>) -> (r: usize)
    requires
        eng.wf(),
    ensures
        forall|out: Seq<ControlCmd>| r == total(#[trigger] model(*eng, out)),
{
    let n: usize = reserved_pointers(eng);
    assert(sane(model(*eng, Seq::empty())));
    assert(n == reserved(model(*eng, Seq::empty())));
    eng.fingers.count + n
}

} // verus!
