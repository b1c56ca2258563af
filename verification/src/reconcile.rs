//! Bringing fingers and wheels in line with the keys that are held, and telling when a
//! profile changed its shape.

use vstd::prelude::*;
use crate::control::{self, ControlClient, ControlCmd};
use crate::engine::{
    self, Dirs, Engine, Model, WheelState, all_pointers, lift_finger, none_pressed, press_finger,
    press_key, refuse, release_key, wheel_pid,
};
use crate::fingers::{self, DEVICE_MAX_POINTERS};
use crate::keymap::{Action, KeyBind, Profile, TempMode, TempWheel, Wheel};
use crate::layout::{Layout, WheelPx};

verus! {

// ---- shape of a profile ----------------------------------------------------------------

/// The kind of an action as far as the shape of a profile goes.
pub open spec fn kind_code<C>(a: Action<C>) -> u64 {
    match a {
        Action::Tap { duration_ms, .. } => if duration_ms == 0 {
            1u64
        } else {
            2u64
        },
        Action::Hold { .. } => 3u64,
        Action::Swipe(_) => 4u64,
        Action::AndroidKey { .. } => 5u64,
    }
}

/// `v` with its bits moved up by seven, those that fall out coming in below.
pub open spec fn rotated7(v: u64) -> u64 {
    (v << 7u64) | (v >> 57u64)
}

/// The fingerprint `h` with one more binding mixed in.
pub open spec fn mix_bind(h: u64, key: u16, kind: u64) -> u64 {
    rotated7(h.wrapping_mul(0x100_0000_01b3).wrapping_add((key as u64 + 1) as u64)).wrapping_add(
        kind,
    )
}

/// The fingerprint of the first `n` bindings on top of `h`.
pub open spec fn binds_mixed<C>(h: u64, binds: Seq<KeyBind<C>>, n: int) -> u64
    decreases n,
{
    if n <= 0 {
        h
    } else {
        mix_bind(binds_mixed(h, binds, n - 1), binds[n - 1].key, kind_code(binds[n - 1].action))
    }
}

/// The fingerprint of a list of bindings: how many, their keys, and their kinds in order.
pub open spec fn binds_print<C>(binds: Seq<KeyBind<C>>) -> u64 {
    binds_mixed(binds.len() as u64, binds, binds.len() as int)
}

/// Fingerprint of the bindings. Indices name fingers, so when it changes every finger must be
/// lifted; where and how large a key is does not enter.
pub fn binds_signature<C>(binds: &Vec<KeyBind<C>>) -> (h: u64)
    ensures
        h == binds_print(binds@),
{
    let n: usize = binds.len();
    let mut h: u64 = n as u64;
    for i in 0..n
        invariant
            n == binds.len(),
            h == binds_mixed(n as u64, binds@, i as int),
    {
        let kind: u64 = match &binds[i].action {
            Action::Tap { duration_ms, .. } => {
                if *duration_ms == 0 {
                    1
                } else {
                    2
                }
            },
            Action::Hold { .. } => 3,
            Action::Swipe(_) => 4,
            Action::AndroidKey { .. } => 5,
        };
        let v: u64 = h.wrapping_mul(0x100_0000_01b3).wrapping_add(binds[i].key as u64 + 1);
        h = ((v << 7u64) | (v >> 57u64)).wrapping_add(kind);
    }
    h
}

pub open spec fn mix_key(h: u64, key: u16) -> u64 {
    h.wrapping_mul(0x100_0000_01b3).wrapping_add((key as u64 + 1) as u64)
}

pub open spec fn mode_code(m: TempMode) -> u64 {
    match m {
        TempMode::Hold => 1u64,
        TempMode::Toggle => 2u64,
    }
}

pub open spec fn mix_temp(h: u64, t: Option<TempWheel>) -> u64 {
    match t {
        None => h.wrapping_mul(31).wrapping_add(0x9E37_79B9),
        Some(t) => h.wrapping_mul(31).wrapping_add((t.key as u64 + 1) as u64).wrapping_mul(
            31,
        ).wrapping_add(mode_code(t.mode)),
    }
}

pub open spec fn mix_wheel<C>(h: u64, w: Wheel<C>) -> u64 {
    mix_temp(mix_key(mix_key(mix_key(mix_key(h, w.up), w.down), w.left), w.right), w.temp)
}

pub open spec fn wheels_mixed<C>(h: u64, wheels: Seq<Wheel<C>>, n: int) -> u64
    decreases n,
{
    if n <= 0 {
        h
    } else {
        mix_wheel(wheels_mixed(h, wheels, n - 1), wheels[n - 1])
    }
}

/// The fingerprint of a list of wheels: how many, their direction keys, and how each is
/// switched on.
pub open spec fn wheels_print<C>(wheels: Seq<Wheel<C>>) -> u64 {
    wheels_mixed(wheels.len() as u64, wheels, wheels.len() as int)
}

fn mixed(h: u64, key: u16) -> (r: u64)
    ensures
        r == mix_key(h, key),
{
    h.wrapping_mul(0x100_0000_01b3).wrapping_add(key as u64 + 1)
}

/// Fingerprint of the wheels; position, radius and scope do not enter.
pub fn wheel_signature<C>(wheels: &Vec<Wheel<C>>) -> (h: u64)
    ensures
        h == wheels_print(wheels@),
{
    let n: usize = wheels.len();
    let mut h: u64 = n as u64;
    for i in 0..n
        invariant
            n == wheels.len(),
            h == wheels_mixed(n as u64, wheels@, i as int),
    {
        let w = &wheels[i];
        let k: u64 = mixed(mixed(mixed(mixed(h, w.up), w.down), w.left), w.right);
        h = match &w.temp {
            None => k.wrapping_mul(31).wrapping_add(0x9E37_79B9),
            Some(t) => {
                let a: u64 = k.wrapping_mul(31).wrapping_add(t.key as u64 + 1);
                let mode: u64 = match t.mode {
                    TempMode::Hold => 1,
                    TempMode::Toggle => 2,
                };
                a.wrapping_mul(31).wrapping_add(mode)
            },
        };
    }
    h
}

/// Moving or resizing keys is not a change of shape: bindings that agree in key and kind have
/// the same fingerprint.
pub proof fn binds_print_ignores_geometry<C>(a: Seq<KeyBind<C>>, b: Seq<KeyBind<C>>)
    requires
        a.len() == b.len(),
        forall|i: int|
            0 <= i < a.len() ==> (#[trigger] a[i]).key == b[i].key && kind_code(a[i].action)
                == kind_code(b[i].action),
    ensures
        binds_print(a) == binds_print(b),
{
    binds_mixed_agree(a.len() as u64, a, b, a.len() as int);
}

proof fn binds_mixed_agree<C>(h: u64, a: Seq<KeyBind<C>>, b: Seq<KeyBind<C>>, n: int)
    requires
        n <= a.len(),
        a.len() == b.len(),
        forall|i: int|
            0 <= i < a.len() ==> (#[trigger] a[i]).key == b[i].key && kind_code(a[i].action)
                == kind_code(b[i].action),
    ensures
        binds_mixed(h, a, n) == binds_mixed(h, b, n),
    decreases n,
{
    if n > 0 {
        binds_mixed_agree(h, a, b, n - 1);
        assert(a[n - 1].key == b[n - 1].key);
    }
}

/// Moving or resizing wheels is not a change of shape either.
pub proof fn wheels_print_ignores_geometry<C>(a: Seq<Wheel<C>>, b: Seq<Wheel<C>>)
    requires
        a.len() == b.len(),
        forall|i: int|
            0 <= i < a.len() ==> (#[trigger] a[i]).up == b[i].up && a[i].down == b[i].down
                && a[i].left == b[i].left && a[i].right == b[i].right && a[i].temp == b[i].temp,
    ensures
        wheels_print(a) == wheels_print(b),
{
    wheels_mixed_agree(a.len() as u64, a, b, a.len() as int);
}

proof fn wheels_mixed_agree<C>(h: u64, a: Seq<Wheel<C>>, b: Seq<Wheel<C>>, n: int)
    requires
        n <= a.len(),
        a.len() == b.len(),
        forall|i: int|
            0 <= i < a.len() ==> (#[trigger] a[i]).up == b[i].up && a[i].down == b[i].down
                && a[i].left == b[i].left && a[i].right == b[i].right && a[i].temp == b[i].temp,
    ensures
        wheels_mixed(h, a, n) == wheels_mixed(h, b, n),
    decreases n,
{
    if n > 0 {
        wheels_mixed_agree(h, a, b, n - 1);
        assert(a[n - 1].up == b[n - 1].up);
    }
}

// ---- what a fingerprint notices --------------------------------------------------------

proof fn rotation_keeps_apart(a: u64, b: u64)
    requires
        rotated7(a) == rotated7(b),
    ensures
        a == b,
{
    assert(((a << 7u64) | (a >> 57u64)) == ((b << 7u64) | (b >> 57u64)) ==> a == b)
        by (bit_vector);
}

/// Multiplying by an odd number can be undone, up to multiples of two to the power of 64.
proof fn product_keeps_apart(a: u64, b: u64, f: int, inverse: int, times: int)
    requires
        (a * f) % 0x1_0000_0000_0000_0000 == (b * f) % 0x1_0000_0000_0000_0000,
        f * inverse == 1 + times * 0x1_0000_0000_0000_0000,
    ensures
        a == b,
{
    let range: int = 0x1_0000_0000_0000_0000;
    let d = a - b;
    let k = (a * f) / range - (b * f) / range;
    vstd::arithmetic::div_mod::lemma_fundamental_div_mod(a * f, range);
    vstd::arithmetic::div_mod::lemma_fundamental_div_mod(b * f, range);
    assert(d * f == a * f - b * f) by (nonlinear_arith)
        requires
            d == a - b,
    ;
    assert(d * f == range * k);
    assert(d * (f * inverse) == (d * f) * inverse) by (nonlinear_arith);
    assert((range * k) * inverse == range * (k * inverse)) by (nonlinear_arith);
    assert(d * (1 + times * range) == d + range * (d * times)) by (nonlinear_arith);
    let n = k * inverse - d * times;
    assert(range * (k * inverse) - range * (d * times) == range * n) by (nonlinear_arith)
        requires
            n == k * inverse - d * times,
    ;
    assert(d == range * n);
    assert(n == 0);
}

proof fn mixing_keeps_apart(a: u64, b: u64)
    ensures
        a.wrapping_mul(0x100_0000_01b3) == b.wrapping_mul(0x100_0000_01b3) ==> a == b,
        a.wrapping_mul(31) == b.wrapping_mul(31) ==> a == b,
{
    if a.wrapping_mul(0x100_0000_01b3) == b.wrapping_mul(0x100_0000_01b3) {
        product_keeps_apart(a, b, 0x100_0000_01b3, 14886173955864302971, 887285111055);
    }
    if a.wrapping_mul(31) == b.wrapping_mul(31) {
        product_keeps_apart(a, b, 31, 17256631552825064415, 29);
    }
}

proof fn bind_keeps_apart(a: u64, b: u64, key: u16, other: u16, kind: u64, another: u64)
    requires
        kind <= 5,
        another <= 5,
    ensures
        mix_bind(a, key, kind) == mix_bind(b, key, kind) ==> a == b,
        mix_bind(a, key, kind) == mix_bind(a, other, kind) ==> key == other,
        mix_bind(a, key, kind) == mix_bind(a, key, another) ==> kind == another,
{
    let f = 0x100_0000_01b3u64;
    let x = a.wrapping_mul(f).wrapping_add((key as u64 + 1) as u64);
    let y = b.wrapping_mul(f).wrapping_add((key as u64 + 1) as u64);
    let z = a.wrapping_mul(f).wrapping_add((other as u64 + 1) as u64);
    mixing_keeps_apart(a, b);
    if rotated7(x) == rotated7(y) {
        rotation_keeps_apart(x, y);
    }
    if rotated7(x) == rotated7(z) {
        rotation_keeps_apart(x, z);
    }
}

/// A fingerprint of bindings notices every edit of one binding that changes its key, or that
/// changes what it is: a tap that latches, one that does not, a hold, a swipe or a system key.
pub proof fn binds_print_notices<C>(a: Seq<KeyBind<C>>, b: Seq<KeyBind<C>>, i: int)
    requires
        a.len() == b.len(),
        0 <= i < a.len(),
        forall|k: int| 0 <= k < a.len() && k != i ==> #[trigger] a[k] == b[k],
        ({
            let same_kind = match (a[i].action, b[i].action) {
                (Action::Tap { duration_ms: d, .. }, Action::Tap { duration_ms: e, .. }) => (d == 0)
                    == (e == 0),
                (Action::Hold { .. }, Action::Hold { .. }) => true,
                (Action::Swipe(_), Action::Swipe(_)) => true,
                (Action::AndroidKey { .. }, Action::AndroidKey { .. }) => true,
                _ => false,
            };
            (a[i].key != b[i].key) == same_kind
        }),
    ensures
        binds_print(a) != binds_print(b),
{
    binds_mixed_differ(a.len() as u64, a, b, i, a.len() as int);
}

proof fn binds_mixed_differ<C>(h: u64, a: Seq<KeyBind<C>>, b: Seq<KeyBind<C>>, i: int, n: int)
    requires
        a.len() == b.len(),
        0 <= i < a.len(),
        n <= a.len(),
        forall|k: int| 0 <= k < a.len() && k != i ==> #[trigger] a[k] == b[k],
        (a[i].key != b[i].key) != (kind_code(a[i].action) != kind_code(b[i].action)),
    ensures
        n <= i ==> binds_mixed(h, a, n) == binds_mixed(h, b, n),
        n > i ==> binds_mixed(h, a, n) != binds_mixed(h, b, n),
    decreases n,
{
    if n > 0 {
        binds_mixed_differ(h, a, b, i, n - 1);
        let (x, y) = (binds_mixed(h, a, n - 1), binds_mixed(h, b, n - 1));
        let (p, q) = (a[n - 1], b[n - 1]);
        bind_keeps_apart(x, y, p.key, q.key, kind_code(p.action), kind_code(q.action));
    }
}

proof fn key_keeps_apart(a: u64, b: u64, key: u16, other: u16)
    ensures
        mix_key(a, key) == mix_key(b, key) ==> a == b,
        mix_key(a, key) == mix_key(a, other) ==> key == other,
{
    mixing_keeps_apart(a, b);
}

proof fn temp_keeps_apart(a: u64, b: u64, t: Option<TempWheel>)
    ensures
        mix_temp(a, t) == mix_temp(b, t) ==> a == b,
{
    mixing_keeps_apart(a, b);
    if let Some(t) = t {
        mixing_keeps_apart(
            a.wrapping_mul(31).wrapping_add((t.key as u64 + 1) as u64),
            b.wrapping_mul(31).wrapping_add((t.key as u64 + 1) as u64),
        );
    }
}

/// How a wheel is switched on, changed in one respect.
proof fn temps_keep_apart(h: u64, s: TempWheel, t: TempWheel)
    requires
        (s.key != t.key) != (s.mode != t.mode),
    ensures
        mix_temp(h, Some(s)) != mix_temp(h, Some(t)),
{
    mixing_keeps_apart(
        h.wrapping_mul(31).wrapping_add((s.key as u64 + 1) as u64),
        h.wrapping_mul(31).wrapping_add((t.key as u64 + 1) as u64),
    );
}

proof fn wheel_keeps_apart<C>(a: u64, b: u64, w: Wheel<C>)
    ensures
        mix_wheel(a, w) == mix_wheel(b, w) ==> a == b,
{
    let (a1, b1) = (mix_key(a, w.up), mix_key(b, w.up));
    let (a2, b2) = (mix_key(a1, w.down), mix_key(b1, w.down));
    let (a3, b3) = (mix_key(a2, w.left), mix_key(b2, w.left));
    let (a4, b4) = (mix_key(a3, w.right), mix_key(b3, w.right));
    temp_keeps_apart(a4, b4, w.temp);
    key_keeps_apart(a3, b3, w.right, w.right);
    key_keeps_apart(a2, b2, w.left, w.left);
    key_keeps_apart(a1, b1, w.down, w.down);
    key_keeps_apart(a, b, w.up, w.up);
}

/// Whether two wheels differ in one of their four direction keys, or in the key or the mode that
/// switches them on, and in nothing else of these.
pub open spec fn one_key_apart<C>(v: Wheel<C>, w: Wheel<C>) -> bool {
    let up = v.up != w.up;
    let down = v.down != w.down;
    let left = v.left != w.left;
    let right = v.right != w.right;
    let temp = v.temp != w.temp;
    ||| up && !down && !left && !right && !temp
    ||| !up && down && !left && !right && !temp
    ||| !up && !down && left && !right && !temp
    ||| !up && !down && !left && right && !temp
    ||| !up && !down && !left && !right && v.temp is Some && w.temp is Some && (v.temp->0.key
        != w.temp->0.key) != (v.temp->0.mode != w.temp->0.mode)
}

proof fn one_key_mixes_apart<C>(h: u64, v: Wheel<C>, w: Wheel<C>)
    requires
        one_key_apart(v, w),
    ensures
        mix_wheel(h, v) != mix_wheel(h, w),
{
    let (a1, b1) = (mix_key(h, v.up), mix_key(h, w.up));
    let (a2, b2) = (mix_key(a1, v.down), mix_key(b1, w.down));
    let (a3, b3) = (mix_key(a2, v.left), mix_key(b2, w.left));
    let (a4, b4) = (mix_key(a3, v.right), mix_key(b3, w.right));
    key_keeps_apart(h, h, v.up, w.up);
    key_keeps_apart(a1, b1, v.down, w.down);
    key_keeps_apart(a2, b2, v.left, w.left);
    key_keeps_apart(a3, b3, v.right, w.right);
    temp_keeps_apart(a4, b4, v.temp);
    if v.temp != w.temp {
        temps_keep_apart(a4, v.temp->0, w.temp->0);
    }
}

/// A fingerprint of wheels notices every edit that changes one of a wheel's keys, or how its key
/// switches it.
pub proof fn wheels_print_notices<C>(a: Seq<Wheel<C>>, b: Seq<Wheel<C>>, i: int)
    requires
        a.len() == b.len(),
        0 <= i < a.len(),
        forall|k: int| 0 <= k < a.len() && k != i ==> #[trigger] a[k] == b[k],
        one_key_apart(a[i], b[i]),
    ensures
        wheels_print(a) != wheels_print(b),
{
    wheels_mixed_differ(a.len() as u64, a, b, i, a.len() as int);
}

proof fn wheels_mixed_differ<C>(h: u64, a: Seq<Wheel<C>>, b: Seq<Wheel<C>>, i: int, n: int)
    requires
        a.len() == b.len(),
        0 <= i < a.len(),
        n <= a.len(),
        forall|k: int| 0 <= k < a.len() && k != i ==> #[trigger] a[k] == b[k],
        one_key_apart(a[i], b[i]),
    ensures
        n <= i ==> wheels_mixed(h, a, n) == wheels_mixed(h, b, n),
        n > i ==> wheels_mixed(h, a, n) != wheels_mixed(h, b, n),
    decreases n,
{
    if n > 0 {
        wheels_mixed_differ(h, a, b, i, n - 1);
        let (x, y) = (wheels_mixed(h, a, n - 1), wheels_mixed(h, b, n - 1));
        if n - 1 == i {
            one_key_mixes_apart(x, a[i], b[i]);
        } else {
            wheel_keeps_apart(x, y, a[n - 1]);
        }
    }
}

// ---- who owns a key --------------------------------------------------------------------

/// Whether wheel `j` is on: it always is, or it was switched on.
pub open spec fn engaged<C>(wheels: Seq<Wheel<C>>, st: Seq<WheelState>, j: int) -> bool {
    wheels[j].temp is None || (j < st.len() && st[j].active)
}

/// Whether `code` switches wheel `j` on.
pub open spec fn enables<C>(w: Wheel<C>, code: u16) -> bool {
    w.temp matches Some(t) && t.key == code
}

/// Whether `code` belongs to wheel `j`: it switches it on, or steers it while it is on.
pub open spec fn owns<C>(wheels: Seq<Wheel<C>>, st: Seq<WheelState>, j: int, code: u16) -> bool {
    enables(wheels[j], code) || (engaged(wheels, st, j) && wheels[j].steers(code))
}

/// Whether `code` belongs to any wheel.
pub open spec fn owned<C>(wheels: Seq<Wheel<C>>, st: Seq<WheelState>, code: u16) -> bool {
    exists|j: int| 0 <= j < wheels.len() && #[trigger] owns(wheels, st, j, code)
}

/// Whether a key belongs to a wheel right now. The key that switches a temporary wheel on
/// always does; the direction keys do while the wheel is on.
pub fn key_owned_by_wheel<C>(profile: &Profile<C>, wheels: &Vec<WheelState>, code: u16) -> (r: bool)
    ensures
        r == owned(profile.wheels@, wheels@, code),
{
    let n: usize = profile.wheels.len();
    for j in 0..n
        invariant
            n == profile.wheels.len(),
            forall|k: int| 0 <= k < j ==> !#[trigger] owns(profile.wheels@, wheels@, k, code),
    {
        let w = &profile.wheels[j];
        let enables_it: bool = match &w.temp {
            Some(t) => t.key == code,
            None => false,
        };
        let on: bool = w.temp.is_none() || (j < wheels.len() && wheels[j].active);
        if enables_it || (on && w.is_direction(code)) {
            assert(owns(profile.wheels@, wheels@, j as int, code));
            return true;
        }
    }
    false
}

/// Whether the finger of a binding on `code` should be down: its key is held and no wheel
/// has it.
pub open spec fn wanted<C>(m: Model<C>, p: Profile<C>, code: u16) -> bool {
    m.held.contains(code) && !owned(p.wheels@, m.wheels, code)
}

// ---- bindings --------------------------------------------------------------------------

/// Binding `i` brought in line with the keys held. Only holds and Android keys last as long
/// as their key; taps and swipes end by themselves.
pub open spec fn bind_aligned<C>(m: Model<C>, p: Profile<C>, ly: Layout, i: int) -> Model<C> {
    let b = p.binds@[i];
    match b.action {
        Action::Hold { .. } => if wanted(m, p, b.key) {
            if fingers::slot(m.down, i) {
                m
            } else {
                engine::try_press(m, i, b.key, ly.point(i))
            }
        } else {
            engine::finger_up(m, i, ly.point(i))
        },
        Action::AndroidKey { keycode } => if wanted(m, p, b.key) {
            engine::key_down(m, keycode)
        } else {
            engine::key_up(m, keycode)
        },
        _ => m,
    }
}

/// The first `n` bindings brought in line, one after the other.
pub open spec fn binds_aligned<C>(m: Model<C>, p: Profile<C>, ly: Layout, n: int) -> Model<C>
    decreases n,
{
    if n <= 0 {
        m
    } else {
        bind_aligned(binds_aligned(m, p, ly, n - 1), p, ly, n - 1)
    }
}

/// Brings every binding in line with the keys held.
pub(crate) fn reconcile_binds<C: Copy>(
    eng: &mut Engine<C>,
    ctl: &mut ControlClient,
    p: &Profile<C>,
    ly: &Layout,
)
    requires
        old(eng).wf(),
        ly.fits(*p),
    ensures
        final(eng).wf(),
        engine::model(*final(eng), final(ctl)@) == binds_aligned(
            engine::model(*old(eng), old(ctl)@),
            *p,
            *ly,
            p.binds@.len() as int,
        ),
        final(ctl).same_link(*old(ctl)),
{
    let ghost m0 = engine::model(*eng, ctl@);
    let n: usize = p.binds.len();
    for i in 0..n
        invariant
            n == p.binds.len(),
            eng.wf(),
            ly.fits(*p),
            engine::model(*eng, ctl@) == binds_aligned(m0, *p, *ly, i as int),
            ctl.same_link(*old(ctl)),
    {
        let b = p.binds[i];
        let at = ly.bind_point(i);
        let want: bool = eng.held.has(b.key) && !key_owned_by_wheel(p, &eng.wheels, b.key);
        match b.action {
            Action::Hold { .. } => {
                if want {
                    if !eng.fingers.is_down(i) {
                        if !press_finger(eng, ctl, i, at) {
                            refuse(&mut eng.live, b.key);
                        }
                    }
                } else {
                    lift_finger(eng, ctl, i, at);
                }
            },
            Action::AndroidKey { keycode } => {
                if want {
                    press_key(eng, ctl, keycode);
                } else {
                    release_key(eng, ctl, keycode);
                }
            },
            _ => {},
        }
    }
}

// ---- wheels ----------------------------------------------------------------------------

/// -1, 0 or 1 for two opposite directions.
pub open spec fn axis(minus: bool, plus: bool) -> int {
    engine::flag(plus) - engine::flag(minus)
}

/// Where the finger of a wheel is pushed to by the directions held.
pub open spec fn push_target(px: WheelPx, d: Dirs) -> (i32, i32) {
    let dx = axis(d.left, d.right);
    let dy = axis(d.up, d.down);
    let r = if dx != 0 && dy != 0 {
        px.diagonal as int
    } else {
        px.push as int
    };
    ((px.center.0 + dx * r) as i32, (px.center.1 + dy * r) as i32)
}

/// No direction is held, or opposite ones cancel.
pub open spec fn centred(d: Dirs) -> bool {
    axis(d.left, d.right) == 0 && axis(d.up, d.down) == 0
}

/// Wheel `j` returns to its centre and lifts its finger.
pub open spec fn wheel_lifted<C>(m: Model<C>, j: int, at: (i32, i32)) -> Model<C> {
    if m.wheels[j].down {
        let m1 = engine::emit(m, control::touch(control::ACTION_MOVE, engine::wheel_id(j), at));
        let m2 = engine::emit(m1, control::touch(control::ACTION_UP, engine::wheel_id(j), at));
        Model { wheels: m.wheels.update(j, WheelState { down: false, ..m.wheels[j] }), ..m2 }
    } else {
        m
    }
}

/// Whether wheel `j` cannot put its finger down because the device has no pointer left.
pub open spec fn wheel_crowded_out<C>(m: Model<C>, j: int) -> bool {
    !centred(m.wheels[j].pressed) && !m.wheels[j].down && engine::total(m) >= DEVICE_MAX_POINTERS
}

/// Wheel `j` with its finger where the directions held push it: down at the centre and pushed
/// from there, moved when the target changed, back to the centre and lifted when none is held.
pub open spec fn wheel_pushed<C>(m: Model<C>, j: int, px: WheelPx) -> Model<C> {
    let st = m.wheels[j];
    if centred(st.pressed) {
        wheel_lifted(m, j, px.center)
    } else if wheel_crowded_out(m, j) {
        m
    } else {
        let t = push_target(px, st.pressed);
        let pid = engine::wheel_id(j);
        let m1 = if !st.down {
            engine::emit(
                engine::emit(m, control::touch(control::ACTION_DOWN, pid, px.center)),
                control::touch(control::ACTION_MOVE, pid, t),
            )
        } else if st.last != t {
            engine::emit(m, control::touch(control::ACTION_MOVE, pid, t))
        } else {
            m
        };
        Model { wheels: m.wheels.update(j, WheelState { down: true, last: t, ..st }), ..m1 }
    }
}

pub proof fn downs_update(ws: Seq<WheelState>, j: int, w: WheelState)
    requires
        0 <= j < ws.len(),
    ensures
        engine::wheels_down(ws.update(j, w)) == engine::wheels_down(ws) - engine::flag(ws[j].down)
            + engine::flag(w.down),
{
    assert(engine::downs(ws.update(j, w)) =~= engine::downs(ws).update(j, w.down));
    fingers::count_update(engine::downs(ws), j, w.down);
}

proof fn push_in_range(px: WheelPx, d: Dirs)
    requires
        crate::layout::wheel_in_range(px),
    ensures
        ({
            let dx = axis(d.left, d.right);
            let dy = axis(d.up, d.down);
            let r = if dx != 0 && dy != 0 {
                px.diagonal as int
            } else {
                px.push as int
            };
            &&& i32::MIN <= px.center.0 + dx * r <= i32::MAX
            &&& i32::MIN <= px.center.1 + dy * r <= i32::MAX
            &&& dx * r == (if dx == 0 {
                0
            } else if dx == 1 {
                r
            } else {
                -r
            })
            &&& dy * r == (if dy == 0 {
                0
            } else if dy == 1 {
                r
            } else {
                -r
            })
        }),
{
    let dx = axis(d.left, d.right);
    let dy = axis(d.up, d.down);
    let r = if dx != 0 && dy != 0 {
        px.diagonal as int
    } else {
        px.push as int
    };
    assert(dx * r == (if dx == 0 {
        0
    } else if dx == 1 {
        r
    } else {
        -r
    })) by (nonlinear_arith)
        requires
            dx == 0 || dx == 1 || dx == -1,
    ;
    assert(dy * r == (if dy == 0 {
        0
    } else if dy == 1 {
        r
    } else {
        -r
    })) by (nonlinear_arith)
        requires
            dy == 0 || dy == 1 || dy == -1,
    ;
}

fn shifted(base: i32, minus: bool, plus: bool, r: i32) -> (v: i32)
    requires
        r > i32::MIN,
        i32::MIN <= base + r <= i32::MAX,
        i32::MIN <= base - r <= i32::MAX,
    ensures
        v == (if axis(minus, plus) == 0 {
            base as int
        } else if axis(minus, plus) == 1 {
            base + r
        } else {
            base - r
        }),
{
    if minus == plus {
        base
    } else if plus {
        base + r
    } else {
        base - r
    }
}

fn target_of(px: WheelPx, d: Dirs) -> (t: (i32, i32))
    requires
        crate::layout::wheel_in_range(px),
    ensures
        t == push_target(px, d),
{
    proof {
        push_in_range(px, d);
    }
    let r: i32 = if d.left != d.right && d.up != d.down {
        px.diagonal
    } else {
        px.push
    };
    (shifted(px.center.0, d.left, d.right, r), shifted(px.center.1, d.up, d.down, r))
}

/// Lifts the finger of wheel `j` after moving it back to `at`.
pub(crate) fn lift_wheel<C: Copy>(
    eng: &mut Engine<C>,
    ctl: &mut ControlClient,
    j: usize,
    at: (i32, i32),
)
    requires
        old(eng).wf(),
        j < old(eng).wheels.len(),
    ensures
        final(eng).wf(),
        engine::model(*final(eng), final(ctl)@) == wheel_lifted(
            engine::model(*old(eng), old(ctl)@),
            j as int,
            at,
        ),
        final(ctl).same_link(*old(ctl)),
{
    if eng.wheels[j].down {
        let pid: u64 = wheel_pid(j);
        ctl.touch_move(pid, at.0, at.1);
        ctl.touch_up(pid, at.0, at.1);
        let mut st = eng.wheels[j];
        st.down = false;
        proof {
            downs_update(eng.wheels@, j as int, st);
        }
        eng.wheels[j] = st;
    }
}

/// Puts the finger of wheel `j` where its directions push it. True when the device had no
/// pointer left for it.
pub(crate) fn update_wheel<C: Copy>(
    eng: &mut Engine<C>,
    ctl: &mut ControlClient,
    j: usize,
    px: WheelPx,
) -> (crowded_out: bool)
    requires
        old(eng).wf(),
        j < old(eng).wheels.len(),
        crate::layout::wheel_in_range(px),
    ensures
        final(eng).wf(),
        crowded_out == wheel_crowded_out(engine::model(*old(eng), old(ctl)@), j as int),
        engine::model(*final(eng), final(ctl)@) == wheel_pushed(
            engine::model(*old(eng), old(ctl)@),
            j as int,
            px,
        ),
        final(ctl).same_link(*old(ctl)),
{
    let ghost m0 = engine::model(*eng, ctl@);
    let st = eng.wheels[j];
    if st.pressed.left == st.pressed.right && st.pressed.up == st.pressed.down {
        lift_wheel(eng, ctl, j, px.center);
        return false;
    }
    let t = target_of(px, st.pressed);
    let pid: u64 = wheel_pid(j);
    if !st.down {
        let used: usize = all_pointers(eng);
        assert(used == engine::total(m0));
        if used >= DEVICE_MAX_POINTERS {
            return true;
        }
        ctl.touch_down(pid, px.center.0, px.center.1);
        ctl.touch_move(pid, t.0, t.1);
    } else if st.last.0 != t.0 || st.last.1 != t.1 {
        ctl.touch_move(pid, t.0, t.1);
    }
    let mut next = st;
    next.down = true;
    next.last = t;
    proof {
        downs_update(eng.wheels@, j as int, next);
    }
    eng.wheels[j] = next;
    false
}

/// The direction keys of a wheel that are held, if the wheel is on.
pub open spec fn dirs_held<C>(w: Wheel<C>, held: Set<u16>, on: bool) -> Dirs {
    Dirs {
        up: on && held.contains(w.up),
        down: on && held.contains(w.down),
        left: on && held.contains(w.left),
        right: on && held.contains(w.right),
    }
}

/// Wheel `j` with its directions read afresh from the keys held.
pub open spec fn wheel_read<C>(m: Model<C>, p: Profile<C>, j: int) -> Model<C> {
    Model {
        wheels: m.wheels.update(
            j,
            WheelState {
                pressed: dirs_held(p.wheels@[j], m.held, engaged(p.wheels@, m.wheels, j)),
                ..m.wheels[j]
            },
        ),
        ..m
    }
}

/// Wheel `j` brought in line with the keys held; a wheel without state is left alone.
pub open spec fn wheel_aligned<C>(m: Model<C>, p: Profile<C>, ly: Layout, j: int) -> Model<C> {
    if j < m.wheels.len() {
        let m1 = wheel_read(m, p, j);
        let m2 = wheel_pushed(m1, j, ly.wheels@[j]);
        if wheel_crowded_out(m1, j) {
            engine::refused(m2, p.wheels@[j].up)
        } else {
            m2
        }
    } else {
        m
    }
}

/// The first `n` wheels brought in line, one after the other.
pub open spec fn wheels_aligned<C>(m: Model<C>, p: Profile<C>, ly: Layout, n: int) -> Model<C>
    decreases n,
{
    if n <= 0 {
        m
    } else {
        wheel_aligned(wheels_aligned(m, p, ly, n - 1), p, ly, n - 1)
    }
}

/// Reads the directions of wheel `j` afresh from the keys held.
fn read_wheel<C: Copy>(eng: &mut Engine<C>, p: &Profile<C>, j: usize)
    requires
        old(eng).wf(),
        j < old(eng).wheels.len(),
        j < p.wheels.len(),
    ensures
        final(eng).wf(),
        forall|out: Seq<ControlCmd>| #[trigger]
            engine::model(*final(eng), out) == wheel_read(
                engine::model(*old(eng), out),
                *p,
                j as int,
            ),
{
    let w = p.wheels[j];
    let on: bool = w.temp.is_none() || eng.wheels[j].active;
    let mut st = eng.wheels[j];
    st.pressed =
    Dirs {
        up: on && eng.held.has(w.up),
        down: on && eng.held.has(w.down),
        left: on && eng.held.has(w.left),
        right: on && eng.held.has(w.right),
    };
    proof {
        downs_update(eng.wheels@, j as int, st);
    }
    eng.wheels[j] = st;
}

fn align_wheel<C: Copy>(
    eng: &mut Engine<C>,
    ctl: &mut ControlClient,
    p: &Profile<C>,
    ly: &Layout,
    j: usize,
)
    requires
        old(eng).wf(),
        ly.fits(*p),
        j < p.wheels.len(),
    ensures
        final(eng).wf(),
        engine::model(*final(eng), final(ctl)@) == wheel_aligned(
            engine::model(*old(eng), old(ctl)@),
            *p,
            *ly,
            j as int,
        ),
        final(ctl).same_link(*old(ctl)),
{
    if j < eng.wheels.len() {
        read_wheel(eng, p, j);
        let px = ly.wheels[j];
        if update_wheel(eng, ctl, j, px) {
            let code: u16 = p.wheels[j].up;
            refuse(&mut eng.live, code);
        }
    }
}

/// Brings every wheel in line with the keys held.
pub(crate) fn reconcile_wheels<C: Copy>(
    eng: &mut Engine<C>,
    ctl: &mut ControlClient,
    p: &Profile<C>,
    ly: &Layout,
)
    requires
        old(eng).wf(),
        ly.fits(*p),
    ensures
        final(eng).wf(),
        engine::model(*final(eng), final(ctl)@) == wheels_aligned(
            engine::model(*old(eng), old(ctl)@),
            *p,
            *ly,
            p.wheels@.len() as int,
        ),
        final(ctl).same_link(*old(ctl)),
{
    let ghost m0 = engine::model(*eng, ctl@);
    let n: usize = p.wheels.len();
    for j in 0..n
        invariant
            n == p.wheels.len(),
            eng.wf(),
            ly.fits(*p),
            engine::model(*eng, ctl@) == wheels_aligned(m0, *p, *ly, j as int),
            ctl.same_link(*old(ctl)),
    {
        align_wheel(eng, ctl, p, ly, j);
    }
}

// ---- switching temporary wheels --------------------------------------------------------

/// Wheel `j` switched off.
pub open spec fn wheel_off<C>(m: Model<C>, j: int, at: (i32, i32)) -> Model<C> {
    wheel_lifted(
        Model {
            wheels: m.wheels.update(
                j,
                WheelState { active: false, pressed: engine::no_dirs(), ..m.wheels[j] },
            ),
            ..m
        },
        j,
        at,
    )
}

pub(crate) fn deactivate_wheel<C: Copy>(
    eng: &mut Engine<C>,
    ctl: &mut ControlClient,
    j: usize,
    at: (i32, i32),
)
    requires
        old(eng).wf(),
        j < old(eng).wheels.len(),
    ensures
        final(eng).wf(),
        engine::model(*final(eng), final(ctl)@) == wheel_off(
            engine::model(*old(eng), old(ctl)@),
            j as int,
            at,
        ),
        final(ctl).same_link(*old(ctl)),
{
    let mut st = eng.wheels[j];
    st.active = false;
    st.pressed = none_pressed();
    proof {
        downs_update(eng.wheels@, j as int, st);
    }
    eng.wheels[j] = st;
    lift_wheel(eng, ctl, j, at);
}

/// Binding `i` gives way to wheel `w` if their keys collide.
pub open spec fn gave_way<C>(m: Model<C>, p: Profile<C>, ly: Layout, w: Wheel<C>, i: int) -> Model<
    C,
> {
    if w.steers(p.binds@[i].key) {
        match p.binds@[i].action {
            Action::AndroidKey { keycode } => engine::key_up(m, keycode),
            _ => engine::finger_up(m, i, ly.point(i)),
        }
    } else {
        m
    }
}

pub open spec fn all_gave_way<C>(
    m: Model<C>,
    p: Profile<C>,
    ly: Layout,
    w: Wheel<C>,
    n: int,
) -> Model<C>
    decreases n,
{
    if n <= 0 {
        m
    } else {
        gave_way(all_gave_way(m, p, ly, w, n - 1), p, ly, w, n - 1)
    }
}

/// Lifts every binding whose key steers wheel `w`.
pub(crate) fn release_conflicting_binds<C: Copy>(
    eng: &mut Engine<C>,
    ctl: &mut ControlClient,
    p: &Profile<C>,
    ly: &Layout,
    w: &Wheel<C>,
)
    requires
        old(eng).wf(),
        ly.fits(*p),
    ensures
        final(eng).wf(),
        engine::model(*final(eng), final(ctl)@) == all_gave_way(
            engine::model(*old(eng), old(ctl)@),
            *p,
            *ly,
            *w,
            p.binds@.len() as int,
        ),
        final(ctl).same_link(*old(ctl)),
{
    let ghost m0 = engine::model(*eng, ctl@);
    let n: usize = p.binds.len();
    for i in 0..n
        invariant
            n == p.binds.len(),
            eng.wf(),
            ly.fits(*p),
            engine::model(*eng, ctl@) == all_gave_way(m0, *p, *ly, *w, i as int),
            ctl.same_link(*old(ctl)),
    {
        let b = p.binds[i];
        if w.is_direction(b.key) {
            match b.action {
                Action::AndroidKey { keycode } => {
                    release_key(eng, ctl, keycode);
                },
                _ => {
                    let at = ly.bind_point(i);
                    lift_finger(eng, ctl, i, at);
                },
            }
        }
    }
}

} // verus!
