//! What turning a profile does to the pixels on the screen, in numbers of single precision.
//!
//! The rules of [`crate::keymap`] do not look into a profile's numbers. Here each stands for a
//! real number, and the operations on them are as exact as single precision makes them: the
//! result of one is off by at most one part in two to the power of 24.

use vstd::prelude::*;
use crate::keymap::{self, PROFILE_VERSION, Profile};

verus! {

pub open spec fn magnitude(x: real) -> real {
    if x < 0real {
        -x
    } else {
        x
    }
}

/// Whether `a` is what one operation in single precision may give for `b`.
pub open spec fn rounded(a: real, b: real) -> bool {
    magnitude(a - b) * 16777216real <= magnitude(b)
}

/// Whether `k` is a whole number nearest to `m`.
pub open spec fn nearest(k: int, m: real) -> bool {
    magnitude(m - k as real) * 2real <= 1real
}

/// Whether a fraction of a side of the screen stands for pixel `k` there: the product with the
/// side, rounded.
pub open spec fn shows(r: real, side: real, k: int) -> bool {
    exists|m: real| #[trigger] rounded(m, r * side) && nearest(k, m)
}

/// Dividing a pixel by the screen's side and multiplying again leads back to the pixel, up to
/// more than four million of them.
pub proof fn pixels_come_back(n: int, side: real, r: real, k: int)
    requires
        -4194304 < n < 4194304,
        side > 0real,
        rounded(r, n as real / side),
        shows(r, side, k),
    ensures
        k == n,
{
    let x = n as real;
    let q = x / side;
    let m = choose|m: real| #[trigger] rounded(m, r * side) && nearest(k, m);
    assert(q * side == x) by (nonlinear_arith)
        requires
            q == x / side,
            side > 0real,
    ;
    let d = magnitude(r - q);
    assert(magnitude(r * side - x) == d * side) by (nonlinear_arith)
        requires
            q * side == x,
            d == magnitude(r - q),
            side > 0real,
    ;
    assert(magnitude(q) * side == magnitude(x)) by (nonlinear_arith)
        requires
            q * side == x,
            side > 0real,
    ;
    assert(d * side * 16777216real <= magnitude(q) * side) by (nonlinear_arith)
        requires
            d * 16777216real <= magnitude(q),
            side > 0real,
    ;
    assert(magnitude(m - x) * 2real < 1real);
    assert(magnitude(k as real - n as real) < 1real);
}

/// Whether a number is the whole number `n`.
pub open spec fn is_whole(x: real, n: int) -> bool {
    x == n as real
}

/// Whether a number is a pixel that single precision tells apart from its neighbours throughout.
pub open spec fn is_pixel(x: real) -> bool {
    exists|n: int| #[trigger] is_whole(x, n) && -4194304 < n < 4194304
}

/// The pixel that a number is.
pub open spec fn pixel(x: real) -> int {
    choose|n: int| is_whole(x, n)
}

/// Whether a place in pixels lies on a screen, give or take one pixel.
pub open spec fn on_screen(x: real, y: real, space: (u32, u32)) -> bool {
    &&& -1real <= x <= space.0 as real + 1real
    &&& -1real <= y <= space.1 as real + 1real
}

/// Whether the functions that turning is given are those of single precision: `fits` tells
/// whether a place is on the screen, and the others divide by the screen's width and height.
/// `value` is what a number of the profile stands for.
pub open spec fn in_single_precision<
    C,
    F: Fn(C, C) -> bool,
    X: Fn(C) -> C,
    Y: Fn(C) -> C,
    A: Fn((C, C)) -> Option<(C, C)>,
>(
    space: (u32, u32),
    fits: F,
    rel_x: X,
    rel_y: Y,
    rel_anchor: A,
    value: spec_fn(C) -> real,
) -> bool {
    &&& forall|at: (C, C), b: bool| #[trigger]
        call_ensures(fits, at, b) ==> b == on_screen(value(at.0), value(at.1), space)
    &&& space.0 > 0 ==> forall|v: C, r: C| #[trigger]
        call_ensures(rel_x, (v,), r) ==> rounded(value(r), value(v) / space.0 as real)
    &&& space.1 > 0 ==> forall|v: C, r: C| #[trigger]
        call_ensures(rel_y, (v,), r) ==> rounded(value(r), value(v) / space.1 as real)
    &&& space.0 > 0 && space.1 > 0 ==> forall|v: (C, C), r: (C, C)| #[trigger]
        call_ensures(rel_anchor, (v,), Some(r)) ==> rounded(
            value(r.0),
            value(v.0) / space.0 as real,
        ) && rounded(value(r.1), value(v.1) / space.1 as real)
}

/// A number divided by the screen's side keeps its pixel.
proof fn division_keeps_pixel<C>(
    v: C,
    r: C,
    side: u32,
    value: spec_fn(C) -> real,
    shown: spec_fn(C) -> int,
)
    requires
        side > 0,
        rounded(value(r), value(v) / side as real),
        shows(value(r), side as real, shown(r)),
    ensures
        keymap::same_pixel(v, r, |c: C| is_pixel(value(c)), |c: C| pixel(value(c)), shown),
{
    if is_pixel(value(v)) {
        let n = choose|n: int| #[trigger] is_whole(value(v), n) && -4194304 < n < 4194304;
        assert(is_whole(value(v), pixel(value(v))));
        assert(pixel(value(v)) == n);
        pixels_come_back(n, side as real, value(r), shown(r));
    }
}

/// A profile in pixels is turned exactly when it is in pixels, the screen has an area, and every
/// point of the layout lies on it, give or take one pixel. Then it is in fractions of that
/// screen, its keys are the same, and every place that was a pixel is shown on that pixel, as is
/// every radius; if not, it is as it was.
///
/// `column` and `row` give the pixel that a stored fraction is shown on.
pub proof fn turning_a_profile<
    C,
    F: Fn(C, C) -> bool,
    X: Fn(C) -> C,
    Y: Fn(C) -> C,
    A: Fn((C, C)) -> Option<(C, C)>,
>(
    p: Profile<C>,
    q: Profile<C>,
    space: (u32, u32),
    fits: F,
    rel_x: X,
    rel_y: Y,
    rel_anchor: A,
    upgraded: bool,
    value: spec_fn(C) -> real,
    column: spec_fn(C) -> int,
    row: spec_fn(C) -> int,
)
    requires
        keymap::upgrade_outcome(p, q, space, fits, rel_x, rel_y, rel_anchor, upgraded),
        in_single_precision(space, fits, rel_x, rel_y, rel_anchor, value),
        forall|r: C| shows(value(r), space.0 as real, #[trigger] column(r)),
        forall|r: C| shows(value(r), space.1 as real, #[trigger] row(r)),
    ensures
        upgraded == (p.format_version < PROFILE_VERSION && space.0 > 0 && space.1 > 0 && forall|
            at: (C, C),
        |
            #[trigger] keymap::is_layout_point(p.binds@, p.wheels@, at) ==> on_screen(
                value(at.0),
                value(at.1),
                space,
            )),
        !upgraded ==> q == p,
        upgraded ==> q.format_version == PROFILE_VERSION && q.screen == Some(space)
            && q.toggle_key == p.toggle_key,
        upgraded ==> q.binds@.len() == p.binds@.len() && forall|i: int|
            0 <= i < p.binds@.len() ==> (#[trigger] q.binds@[i]).key == p.binds@[i].key
                && keymap::action_stays(
                p.binds@[i].action,
                q.binds@[i].action,
                |c: C| is_pixel(value(c)),
                |c: C| pixel(value(c)),
                column,
                |c: C| pixel(value(c)),
                row,
            ),
        upgraded ==> q.wheels@.len() == p.wheels@.len() && forall|j: int|
            0 <= j < p.wheels@.len() ==> {
                let a = p.wheels@[j];
                let b = #[trigger] q.wheels@[j];
                &&& (b.up, b.left, b.down, b.right, b.temp) == (
                    a.up,
                    a.left,
                    a.down,
                    a.right,
                    a.temp,
                )
                &&& is_pixel(value(a.cx)) ==> column(b.cx) == pixel(value(a.cx))
                &&& is_pixel(value(a.cy)) ==> row(b.cy) == pixel(value(a.cy))
                &&& is_pixel(value(a.radius)) ==> column(b.radius) == pixel(value(a.radius))
            },
        upgraded ==> match (p.aim.anchor, q.aim.anchor) {
            (Some(a), Some(b)) => {
                &&& is_pixel(value(a.0)) ==> column(b.0) == pixel(value(a.0))
                &&& is_pixel(value(a.1)) ==> row(b.1) == pixel(value(a.1))
            },
            (_, b) => b is None,
        },
{
    if upgraded {
        let good = |c: C| is_pixel(value(c));
        let before = |c: C| pixel(value(c));
        assert forall|v: C, r: C| #[trigger]
            call_ensures(rel_x, (v,), r) implies keymap::same_pixel(
            v,
            r,
            good,
            before,
            column,
        ) by {
            division_keeps_pixel(v, r, space.0, value, column);
        }
        assert forall|v: C, r: C| #[trigger]
            call_ensures(rel_y, (v,), r) implies keymap::same_pixel(v, r, good, before, row) by {
            division_keeps_pixel(v, r, space.1, value, row);
        }
        assert forall|v: (C, C), r: (C, C)| #[trigger]
            call_ensures(rel_anchor, (v,), Some(r)) implies keymap::same_pixel(
            v.0,
            r.0,
            good,
            before,
            column,
        ) && keymap::same_pixel(v.1, r.1, good, before, row) by {
            division_keeps_pixel(v.0, r.0, space.0, value, column);
            division_keeps_pixel(v.1, r.1, space.1, value, row);
        }
        keymap::turning_keeps_pixels(
            p,
            q,
            space,
            fits,
            rel_x,
            rel_y,
            rel_anchor,
            good,
            before,
            column,
            before,
            row,
        );
    }
}

/// Turning a profile changes its places and nothing else. Every binding is of the kind it was,
/// with its key, its time, its curve and its path; every wheel has its keys, its switch and its
/// scope; mouse look has its settings; and the name, the main switch and the appearance stay.
pub proof fn turning_changes_only_places<
    C,
    F: Fn(C, C) -> bool,
    X: Fn(C) -> C,
    Y: Fn(C) -> C,
    A: Fn((C, C)) -> Option<(C, C)>,
>(
    p: Profile<C>,
    q: Profile<C>,
    space: (u32, u32),
    fits: F,
    rel_x: X,
    rel_y: Y,
    rel_anchor: A,
    i: int,
    j: int,
)
    requires
        keymap::upgrade_outcome(p, q, space, fits, rel_x, rel_y, rel_anchor, true),
        0 <= i < p.binds@.len(),
        0 <= j < p.wheels@.len(),
    ensures
        ({
            let (b, c) = (p.binds@[i], q.binds@[i]);
            &&& c.key == b.key
            &&& b.action is Tap ==> c.action is Tap && c.action->Tap_duration_ms
                == b.action->Tap_duration_ms
            &&& b.action is Hold ==> c.action is Hold
            &&& b.action is Swipe ==> c.action is Swipe && c.action->Swipe_0.duration_ms
                == b.action->Swipe_0.duration_ms && c.action->Swipe_0.easing
                == b.action->Swipe_0.easing && c.action->Swipe_0.path == b.action->Swipe_0.path
            &&& b.action is AndroidKey ==> c.action == b.action
        }),
        ({
            let (w, v) = (p.wheels@[j], q.wheels@[j]);
            &&& (v.up, v.down, v.left, v.right) == (w.up, w.down, w.left, w.right)
            &&& (v.temp, v.scope) == (w.temp, w.scope)
        }),
        ({
            let (a, z) = (p.aim, q.aim);
            &&& (z.enabled, z.invert_y, z.recenter) == (a.enabled, a.invert_y, a.recenter)
            &&& (z.sensitivity_x, z.sensitivity_y) == (a.sensitivity_x, a.sensitivity_y)
            &&& (z.recenter_idle_ms, z.recenter_threshold) == (
                a.recenter_idle_ms,
                a.recenter_threshold,
            )
            &&& (z.hold_key, z.capture_mouse) == (a.hold_key, a.capture_mouse)
        }),
        q.name@ == p.name@,
        q.toggle_key == p.toggle_key,
        q.look == p.look,
{
    assert(q.binds@[i].key == p.binds@[i].key);
    assert(keymap::wheel_moved(p.wheels@[j], q.wheels@[j], rel_x, rel_y));
}

} // verus!
