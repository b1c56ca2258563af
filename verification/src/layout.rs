//! A profile resolved to the pixels of the current screen.
//!
//! Turning stored coordinates into pixels takes arithmetic that is passed in from outside;
//! what is asked for which binding or wheel is decided here.

use vstd::prelude::*;
use crate::keymap::{self, Action, Easing, Profile, Swipe};

verus! {

/// Pixels of one binding.
pub struct BindPx {
    /// Where the finger goes down: the place of a tap or hold, the start of a swipe, and the
    /// origin for an Android key.
    pub at: (i32, i32),
    /// The points of a swipe; empty otherwise.
    pub path: Vec<(i32, i32)>,
    /// Where the finger is at each step of a swipe after the first.
    pub eased: Vec<(i32, i32)>,
}

/// Pixels of one wheel.
#[derive(Debug, Clone, Copy, PartialEq, Eq)]
pub struct WheelPx {
    pub center: (i32, i32),
    /// How far the finger is pushed along an axis.
    pub push: i32,
    /// How far it is pushed along each axis when two directions are held.
    pub diagonal: i32,
}

/// Pixels of a whole profile.
pub struct Layout {
    pub binds: Vec<BindPx>,
    pub wheels: Vec<WheelPx>,
    /// The aim anchor, on the screen.
    pub anchor: (i32, i32),
}

/// A pushed wheel stays within the coordinate range.
pub open spec fn wheel_in_range(w: WheelPx) -> bool {
    &&& i32::MIN <= w.center.0 - w.push <= i32::MAX
    &&& i32::MIN <= w.center.0 + w.push <= i32::MAX
    &&& i32::MIN <= w.center.1 - w.push <= i32::MAX
    &&& i32::MIN <= w.center.1 + w.push <= i32::MAX
    &&& i32::MIN <= w.center.0 - w.diagonal <= i32::MAX
    &&& i32::MIN <= w.center.0 + w.diagonal <= i32::MAX
    &&& i32::MIN <= w.center.1 - w.diagonal <= i32::MAX
    &&& i32::MIN <= w.center.1 + w.diagonal <= i32::MAX
    &&& w.push > i32::MIN
    &&& w.diagonal > i32::MIN
}

/// A swipe has a start, an end, and one position for every step.
pub open spec fn bind_in_range<C>(a: Action<C>, b: BindPx) -> bool {
    a is Swipe ==> 2 <= b.path@.len() <= u32::MAX && b.eased@.len() == b.path@.len() - 1
}

impl Layout {
    /// The layout has pixels for every binding and wheel of the profile.
    pub open spec fn fits<C>(self, p: Profile<C>) -> bool {
        &&& self.binds@.len() == p.binds@.len()
        &&& self.wheels@.len() == p.wheels@.len()
        &&& forall|i: int|
            0 <= i < p.binds@.len() ==> bind_in_range(
                #[trigger] p.binds@[i].action,
                self.binds@[i],
            )
        &&& forall|j: int| 0 <= j < self.wheels@.len() ==> wheel_in_range(#[trigger] self.wheels@[j])
        &&& p.binds@.len() + 3000 <= u64::MAX
        &&& p.wheels@.len() + 3000 <= u64::MAX
    }

    /// Tests [`Layout::fits`].
    pub fn check<C>(&self, p: &Profile<C>) -> (r: bool)
        ensures
            r == self.fits(*p),
    {
        let nb: usize = p.binds.len();
        let nw: usize = p.wheels.len();
        if self.binds.len() != nb || self.wheels.len() != nw {
            return false;
        }
        if nb as u64 > u64::MAX - 3000 || nw as u64 > u64::MAX - 3000 {
            return false;
        }
        for i in 0..nb
            invariant
                nb == p.binds.len(),
                nb == self.binds.len(),
                forall|k: int|
                    0 <= k < i ==> bind_in_range(#[trigger] p.binds@[k].action, self.binds@[k]),
        {
            if let Action::Swipe(_) = &p.binds[i].action {
                let n: usize = self.binds[i].path.len();
                if n < 2 || n as u64 > u32::MAX as u64 || self.binds[i].eased.len() != n - 1 {
                    assert(!bind_in_range(p.binds@[i as int].action, self.binds@[i as int]));
                    return false;
                }
            }
        }
        for j in 0..nw
            invariant
                nw == self.wheels.len(),
                forall|k: int| 0 <= k < j ==> wheel_in_range(#[trigger] self.wheels@[k]),
        {
            let w = self.wheels[j];
            let lo: i64 = i32::MIN as i64;
            let hi: i64 = i32::MAX as i64;
            let x: i64 = w.center.0 as i64;
            let y: i64 = w.center.1 as i64;
            let p1: i64 = w.push as i64;
            let d1: i64 = w.diagonal as i64;
            if x - p1 < lo || x - p1 > hi || x + p1 < lo || x + p1 > hi || y - p1 < lo || y - p1
                > hi || y + p1 < lo || y + p1 > hi || x - d1 < lo || x - d1 > hi || x + d1 < lo || x
                + d1 > hi || y - d1 < lo || y - d1 > hi || y + d1 < lo || y + d1 > hi || w.push
                == i32::MIN || w.diagonal == i32::MIN {
                assert(!wheel_in_range(self.wheels@[j as int]));
                return false;
            }
        }
        true
    }

    /// Where the finger of binding `idx` goes down; the origin for a binding that is not there.
    pub open spec fn point(self, idx: int) -> (i32, i32) {
        if 0 <= idx < self.binds@.len() {
            self.binds@[idx].at
        } else {
            (0, 0)
        }
    }

    pub fn bind_point(&self, idx: usize) -> (r: (i32, i32))
        ensures
            r == self.point(idx as int),
    {
        if idx < self.binds.len() {
            self.binds[idx].at
        } else {
            (0, 0)
        }
    }
}

/// How many points a circular swipe is sampled at.
pub const SWIPE_SAMPLES: usize = 64;

/// `px` is what the given functions make of action `a`.
pub open spec fn bind_resolved<
    C,
    P: Fn(C, C) -> (i32, i32),
    K: Fn(bool, C, (i32, i32), (i32, i32), usize) -> Vec<(i32, i32)>,
    E: Fn(&Vec<(i32, i32)>, Easing<C>, usize) -> (i32, i32),
>(a: Action<C>, px: BindPx, point: P, circle: K, eased: E) -> bool {
    match a {
        Action::Tap { x, y, .. } => call_ensures(point, (x, y), px.at) && px.path@.len() == 0
            && px.eased@.len() == 0,
        Action::Hold { x, y, .. } => call_ensures(point, (x, y), px.at) && px.path@.len() == 0
            && px.eased@.len() == 0,
        Action::AndroidKey { .. } => px.at == (0i32, 0i32) && px.path@.len() == 0
            && px.eased@.len() == 0,
        Action::Swipe(s) => {
            &&& call_ensures(point, (s.start.0, s.start.1), px.at)
            &&& exists|end: (i32, i32)| #[trigger]
                call_ensures(point, (s.end.0, s.end.1), end) && match s.path {
                    keymap::SwipePath::Line => px.path@ == seq![px.at, end],
                    keymap::SwipePath::Rect => px.path@ == keymap::rect_corners(px.at, end),
                    keymap::SwipePath::Circle { as_diameter, start_angle } => call_ensures(
                        circle,
                        (as_diameter, start_angle, px.at, end, SWIPE_SAMPLES),
                        px.path,
                    ),
                }
            &&& px.eased@.len() == if px.path@.len() == 0 {
                0
            } else {
                px.path@.len() - 1
            }
            &&& forall|k: int|
                0 <= k < px.eased@.len() ==> call_ensures(
                    eased,
                    (&px.path, s.easing, (k + 1) as usize),
                    #[trigger] px.eased@[k],
                )
        },
    }
}

fn resolve_swipe<
    C: Copy,
    P: Fn(C, C) -> (i32, i32),
    K: Fn(bool, C, (i32, i32), (i32, i32), usize) -> Vec<(i32, i32)>,
    E: Fn(&Vec<(i32, i32)>, Easing<C>, usize) -> (i32, i32),
>(s: Swipe<C>, point: &P, circle: &K, eased: &E) -> (px: BindPx)
    requires
        forall|x: C, y: C| #[trigger] call_requires(*point, (x, y)),
        forall|d: bool, a: C, s: (i32, i32), e: (i32, i32), n: usize|
            n >= 2 ==> #[trigger] call_requires(*circle, (d, a, s, e, n)),
        forall|v: &Vec<(i32, i32)>, e: Easing<C>, k: usize|
            1 <= k < v@.len() ==> #[trigger] call_requires(*eased, (v, e, k)),
    ensures
        bind_resolved(Action::Swipe(s), px, *point, *circle, *eased),
{
    let at = point(s.start.0, s.start.1);
    let end = point(s.end.0, s.end.1);
    let path = keymap::swipe_points(s.path, at, end, SWIPE_SAMPLES, circle);
    let n: usize = path.len();
    let mut steps: Vec<(i32, i32)> = Vec::new();
    let mut k: usize = 1;
    while k < n
        invariant
            1 <= k,
            n == path.len(),
            n > 0 ==> k <= n,
            n == 0 ==> k == 1,
            steps.len() == k - 1,
            forall|v: &Vec<(i32, i32)>, e: Easing<C>, q: usize|
                1 <= q < v@.len() ==> #[trigger] call_requires(*eased, (v, e, q)),
            forall|q: int|
                0 <= q < steps@.len() ==> call_ensures(
                    *eased,
                    (&path, s.easing, (q + 1) as usize),
                    #[trigger] steps@[q],
                ),
        decreases n - k,
    {
        let pt = eased(&path, s.easing, k);
        steps.push(pt);
        k = k + 1;
    }
    BindPx { at, path, eased: steps }
}

/// Resolves a profile. `point` maps a place to pixels, `reach` a wheel's radius and scope to
/// the straight and the diagonal push, `circle` samples a circular path, `eased` gives the
/// position on a path at a step. `anchor` is the aim anchor, already on the screen.
pub fn resolve<
    C: Copy,
    P: Fn(C, C) -> (i32, i32),
    R: Fn(C, C) -> (i32, i32),
    K: Fn(bool, C, (i32, i32), (i32, i32), usize) -> Vec<(i32, i32)>,
    E: Fn(&Vec<(i32, i32)>, Easing<C>, usize) -> (i32, i32),
>(
    profile: &Profile<C>,
    anchor: (i32, i32),
    point: &P,
    reach: &R,
    circle: &K,
    eased: &E,
) -> (ly: Layout)
    requires
        forall|x: C, y: C| #[trigger] call_requires(*point, (x, y)),
        forall|x: C, y: C| #[trigger] call_requires(*reach, (x, y)),
        forall|d: bool, a: C, s: (i32, i32), e: (i32, i32), n: usize|
            n >= 2 ==> #[trigger] call_requires(*circle, (d, a, s, e, n)),
        forall|v: &Vec<(i32, i32)>, e: Easing<C>, k: usize|
            1 <= k < v@.len() ==> #[trigger] call_requires(*eased, (v, e, k)),
    ensures
        ly.anchor == anchor,
        ly.binds@.len() == profile.binds@.len(),
        ly.wheels@.len() == profile.wheels@.len(),
        forall|i: int|
            0 <= i < profile.binds@.len() ==> bind_resolved(
                profile.binds@[i].action,
                #[trigger] ly.binds@[i],
                *point,
                *circle,
                *eased,
            ),
        forall|j: int|
            #![trigger ly.wheels@[j]]
            0 <= j < profile.wheels@.len() ==> call_ensures(
                *point,
                (profile.wheels@[j].cx, profile.wheels@[j].cy),
                ly.wheels@[j].center,
            ) && call_ensures(
                *reach,
                (profile.wheels@[j].radius, profile.wheels@[j].scope),
                (ly.wheels@[j].push, ly.wheels@[j].diagonal),
            ),
{
    let nb: usize = profile.binds.len();
    let mut binds: Vec<BindPx> = Vec::new();
    for i in 0..nb
        invariant
            nb == profile.binds.len(),
            binds.len() == i,
            forall|x: C, y: C| #[trigger] call_requires(*point, (x, y)),
            forall|d: bool, a: C, s: (i32, i32), e: (i32, i32), n: usize|
                n >= 2 ==> #[trigger] call_requires(*circle, (d, a, s, e, n)),
            forall|v: &Vec<(i32, i32)>, e: Easing<C>, k: usize|
                1 <= k < v@.len() ==> #[trigger] call_requires(*eased, (v, e, k)),
            forall|k: int|
                0 <= k < i ==> bind_resolved(
                    profile.binds@[k].action,
                    #[trigger] binds@[k],
                    *point,
                    *circle,
                    *eased,
                ),
    {
        let px = match profile.binds[i].action {
            Action::Tap { x, y, .. } => BindPx {
                at: point(x, y),
                path: Vec::new(),
                eased: Vec::new(),
            },
            Action::Hold { x, y, .. } => BindPx {
                at: point(x, y),
                path: Vec::new(),
                eased: Vec::new(),
            },
            Action::AndroidKey { .. } => BindPx {
                at: (0, 0),
                path: Vec::new(),
                eased: Vec::new(),
            },
            Action::Swipe(s) => resolve_swipe(s, point, circle, eased),
        };
        binds.push(px);
    }
    let nw: usize = profile.wheels.len();
    let mut wheels: Vec<WheelPx> = Vec::new();
    for j in 0..nw
        invariant
            nw == profile.wheels.len(),
            wheels.len() == j,
            forall|x: C, y: C| #[trigger] call_requires(*point, (x, y)),
            forall|x: C, y: C| #[trigger] call_requires(*reach, (x, y)),
            forall|k: int|
                #![trigger wheels@[k]]
                0 <= k < j ==> call_ensures(
                    *point,
                    (profile.wheels@[k].cx, profile.wheels@[k].cy),
                    wheels@[k].center,
                ) && call_ensures(
                    *reach,
                    (profile.wheels@[k].radius, profile.wheels@[k].scope),
                    (wheels@[k].push, wheels@[k].diagonal),
                ),
    {
        let w = profile.wheels[j];
        let center = point(w.cx, w.cy);
        let (push, diagonal) = reach(w.radius, w.scope);
        wheels.push(WheelPx { center, push, diagonal });
    }
    Layout { binds, wheels, anchor }
}

/// A swipe runs from its start to its end: a straight one from the pixel of the one to the pixel
/// of the other, one along a rectangle round it from the start and back. Its finger is at one
/// position for each step, the one that the curve gives for that step of the path.
pub proof fn a_swipe_runs_its_path<
    C,
    P: Fn(C, C) -> (i32, i32),
    K: Fn(bool, C, (i32, i32), (i32, i32), usize) -> Vec<(i32, i32)>,
    E: Fn(&Vec<(i32, i32)>, Easing<C>, usize) -> (i32, i32),
>(s: Swipe<C>, px: BindPx, point: P, circle: K, eased: E, k: int)
    requires
        bind_resolved(Action::Swipe(s), px, point, circle, eased),
        !(s.path is Circle),
    ensures
        px.path@.len() >= 2,
        call_ensures(point, (s.start.0, s.start.1), px.path@[0]),
        s.path is Line ==> px.path@.len() == 2 && call_ensures(
            point,
            (s.end.0, s.end.1),
            px.path@[1],
        ),
        s.path is Rect ==> px.path@.len() == 5 && px.path@[4] == px.path@[0] && call_ensures(
            point,
            (s.end.0, s.end.1),
            px.path@[2],
        ) && px.path@[1] == (px.path@[2].0, px.path@[0].1) && px.path@[3] == (
            px.path@[0].0,
            px.path@[2].1,
        ),
        px.eased@.len() == px.path@.len() - 1,
        0 <= k < px.eased@.len() ==> call_ensures(
            eased,
            (&px.path, s.easing, (k + 1) as usize),
            px.eased@[k],
        ),
{
    let end = choose|end: (i32, i32)| #[trigger]
        call_ensures(point, (s.end.0, s.end.1), end) && match s.path {
            keymap::SwipePath::Line => px.path@ == seq![px.at, end],
            keymap::SwipePath::Rect => px.path@ == keymap::rect_corners(px.at, end),
            keymap::SwipePath::Circle { as_diameter, start_angle } => call_ensures(
                circle,
                (as_diameter, start_angle, px.at, end, SWIPE_SAMPLES),
                px.path,
            ),
        };
    assert(call_ensures(point, (s.end.0, s.end.1), end));
}

/// A tap or a hold is at the pixel of its place, and an Android key is nowhere.
pub proof fn a_place_is_its_pixel<
    C,
    P: Fn(C, C) -> (i32, i32),
    K: Fn(bool, C, (i32, i32), (i32, i32), usize) -> Vec<(i32, i32)>,
    E: Fn(&Vec<(i32, i32)>, Easing<C>, usize) -> (i32, i32),
>(a: Action<C>, px: BindPx, point: P, circle: K, eased: E)
    requires
        bind_resolved(a, px, point, circle, eased),
    ensures
        a is Tap ==> call_ensures(point, (a->Tap_x, a->Tap_y), px.at),
        a is Hold ==> call_ensures(point, (a->Hold_x, a->Hold_y), px.at),
        !(a is Swipe) ==> px.path@.len() == 0 && px.eased@.len() == 0,
{
}

} // verus!
