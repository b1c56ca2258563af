//! Profiles: key bindings, wheels, aiming, and the rules for editing them.
//!
//! Coordinates are stored in a number type `C` that the rules never look into: they carry
//! it along, hand it to the functions passed in, and put back what those return.

use vstd::prelude::*;
use vstd::string::*;
use crate::keycodes;
use crate::text;
use crate::theme::{Look, LookView};

verus! {

/// Profile format: 1 stores coordinates in screen pixels, 2 as fractions of the screen.
pub const PROFILE_VERSION: u32 = 2;

/// How long a tap stays down unless set otherwise, in milliseconds. 0 means "until the key
/// is pressed again".
pub const DEFAULT_TAP_DURATION_MS: u32 = 40;

/// Key code of the right mouse button.
pub const BTN_RIGHT: u16 = 273;

/// What the stored coordinates are measured in.
#[derive(Debug, Clone, Copy, PartialEq, Eq, Structural)]
pub enum CoordUnit {
    /// Screen pixels.
    Pixel,
    /// Fractions of the screen.
    Rel,
}

impl Default for CoordUnit {
    fn default() -> (r: Self)
        ensures
            r == CoordUnit::Rel,
    {
        CoordUnit::Rel
    }
}

/// The screen that coordinates are mapped to: its size, never zero, and whether stored
/// values are pixels already.
#[derive(Debug, Clone, Copy, PartialEq, Eq, Structural)]
pub struct Mapper {
    pub w: u32,
    pub h: u32,
    pub legacy: bool,
}

pub open spec fn mapper_for(unit: CoordUnit, space: (u32, u32)) -> Mapper {
    Mapper {
        w: if space.0 == 0 {
            1
        } else {
            space.0
        },
        h: if space.1 == 0 {
            1
        } else {
            space.1
        },
        legacy: unit == CoordUnit::Pixel,
    }
}

impl Mapper {
    pub fn new(unit: CoordUnit, space: (u32, u32)) -> (m: Self)
        ensures
            m == mapper_for(unit, space),
    {
        Mapper {
            w: if space.0 == 0 {
                1
            } else {
                space.0
            },
            h: if space.1 == 0 {
                1
            } else {
                space.1
            },
            legacy: unit == CoordUnit::Pixel,
        }
    }
}

/// How a swipe spreads its motion over time.
#[derive(Debug, PartialEq)]
pub enum Easing<C> {
    Linear,
    EaseIn { power: C },
    EaseOut { power: C },
    Smooth { power: C },
    Bezier { x1: C, y1: C, x2: C, y2: C },
}

impl<C: Copy> Clone for Easing<C> {
    fn clone(&self) -> (r: Self)
        ensures
            r == *self,
    {
        *self
    }
}

impl<C: Copy> Copy for Easing<C> {

}

impl<C> Easing<C> {
    pub open spec fn label_spec(self) -> Seq<char> {
        match self {
            Easing::Linear => "默认(匀速)"@,
            Easing::EaseIn { .. } => "加速曲线"@,
            Easing::EaseOut { .. } => "减速曲线"@,
            Easing::Smooth { .. } => "钟形曲线"@,
            Easing::Bezier { .. } => "贝塞尔曲线"@,
        }
    }

    pub fn label(&self) -> (r: &'static str)
        ensures
            r@ == self.label_spec(),
    {
        match self {
            Easing::Linear => "默认(匀速)",
            Easing::EaseIn { .. } => "加速曲线",
            Easing::EaseOut { .. } => "减速曲线",
            Easing::Smooth { .. } => "钟形曲线",
            Easing::Bezier { .. } => "贝塞尔曲线",
        }
    }
}

/// The shape of a swipe.
#[derive(Debug, PartialEq)]
pub enum SwipePath<C> {
    /// Straight from start to end.
    Line,
    /// Around the rectangle with the start as its upper left and the end as its lower right
    /// corner, clockwise and back.
    Rect,
    /// Around a circle: start and end are the ends of a diameter, or else centre and a point
    /// on the rim. The angle says where on the rim the motion sets out.
    Circle { as_diameter: bool, start_angle: C },
}

impl<C: Copy> Clone for SwipePath<C> {
    fn clone(&self) -> (r: Self)
        ensures
            r == *self,
    {
        *self
    }
}

impl<C: Copy> Copy for SwipePath<C> {

}

impl<C> SwipePath<C> {
    pub open spec fn label_spec(self) -> Seq<char> {
        match self {
            SwipePath::Line => "默认(条形)"@,
            SwipePath::Rect => "方形"@,
            SwipePath::Circle { .. } => "圆形"@,
        }
    }

    pub fn label(&self) -> (r: &'static str)
        ensures
            r@ == self.label_spec(),
    {
        match self {
            SwipePath::Line => "默认(条形)",
            SwipePath::Rect => "方形",
            SwipePath::Circle { .. } => "圆形",
        }
    }
}

/// The corners of a rectangle, clockwise from its upper left and back to it.
pub open spec fn rect_corners(start: (i32, i32), end: (i32, i32)) -> Seq<(i32, i32)> {
    seq![start, (end.0, start.1), end, (start.0, end.1), start]
}

pub fn rect_points(start: (i32, i32), end: (i32, i32)) -> (v: Vec<(i32, i32)>)
    ensures
        v@ == rect_corners(start, end),
{
    let mut v: Vec<(i32, i32)> = Vec::new();
    v.push(start);
    v.push((end.0, start.1));
    v.push(end);
    v.push((start.0, end.1));
    v.push(start);
    v
}

/// The points that a swipe runs through, in pixels. `circle` samples a circular path; it is
/// asked for at least two points.
pub fn swipe_points<
    C: Copy,
    F: Fn(bool, C, (i32, i32), (i32, i32), usize) -> Vec<(i32, i32)>,
>(path: SwipePath<C>, start: (i32, i32), end: (i32, i32), samples: usize, circle: &F) -> (v: Vec<
    (i32, i32),
>)
    requires
        forall|d: bool, a: C, n: usize|
            n >= 2 ==> #[trigger] call_requires(*circle, (d, a, start, end, n)),
    ensures
        match path {
            SwipePath::Line => v@ == seq![start, end],
            SwipePath::Rect => v@ == rect_corners(start, end),
            SwipePath::Circle { as_diameter, start_angle } => {
                let n = if samples < 2 {
                    2usize
                } else {
                    samples
                };
                call_ensures(*circle, (as_diameter, start_angle, start, end, n), v)
            },
        },
{
    let n: usize = if samples < 2 {
        2
    } else {
        samples
    };
    match path {
        SwipePath::Line => {
            let mut v: Vec<(i32, i32)> = Vec::new();
            v.push(start);
            v.push(end);
            v
        },
        SwipePath::Rect => rect_points(start, end),
        SwipePath::Circle { as_diameter, start_angle } => circle(
            as_diameter,
            start_angle,
            start,
            end,
            n,
        ),
    }
}

/// A swipe from one point to another.
#[derive(Debug, PartialEq)]
pub struct Swipe<C> {
    pub start: (C, C),
    pub end: (C, C),
    pub duration_ms: u32,
    pub easing: Easing<C>,
    pub path: SwipePath<C>,
}

impl<C: Copy> Clone for Swipe<C> {
    fn clone(&self) -> (r: Self)
        ensures
            r == *self,
    {
        *self
    }
}

impl<C: Copy> Copy for Swipe<C> {

}

/// How long a swipe takes when the file does not say, in milliseconds.
pub const DEFAULT_SWIPE_MS: u32 = 300;

impl<C: Copy> Swipe<C> {
    /// Assembles a swipe from the fields that a file may hold. Start and end win when both
    /// are there; otherwise the first and last of the older list of points; otherwise `origin`.
    pub fn from_parts(
        start: Option<(C, C)>,
        end: Option<(C, C)>,
        points: Option<Vec<(C, C)>>,
        duration_ms: Option<u32>,
        easing: Option<Easing<C>>,
        path: Option<SwipePath<C>>,
        origin: (C, C),
    ) -> (s: Self)
        ensures
            (start is Some && end is Some) ==> s.start == start->0 && s.end == end->0,
            !(start is Some && end is Some) && points is Some && points->0@.len() > 0 ==> s.start
                == points->0@[0] && s.end == points->0@.last(),
            !(start is Some && end is Some) && (points is None || points->0@.len() == 0)
                ==> s.start == origin && s.end == origin,
            s.duration_ms == (match duration_ms {
                Some(d) => d,
                None => DEFAULT_SWIPE_MS,
            }),
            s.easing == (match easing {
                Some(e) => e,
                None => Easing::Linear,
            }),
            s.path == (match path {
                Some(p) => p,
                None => SwipePath::Line,
            }),
    {
        let (a, b) = match (start, end) {
            (Some(a), Some(b)) => (a, b),
            _ => match points {
                Some(p) => {
                    if p.len() > 0 {
                        (p[0], p[p.len() - 1])
                    } else {
                        (origin, origin)
                    }
                },
                None => (origin, origin),
            },
        };
        Swipe {
            start: a,
            end: b,
            duration_ms: duration_ms.unwrap_or(DEFAULT_SWIPE_MS),
            easing: easing.unwrap_or(Easing::Linear),
            path: path.unwrap_or(SwipePath::Line),
        }
    }
}

/// What a bound key does.
#[derive(Debug, PartialEq)]
pub enum Action<C> {
    /// Touch for `duration_ms`; 0 keeps touching until the key is pressed again.
    Tap { x: C, y: C, duration_ms: u32, radius: C },
    /// Touch for as long as the key is held.
    Hold { x: C, y: C, radius: C },
    /// Swipe once.
    Swipe(Swipe<C>),
    /// Press an Android key for as long as the key is held.
    AndroidKey { keycode: u32 },
}

impl<C: Copy> Clone for Action<C> {
    fn clone(&self) -> (r: Self)
        ensures
            r == *self,
    {
        *self
    }
}

impl<C: Copy> Copy for Action<C> {

}

impl<C> Action<C> {
    pub fn kind_name(&self) -> (r: &'static str)
        ensures
            r@ == match self {
                Action::Tap { .. } => "点按"@,
                Action::Hold { .. } => "长按"@,
                Action::Swipe(_) => "滑动"@,
                Action::AndroidKey { .. } => "系统键"@,
            },
    {
        match self {
            Action::Tap { .. } => "点按",
            Action::Hold { .. } => "长按",
            Action::Swipe(_) => "滑动",
            Action::AndroidKey { .. } => "系统键",
        }
    }
}

/// A point in text: `x,y`.
pub open spec fn pair_text(a: Seq<char>, b: Seq<char>) -> Seq<char> {
    a + ","@ + b
}

/// A line describing an action, given the texts of its coordinates (`b` is the far end of a
/// swipe and is not looked at otherwise).
pub open spec fn description<C>(
    act: Action<C>,
    a: (Seq<char>, Seq<char>),
    b: (Seq<char>, Seq<char>),
) -> Seq<char> {
    match act {
        Action::Tap { duration_ms, .. } => if duration_ms == 0 {
            "点按 "@ + pair_text(a.0, a.1) + " / 按住切换"@
        } else {
            "点按 "@ + pair_text(a.0, a.1) + " / "@ + text::dec(duration_ms as nat) + "ms"@
        },
        Action::Hold { .. } => "长按 "@ + pair_text(a.0, a.1),
        Action::Swipe(s) => "滑动 ("@ + pair_text(a.0, a.1) + ")→("@ + pair_text(b.0, b.1)
            + ") / "@ + text::dec(s.duration_ms as nat) + "ms / "@ + s.easing.label_spec() + " / "@
            + s.path.label_spec(),
        Action::AndroidKey { keycode } => "系统键 keycode="@ + text::dec(keycode as nat),
    }
}

impl<C: Copy> Action<C> {
    /// Describes the action in a line. `pct` puts a coordinate into text.
    pub fn describe<F: Fn(C) -> String>(&self, pct: &F) -> (r: String)
        requires
            forall|v: C| #[trigger] call_requires(*pct, (v,)),
        ensures
            match *self {
                Action::Tap { x, y, .. } | Action::Hold { x, y, .. } => exists|a: String, b: String|
                    call_ensures(*pct, (x,), a) && call_ensures(*pct, (y,), b) && r@
                        == #[trigger] description(*self, (a@, b@), (a@, b@)),
                Action::Swipe(s) => exists|a: String, b: String, c: String, d: String|
                    call_ensures(*pct, (s.start.0,), a) && call_ensures(*pct, (s.start.1,), b)
                        && call_ensures(*pct, (s.end.0,), c) && call_ensures(*pct, (s.end.1,), d)
                        && r@ == #[trigger] description(*self, (a@, b@), (c@, d@)),
                Action::AndroidKey { .. } => r@ == description(
                    *self,
                    (Seq::empty(), Seq::empty()),
                    (Seq::empty(), Seq::empty()),
                ),
            },
    {
        let mut r: String = String::new();
        match *self {
            Action::Tap { x, y, duration_ms, .. } => {
                let a = pct(x);
                let b = pct(y);
                r.append("点按 ");
                r.append(a.as_str());
                r.append(",");
                r.append(b.as_str());
                if duration_ms == 0 {
                    r.append(" / 按住切换");
                } else {
                    r.append(" / ");
                    text::push_dec(&mut r, duration_ms as u64);
                    r.append("ms");
                }
                assert(r@ =~= description(*self, (a@, b@), (a@, b@)));
            },
            Action::Hold { x, y, .. } => {
                let a = pct(x);
                let b = pct(y);
                r.append("长按 ");
                r.append(a.as_str());
                r.append(",");
                r.append(b.as_str());
                assert(r@ =~= description(*self, (a@, b@), (a@, b@)));
            },
            Action::Swipe(s) => {
                let a = pct(s.start.0);
                let b = pct(s.start.1);
                let c = pct(s.end.0);
                let d = pct(s.end.1);
                r.append("滑动 (");
                r.append(a.as_str());
                r.append(",");
                r.append(b.as_str());
                r.append(")→(");
                r.append(c.as_str());
                r.append(",");
                r.append(d.as_str());
                r.append(") / ");
                text::push_dec(&mut r, s.duration_ms as u64);
                r.append("ms / ");
                r.append(s.easing.label());
                r.append(" / ");
                r.append(s.path.label());
                assert(r@ =~= description(*self, (a@, b@), (c@, d@)));
            },
            Action::AndroidKey { keycode } => {
                r.append("系统键 keycode=");
                text::push_dec(&mut r, keycode as u64);
                assert(r@ =~= description(
                    *self,
                    (Seq::empty(), Seq::empty()),
                    (Seq::empty(), Seq::empty()),
                ));
            },
        }
        r
    }
}

/// A key and what it does.
#[derive(Debug, PartialEq)]
pub struct KeyBind<C> {
    pub key: u16,
    pub action: Action<C>,
}

impl<C: Copy> Clone for KeyBind<C> {
    fn clone(&self) -> (r: Self)
        ensures
            r == *self,
    {
        *self
    }
}

impl<C: Copy> Copy for KeyBind<C> {

}

/// How a temporary wheel is switched on.
#[derive(Debug, Clone, Copy, PartialEq, Eq, Structural)]
pub enum TempMode {
    /// While its key is held.
    Hold,
    /// By one press, off by the next.
    Toggle,
}

/// The key that switches a temporary wheel on, and how.
#[derive(Debug, Clone, Copy, PartialEq, Eq, Structural)]
pub struct TempWheel {
    pub key: u16,
    pub mode: TempMode,
}

/// A virtual joystick driven by four keys.
#[derive(Debug, PartialEq)]
pub struct Wheel<C> {
    pub up: u16,
    pub down: u16,
    pub left: u16,
    pub right: u16,
    pub cx: C,
    pub cy: C,
    pub radius: C,
    /// How far the finger is pushed, as a multiple of the radius.
    pub scope: C,
    /// `None` for a wheel that is always on.
    pub temp: Option<TempWheel>,
}

impl<C: Copy> Clone for Wheel<C> {
    fn clone(&self) -> (r: Self)
        ensures
            r == *self,
    {
        *self
    }
}

impl<C: Copy> Copy for Wheel<C> {

}

impl<C> Wheel<C> {
    /// Whether `code` is one of the four direction keys.
    pub open spec fn steers(self, code: u16) -> bool {
        self.up == code || self.down == code || self.left == code || self.right == code
    }

    pub fn is_direction(&self, code: u16) -> (r: bool)
        ensures
            r == self.steers(code),
    {
        self.up == code || self.down == code || self.left == code || self.right == code
    }
}

/// When the aim finger returns to its anchor.
#[derive(Debug, Clone, Copy, PartialEq, Eq, Structural)]
pub enum RecenterMode {
    /// When the mouse rests.
    Idle,
    /// When it is too far away.
    Threshold,
    /// Never.
    Never,
}

impl Default for RecenterMode {
    fn default() -> (r: Self)
        ensures
            r == RecenterMode::Idle,
    {
        RecenterMode::Idle
    }
}

impl RecenterMode {
    pub fn label(self) -> (r: &'static str)
        ensures
            r@ == match self {
                RecenterMode::Idle => "静止归中"@,
                RecenterMode::Threshold => "阈值归中"@,
                RecenterMode::Never => "不归中"@,
            },
    {
        match self {
            RecenterMode::Idle => "静止归中",
            RecenterMode::Threshold => "阈值归中",
            RecenterMode::Never => "不归中",
        }
    }
}

/// Mouse look: mouse motion drags a finger away from an anchor.
#[derive(Debug, PartialEq)]
pub struct Aim<C> {
    pub enabled: bool,
    /// Where the finger goes down; `None` while no place was chosen.
    pub anchor: Option<(C, C)>,
    pub sensitivity_x: C,
    pub sensitivity_y: C,
    pub invert_y: bool,
    pub recenter: RecenterMode,
    /// How long the mouse rests before the finger returns, in milliseconds.
    pub recenter_idle_ms: u32,
    /// How many pixels away the finger returns.
    pub recenter_threshold: i32,
    /// The button that must be held to aim; 0 for none.
    pub hold_key: u16,
    /// Whether the cursor is captured while aiming.
    pub capture_mouse: bool,
}

impl<C: Copy> Clone for Aim<C> {
    fn clone(&self) -> (r: Self)
        ensures
            r == *self,
    {
        *self
    }
}

impl<C: Copy> Copy for Aim<C> {

}

/// Mouse look as it is in a fresh profile: off, without an anchor.
pub open spec fn fresh_aim<C>(sensitivity: C) -> Aim<C> {
    Aim {
        enabled: false,
        anchor: None,
        sensitivity_x: sensitivity,
        sensitivity_y: sensitivity,
        invert_y: false,
        recenter: RecenterMode::Idle,
        recenter_idle_ms: 120,
        recenter_threshold: 400,
        hold_key: 0,
        capture_mouse: true,
    }
}

impl<C: Copy> Aim<C> {
    /// Whether an anchor was chosen.
    pub fn anchor_set(&self) -> (r: bool)
        ensures
            r == (self.anchor is Some),
    {
        self.anchor.is_some()
    }

    /// The settings of a fresh profile.
    pub fn standard(sensitivity: C) -> (a: Self)
        ensures
            a == fresh_aim(sensitivity),
    {
        Aim {
            enabled: false,
            anchor: None,
            sensitivity_x: sensitivity,
            sensitivity_y: sensitivity,
            invert_y: false,
            recenter: RecenterMode::Idle,
            recenter_idle_ms: 120,
            recenter_threshold: 400,
            hold_key: 0,
            capture_mouse: true,
        }
    }
}

/// A whole layout.
pub struct Profile<C> {
    /// See [`PROFILE_VERSION`].
    pub format_version: u32,
    /// The screen that the layout was made on, for display only.
    pub screen: Option<(u32, u32)>,
    pub name: String,
    /// The key that switches mapping on and off.
    pub toggle_key: u16,
    pub binds: Vec<KeyBind<C>>,
    pub wheels: Vec<Wheel<C>>,
    pub aim: Aim<C>,
    pub look: Look<C>,
}

/// A layout as mathematical values.
#[verifier::ext_equal]
pub struct ProfileView<C> {
    pub format_version: u32,
    pub screen: Option<(u32, u32)>,
    pub name: Seq<char>,
    pub toggle_key: u16,
    pub binds: Seq<KeyBind<C>>,
    pub wheels: Seq<Wheel<C>>,
    pub aim: Aim<C>,
    pub look: LookView<C>,
}

impl<C> View for Profile<C> {
    type V = ProfileView<C>;

    open spec fn view(&self) -> ProfileView<C> {
        ProfileView {
            format_version: self.format_version,
            screen: self.screen,
            name: self.name@,
            toggle_key: self.toggle_key,
            binds: self.binds@,
            wheels: self.wheels@,
            aim: self.aim,
            look: self.look@,
        }
    }
}

fn copied<T: Copy>(v: &Vec<T>) -> (r: Vec<T>)
    ensures
        r@ == v@,
{
    let n: usize = v.len();
    let mut r: Vec<T> = Vec::new();
    for i in 0..n
        invariant
            n == v.len(),
            r@ == v@.take(i as int),
    {
        r.push(v[i]);
    }
    assert(v@.take(n as int) =~= v@);
    r
}

impl<C: Copy> Clone for Profile<C> {
    fn clone(&self) -> (r: Self)
        ensures
            r@ == self@,
    {
        Profile {
            format_version: self.format_version,
            screen: self.screen,
            name: self.name.clone(),
            toggle_key: self.toggle_key,
            binds: copied(&self.binds),
            wheels: copied(&self.wheels),
            aim: self.aim,
            look: self.look.clone(),
        }
    }
}

/// The numbers that a fresh profile starts from.
#[derive(Debug, PartialEq)]
pub struct StartNumbers<C> {
    pub cx: C,
    pub cy: C,
    pub radius: C,
    pub scope: C,
    pub sensitivity: C,
    pub tone: C,
}

impl<C: Copy> Clone for StartNumbers<C> {
    fn clone(&self) -> (r: Self)
        ensures
            r == *self,
    {
        *self
    }
}

impl<C: Copy> Copy for StartNumbers<C> {

}

impl<C: Copy> Profile<C> {
    /// A fresh profile: no bindings, one always-on wheel on W, S, A and D, switched by F8.
    pub fn standard(n: StartNumbers<C>) -> (p: Self)
        ensures
            p.format_version == PROFILE_VERSION,
            p.screen is None,
            p.name@ == "默认配置"@,
            p.toggle_key == 66,
            p.binds@ == Seq::<KeyBind<C>>::empty(),
            p.wheels@ == seq![
                Wheel {
                    up: 17,
                    down: 31,
                    left: 30,
                    right: 32,
                    cx: n.cx,
                    cy: n.cy,
                    radius: n.radius,
                    scope: n.scope,
                    temp: None,
                },
            ],
            p.aim == fresh_aim(n.sensitivity),
            p.look.is_standard(n.tone),
    {
        let mut wheels: Vec<Wheel<C>> = Vec::new();
        wheels.push(
            Wheel {
                up: 17,
                down: 31,
                left: 30,
                right: 32,
                cx: n.cx,
                cy: n.cy,
                radius: n.radius,
                scope: n.scope,
                temp: None,
            },
        );
        Profile {
            format_version: PROFILE_VERSION,
            screen: None,
            name: "默认配置".to_owned(),
            toggle_key: 66,
            binds: Vec::new(),
            wheels,
            aim: Aim::standard(n.sensitivity),
            look: Look::standard(n.tone),
        }
    }
}

pub open spec fn unit_of(version: u32) -> CoordUnit {
    if version >= PROFILE_VERSION {
        CoordUnit::Rel
    } else {
        CoordUnit::Pixel
    }
}

impl<C> Profile<C> {
    /// What the coordinates of this profile are measured in.
    pub fn coord_unit(&self) -> (u: CoordUnit)
        ensures
            u == unit_of(self.format_version),
    {
        if self.format_version >= PROFILE_VERSION {
            CoordUnit::Rel
        } else {
            CoordUnit::Pixel
        }
    }

    /// The mapper from this profile's coordinates to a screen.
    pub fn mapper(&self, space: (u32, u32)) -> (m: Mapper)
        ensures
            m == mapper_for(unit_of(self.format_version), space),
    {
        Mapper::new(self.coord_unit(), space)
    }
}

/// The points of an action on the screen.
pub open spec fn action_points<C>(a: Action<C>) -> Seq<(C, C)> {
    match a {
        Action::Tap { x, y, .. } => seq![(x, y)],
        Action::Hold { x, y, .. } => seq![(x, y)],
        Action::Swipe(s) => seq![s.start, s.end],
        Action::AndroidKey { .. } => Seq::empty(),
    }
}

/// Every point of every binding, and the centre of every wheel.
pub open spec fn is_layout_point<C>(binds: Seq<KeyBind<C>>, wheels: Seq<Wheel<C>>, p: (C, C)) -> bool {
    ||| exists|i: int| 0 <= i < binds.len() && #[trigger] action_points(binds[i].action).contains(p)
    ||| exists|j: int| 0 <= j < wheels.len() && (#[trigger] wheels[j]).cx == p.0 && wheels[j].cy == p.1
}

/// Whether every point of the layout lies on a screen: `fits` says so of one point. The aim
/// anchor is not asked about.
fn pixels_fit_space<C: Copy, F: Fn(C, C) -> bool>(profile: &Profile<C>, fits: &F) -> (r: bool)
    requires
        forall|x: C, y: C| #[trigger] call_requires(*fits, (x, y)),
    ensures
        r ==> forall|p: (C, C)| #[trigger]
            is_layout_point(profile.binds@, profile.wheels@, p) ==> call_ensures(*fits, p, true),
        !r ==> exists|p: (C, C)| #[trigger]
            is_layout_point(profile.binds@, profile.wheels@, p) && call_ensures(*fits, p, false),
{
    let nb: usize = profile.binds.len();
    let mut i: usize = 0;
    while i < nb
        invariant
            i <= nb,
            nb == profile.binds.len(),
            forall|x: C, y: C| #[trigger] call_requires(*fits, (x, y)),
            forall|k: int, p: (C, C)|
                0 <= k < i && #[trigger] action_points(profile.binds@[k].action).contains(p)
                    ==> call_ensures(*fits, p, true),
        decreases nb - i,
    {
        let ghost pts = action_points(profile.binds@[i as int].action);
        match profile.binds[i].action {
            Action::Tap { x, y, .. } | Action::Hold { x, y, .. } => {
                if !fits(x, y) {
                    assert(pts[0] == (x, y));
                    assert(pts.contains((x, y)));
                    assert(is_layout_point(profile.binds@, profile.wheels@, (x, y)));
                    return false;
                }
            },
            Action::Swipe(s) => {
                if !fits(s.start.0, s.start.1) {
                    assert(pts[0] == s.start);
                    assert(pts.contains(s.start));
                    assert(is_layout_point(profile.binds@, profile.wheels@, s.start));
                    return false;
                }
                if !fits(s.end.0, s.end.1) {
                    assert(pts[1] == s.end);
                    assert(pts.contains(s.end));
                    assert(is_layout_point(profile.binds@, profile.wheels@, s.end));
                    return false;
                }
            },
            Action::AndroidKey { .. } => {},
        }
        i = i + 1;
    }
    let nw: usize = profile.wheels.len();
    let mut j: usize = 0;
    while j < nw
        invariant
            j <= nw,
            nw == profile.wheels.len(),
            forall|x: C, y: C| #[trigger] call_requires(*fits, (x, y)),
            forall|k: int|
                0 <= k < j ==> call_ensures(
                    *fits,
                    ((#[trigger] profile.wheels@[k]).cx, profile.wheels@[k].cy),
                    true,
                ),
        decreases nw - j,
    {
        if !fits(profile.wheels[j].cx, profile.wheels[j].cy) {
            assert(is_layout_point(
                profile.binds@,
                profile.wheels@,
                (profile.wheels@[j as int].cx, profile.wheels@[j as int].cy),
            ));
            return false;
        }
        j = j + 1;
    }
    true
}

/// An action whose coordinates went through `rx` (horizontal values and radii) and `ry`
/// (vertical values), all else kept.
pub open spec fn action_moved<C, X: Fn(C) -> C, Y: Fn(C) -> C>(
    a: Action<C>,
    b: Action<C>,
    rx: X,
    ry: Y,
) -> bool {
    match (a, b) {
        (
            Action::Tap { x, y, duration_ms, radius },
            Action::Tap { x: x2, y: y2, duration_ms: d2, radius: r2 },
        ) => call_ensures(rx, (x,), x2) && call_ensures(ry, (y,), y2) && call_ensures(
            rx,
            (radius,),
            r2,
        ) && duration_ms == d2,
        (Action::Hold { x, y, radius }, Action::Hold { x: x2, y: y2, radius: r2 }) => call_ensures(
            rx,
            (x,),
            x2,
        ) && call_ensures(ry, (y,), y2) && call_ensures(rx, (radius,), r2),
        (Action::Swipe(s), Action::Swipe(t)) => call_ensures(rx, (s.start.0,), t.start.0)
            && call_ensures(ry, (s.start.1,), t.start.1) && call_ensures(rx, (s.end.0,), t.end.0)
            && call_ensures(ry, (s.end.1,), t.end.1) && s.duration_ms == t.duration_ms && s.easing
            == t.easing && s.path == t.path,
        (Action::AndroidKey { keycode }, Action::AndroidKey { keycode: k2 }) => keycode == k2,
        _ => false,
    }
}

/// A wheel whose geometry went through `rx` and `ry`, all else kept.
pub open spec fn wheel_moved<C, X: Fn(C) -> C, Y: Fn(C) -> C>(
    a: Wheel<C>,
    b: Wheel<C>,
    rx: X,
    ry: Y,
) -> bool {
    &&& b.up == a.up && b.down == a.down && b.left == a.left && b.right == a.right
    &&& b.temp == a.temp && b.scope == a.scope
    &&& call_ensures(rx, (a.cx,), b.cx)
    &&& call_ensures(ry, (a.cy,), b.cy)
    &&& call_ensures(rx, (a.radius,), b.radius)
}

fn move_action<C: Copy, X: Fn(C) -> C, Y: Fn(C) -> C>(a: Action<C>, rx: &X, ry: &Y) -> (b: Action<
    C,
>)
    requires
        forall|v: C| #[trigger] call_requires(*rx, (v,)),
        forall|v: C| #[trigger] call_requires(*ry, (v,)),
    ensures
        action_moved(a, b, *rx, *ry),
{
    match a {
        Action::Tap { x, y, duration_ms, radius } => Action::Tap {
            x: rx(x),
            y: ry(y),
            duration_ms,
            radius: rx(radius),
        },
        Action::Hold { x, y, radius } => Action::Hold { x: rx(x), y: ry(y), radius: rx(radius) },
        Action::Swipe(s) => Action::Swipe(
            Swipe {
                start: (rx(s.start.0), ry(s.start.1)),
                end: (rx(s.end.0), ry(s.end.1)),
                duration_ms: s.duration_ms,
                easing: s.easing,
                path: s.path,
            },
        ),
        Action::AndroidKey { keycode } => Action::AndroidKey { keycode },
    }
}

/// What an attempt at turning a profile in pixels into fractions makes of it.
///
/// Either every point of the layout lies on the screen (`fits`), and then each value went
/// through `rel_x`, `rel_y` or `rel_anchor` and all else is kept; or the profile is as it was.
pub open spec fn upgrade_outcome<
    C,
    F: Fn(C, C) -> bool,
    X: Fn(C) -> C,
    Y: Fn(C) -> C,
    A: Fn((C, C)) -> Option<(C, C)>,
>(
    p: Profile<C>,
    q: Profile<C>,
    space: (u32, u32),
    fits: F,
    rel_x: X,
    rel_y: Y,
    rel_anchor: A,
    upgraded: bool,
) -> bool {
    &&& upgraded ==> p.format_version < PROFILE_VERSION && space.0 > 0 && space.1 > 0
    &&& upgraded ==> forall|pt: (C, C)| #[trigger]
        is_layout_point(p.binds@, p.wheels@, pt) ==> call_ensures(fits, pt, true)
    &&& !upgraded ==> q == p
    &&& !upgraded ==> p.format_version >= PROFILE_VERSION || space.0 == 0 || space.1 == 0
        || exists|pt: (C, C)| #[trigger]
        is_layout_point(p.binds@, p.wheels@, pt) && call_ensures(fits, pt, false)
    &&& upgraded ==> {
        &&& q.format_version == PROFILE_VERSION
        &&& q.screen == Some(space)
        &&& q.name@ == p.name@
        &&& q.toggle_key == p.toggle_key
        &&& q.look == p.look
        &&& q.binds@.len() == p.binds@.len()
        &&& forall|i: int|
            0 <= i < p.binds@.len() ==> (#[trigger] q.binds@[i]).key == p.binds@[i].key
                && action_moved(p.binds@[i].action, q.binds@[i].action, rel_x, rel_y)
        &&& q.wheels@.len() == p.wheels@.len()
        &&& forall|j: int|
            0 <= j < p.wheels@.len() ==> wheel_moved(
                p.wheels@[j],
                #[trigger] q.wheels@[j],
                rel_x,
                rel_y,
            )
        &&& match p.aim.anchor {
            None => q.aim == p.aim,
            Some(pt) => q.aim == (Aim { anchor: q.aim.anchor, ..p.aim }) && call_ensures(
                rel_anchor,
                (pt,),
                q.aim.anchor,
            ),
        }
    }
}

/// A profile is turned once: what has been turned is left as it is by any later attempt, on
/// whatever screen.
pub proof fn turning_happens_once<
    C,
    F: Fn(C, C) -> bool,
    X: Fn(C) -> C,
    Y: Fn(C) -> C,
    A: Fn((C, C)) -> Option<(C, C)>,
    F2: Fn(C, C) -> bool,
    X2: Fn(C) -> C,
    Y2: Fn(C) -> C,
    A2: Fn((C, C)) -> Option<(C, C)>,
>(
    p: Profile<C>,
    q: Profile<C>,
    r: Profile<C>,
    first: ((u32, u32), F, X, Y, A),
    second: ((u32, u32), F2, X2, Y2, A2),
    again: bool,
)
    requires
        upgrade_outcome(p, q, first.0, first.1, first.2, first.3, first.4, true),
        upgrade_outcome(q, r, second.0, second.1, second.2, second.3, second.4, again),
    ensures
        !again,
        r == q,
{
}

/// Whether a number that was turned stands for the pixel that it was, if it was one that can.
pub open spec fn same_pixel<C>(
    a: C,
    b: C,
    good: spec_fn(C) -> bool,
    before: spec_fn(C) -> int,
    after: spec_fn(C) -> int,
) -> bool {
    good(a) ==> after(b) == before(a)
}

/// Whether all numbers of an action stand for the pixels that they were.
pub open spec fn action_stays<C>(
    a: Action<C>,
    b: Action<C>,
    good: spec_fn(C) -> bool,
    x_before: spec_fn(C) -> int,
    x_after: spec_fn(C) -> int,
    y_before: spec_fn(C) -> int,
    y_after: spec_fn(C) -> int,
) -> bool {
    match (a, b) {
        (
            Action::Tap { x, y, radius, .. },
            Action::Tap { x: x2, y: y2, radius: r2, .. },
        ) => same_pixel(x, x2, good, x_before, x_after) && same_pixel(y, y2, good, y_before, y_after)
            && same_pixel(radius, r2, good, x_before, x_after),
        (Action::Hold { x, y, radius }, Action::Hold { x: x2, y: y2, radius: r2 }) => same_pixel(
            x,
            x2,
            good,
            x_before,
            x_after,
        ) && same_pixel(y, y2, good, y_before, y_after) && same_pixel(
            radius,
            r2,
            good,
            x_before,
            x_after,
        ),
        (Action::Swipe(s), Action::Swipe(t)) => same_pixel(
            s.start.0,
            t.start.0,
            good,
            x_before,
            x_after,
        ) && same_pixel(s.start.1, t.start.1, good, y_before, y_after) && same_pixel(
            s.end.0,
            t.end.0,
            good,
            x_before,
            x_after,
        ) && same_pixel(s.end.1, t.end.1, good, y_before, y_after),
        (Action::AndroidKey { .. }, Action::AndroidKey { .. }) => true,
        _ => false,
    }
}

/// Turning a profile keeps pixel positions: where turning one number keeps the pixel that it
/// stands for, every place of the profile stands for the same pixel as before, and so does
/// every radius, which goes by the width.
///
/// `x_before` and `x_after` give the column of a number of the profile before and after it was
/// turned, `y_before` and `y_after` the row. `good` says of which numbers turning is known to
/// keep it: rounding may move others.
pub proof fn turning_keeps_pixels<
    C,
    F: Fn(C, C) -> bool,
    X: Fn(C) -> C,
    Y: Fn(C) -> C,
    A: Fn((C, C)) -> Option<(C, C)>,
>(
    p: Profile<C>,
    q: Profile<C>,
    space: (u32, u32),
    fits: F,
    rel_x: X,
    rel_y: Y,
    rel_anchor: A,
    good: spec_fn(C) -> bool,
    x_before: spec_fn(C) -> int,
    x_after: spec_fn(C) -> int,
    y_before: spec_fn(C) -> int,
    y_after: spec_fn(C) -> int,
)
    requires
        upgrade_outcome(p, q, space, fits, rel_x, rel_y, rel_anchor, true),
        forall|v: C, r: C| #[trigger]
            call_ensures(rel_x, (v,), r) ==> same_pixel(v, r, good, x_before, x_after),
        forall|v: C, r: C| #[trigger]
            call_ensures(rel_y, (v,), r) ==> same_pixel(v, r, good, y_before, y_after),
        forall|v: (C, C), r: (C, C)| #[trigger]
            call_ensures(rel_anchor, (v,), Some(r)) ==> same_pixel(
                v.0,
                r.0,
                good,
                x_before,
                x_after,
            ) && same_pixel(v.1, r.1, good, y_before, y_after),
    ensures
        q.binds@.len() == p.binds@.len(),
        forall|i: int|
            0 <= i < p.binds@.len() ==> action_stays(
                p.binds@[i].action,
                (#[trigger] q.binds@[i]).action,
                good,
                x_before,
                x_after,
                y_before,
                y_after,
            ),
        q.wheels@.len() == p.wheels@.len(),
        forall|j: int|
            0 <= j < p.wheels@.len() ==> {
                let a = p.wheels@[j];
                let b = #[trigger] q.wheels@[j];
                &&& same_pixel(a.cx, b.cx, good, x_before, x_after)
                &&& same_pixel(a.cy, b.cy, good, y_before, y_after)
                &&& same_pixel(a.radius, b.radius, good, x_before, x_after)
            },
        match (p.aim.anchor, q.aim.anchor) {
            (Some(a), Some(b)) => same_pixel(a.0, b.0, good, x_before, x_after) && same_pixel(
                a.1,
                b.1,
                good,
                y_before,
                y_after,
            ),
            (_, b) => b is None,
        },
{
    if q.aim.anchor is Some && p.aim.anchor is Some {
        assert(call_ensures(rel_anchor, (p.aim.anchor->0,), Some(q.aim.anchor->0)));
    }
}

/// Turns a profile in pixels into one in fractions of the given screen; true when it did.
///
/// Nothing happens to a profile that is in fractions already, on a screen without area, or
/// when some point of the layout lies off the screen (`fits`): such a layout was made for
/// another orientation and dividing by this screen's size would ruin it. `rel_x` and `rel_y`
/// turn one value, `rel_anchor` the aim anchor, which may vanish when it lands on the origin.
pub fn upgrade_profile<
    C: Copy,
    F: Fn(C, C) -> bool,
    X: Fn(C) -> C,
    Y: Fn(C) -> C,
    A: Fn((C, C)) -> Option<(C, C)>,
>(
    profile: &mut Profile<C>,
    space: (u32, u32),
    fits: &F,
    rel_x: &X,
    rel_y: &Y,
    rel_anchor: &A,
) -> (upgraded: bool)
    requires
        forall|x: C, y: C| #[trigger] call_requires(*fits, (x, y)),
        forall|v: C| #[trigger] call_requires(*rel_x, (v,)),
        forall|v: C| #[trigger] call_requires(*rel_y, (v,)),
        forall|p: (C, C)| #[trigger] call_requires(*rel_anchor, (p,)),
    ensures
        upgrade_outcome(
            *old(profile),
            *final(profile),
            space,
            *fits,
            *rel_x,
            *rel_y,
            *rel_anchor,
            upgraded,
        ),
{
    if profile.format_version >= PROFILE_VERSION || space.0 == 0 || space.1 == 0 {
        return false;
    }
    if !pixels_fit_space(profile, fits) {
        return false;
    }
    let nb: usize = profile.binds.len();
    let mut i: usize = 0;
    while i < nb
        invariant
            i <= nb,
            nb == profile.binds.len(),
            nb == old(profile).binds.len(),
            forall|v: C| #[trigger] call_requires(*rel_x, (v,)),
            forall|v: C| #[trigger] call_requires(*rel_y, (v,)),
            forall|k: int| i <= k < nb ==> profile.binds@[k] == old(profile).binds@[k],
            forall|k: int|
                0 <= k < i ==> (#[trigger] profile.binds@[k]).key == old(profile).binds@[k].key
                    && action_moved(
                    old(profile).binds@[k].action,
                    profile.binds@[k].action,
                    *rel_x,
                    *rel_y,
                ),
            profile.wheels@ == old(profile).wheels@,
            profile.aim == old(profile).aim,
            profile.look == old(profile).look,
            profile.name == old(profile).name,
            profile.toggle_key == old(profile).toggle_key,
        decreases nb - i,
    {
        let b = profile.binds[i];
        let action = move_action(b.action, rel_x, rel_y);
        profile.binds[i] = KeyBind { key: b.key, action };
        i = i + 1;
    }
    let nw: usize = profile.wheels.len();
    let mut j: usize = 0;
    let ghost binds_done = profile.binds@;
    while j < nw
        invariant
            j <= nw,
            nw == profile.wheels.len(),
            nw == old(profile).wheels.len(),
            forall|v: C| #[trigger] call_requires(*rel_x, (v,)),
            forall|v: C| #[trigger] call_requires(*rel_y, (v,)),
            forall|k: int| j <= k < nw ==> profile.wheels@[k] == old(profile).wheels@[k],
            forall|k: int|
                0 <= k < j ==> wheel_moved(
                    old(profile).wheels@[k],
                    #[trigger] profile.wheels@[k],
                    *rel_x,
                    *rel_y,
                ),
            profile.binds@ == binds_done,
            profile.aim == old(profile).aim,
            profile.look == old(profile).look,
            profile.name == old(profile).name,
            profile.toggle_key == old(profile).toggle_key,
        decreases nw - j,
    {
        let w = profile.wheels[j];
        profile.wheels[j] =
        Wheel {
            up: w.up,
            down: w.down,
            left: w.left,
            right: w.right,
            cx: rel_x(w.cx),
            cy: rel_y(w.cy),
            radius: rel_x(w.radius),
            scope: w.scope,
            temp: w.temp,
        };
        j = j + 1;
    }
    if let Some(p) = profile.aim.anchor {
        profile.aim.anchor = rel_anchor(p);
    }
    profile.format_version = PROFILE_VERSION;
    profile.screen = Some(space);
    true
}

/// What `evdev` prints for the key with a code: its constant's name, or that it is unknown.
pub uninterp spec fn evdev_key_text(code: u16) -> Seq<char>;

/// The `Debug` form of `evdev::KeyCode`: the name of the constant with this code. The table
/// of names is the crate's own and is not spelled out here.
#[verifier::external_body]
fn evdev_debug(code: u16) -> (s: String)
    ensures
        s@ == evdev_key_text(code),
{
    format!("{:?}", evdev::KeyCode(code))
}

/// The readable name of a key: on Windows that of the keyboard hook's key, elsewhere that of
/// `evdev`.
pub open spec fn name_text(code: u16, windows: bool) -> Seq<char> {
    if windows {
        keycodes::win_text(code)
    } else {
        evdev_key_text(code)
    }
}

/// The readable name of a key, on Windows or elsewhere.
pub fn key_name(code: u16, windows: bool) -> (s: String)
    ensures
        s@ == name_text(code, windows),
{
    if windows {
        keycodes::win_key_name(code)
    } else {
        evdev_debug(code)
    }
}

/// A rectangle is gone round once: from the start across to the end's column, down to the end,
/// back to the start's column and up to the start, always along one axis.
pub proof fn a_rectangle_is_gone_round(start: (i32, i32), end: (i32, i32))
    ensures
        ({
            let c = rect_corners(start, end);
            &&& c.len() == 5
            &&& c[0] == start
            &&& c[2] == end
            &&& c[4] == start
            &&& c[1].0 == end.0 && c[1].1 == start.1
            &&& c[3].0 == start.0 && c[3].1 == end.1
            &&& forall|k: int|
                0 <= k < 4 ==> (#[trigger] c[k]).0 == c[k + 1].0 || c[k].1 == c[k + 1].1
        }),
{
}

/// The first version stores pixels, all later ones fractions; a screen is taken to be a pixel
/// wide and high at least, and otherwise as it is.
pub proof fn versions_have_units(version: u32, space: (u32, u32))
    ensures
        version <= 1 ==> unit_of(version) == CoordUnit::Pixel,
        version >= 2 ==> unit_of(version) == CoordUnit::Rel,
        ({
            let m = mapper_for(unit_of(version), space);
            &&& m.legacy == (version <= 1)
            &&& m.w >= 1 && m.h >= 1
            &&& space.0 > 0 ==> m.w == space.0
            &&& space.1 > 0 ==> m.h == space.1
        }),
{
}

/// The points of a layout are all its places and nothing else: where taps and holds are, where
/// swipes start and end, and the centres of wheels.
pub proof fn points_are_all_places<C>(binds: Seq<KeyBind<C>>, wheels: Seq<Wheel<C>>, p: (C, C))
    ensures
        is_layout_point(binds, wheels, p) == {
            ||| exists|i: int|
                0 <= i < binds.len() && match (#[trigger] binds[i]).action {
                    Action::Tap { x, y, .. } => p == (x, y),
                    Action::Hold { x, y, .. } => p == (x, y),
                    Action::Swipe(s) => p == s.start || p == s.end,
                    Action::AndroidKey { .. } => false,
                }
            ||| exists|j: int|
                0 <= j < wheels.len() && p == ((#[trigger] wheels[j]).cx, wheels[j].cy)
        },
{
    if exists|i: int|
        0 <= i < binds.len() && match (#[trigger] binds[i]).action {
            Action::Tap { x, y, .. } => p == (x, y),
            Action::Hold { x, y, .. } => p == (x, y),
            Action::Swipe(s) => p == s.start || p == s.end,
            Action::AndroidKey { .. } => false,
        } {
        let i = choose|i: int|
            0 <= i < binds.len() && match (#[trigger] binds[i]).action {
                Action::Tap { x, y, .. } => p == (x, y),
                Action::Hold { x, y, .. } => p == (x, y),
                Action::Swipe(s) => p == s.start || p == s.end,
                Action::AndroidKey { .. } => false,
            };
        let s = action_points(binds[i].action);
        assert(s[0] == p || s[1] == p);
        assert(s.contains(p));
    }
    if exists|i: int| 0 <= i < binds.len() && #[trigger] action_points(binds[i].action).contains(p) {
        let i = choose|i: int|
            0 <= i < binds.len() && #[trigger] action_points(binds[i].action).contains(p);
        let k = action_points(binds[i].action).index_of(p);
        assert(action_points(binds[i].action)[k] == p);
        assert(binds[i].action is Tap || binds[i].action is Hold || binds[i].action is Swipe);
    }
}

} // verus!
