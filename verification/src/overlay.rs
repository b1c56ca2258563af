//! What is drawn on the screenshot: keys, swipes, the aim anchor and the wheels.

use vstd::prelude::*;
use vstd::string::*;
use crate::editor::{DraftKind, Editor, KeySlot};
use crate::keymap::{self, Action, Aim, KeyBind, Profile, ProfileView, RecenterMode, TempMode, Wheel};
use crate::text;
use crate::theme::{Rgba, Theme};

verus! {

/// Which marks are shown.
#[derive(Debug, Clone, Copy, PartialEq, Eq, Structural)]
pub enum OverlayFilter {
    All,
    Keys,
    Wheels,
    PermWheels,
    TempWheels,
    Aim,
}

impl OverlayFilter {
    pub fn label(&self) -> (r: &'static str)
        ensures
            r@ == match *self {
                OverlayFilter::All => "全部"@,
                OverlayFilter::Keys => "仅键位"@,
                OverlayFilter::Wheels => "仅摇杆"@,
                OverlayFilter::PermWheels => "永久摇杆"@,
                OverlayFilter::TempWheels => "临时摇杆"@,
                OverlayFilter::Aim => "锚点(FPS)"@,
            },
    {
        match self {
            OverlayFilter::All => "全部",
            OverlayFilter::Keys => "仅键位",
            OverlayFilter::Wheels => "仅摇杆",
            OverlayFilter::PermWheels => "永久摇杆",
            OverlayFilter::TempWheels => "临时摇杆",
            OverlayFilter::Aim => "锚点(FPS)",
        }
    }

    pub open spec fn shows_keys(self) -> bool {
        self == OverlayFilter::All || self == OverlayFilter::Keys
    }

    pub open spec fn shows_aim(self) -> bool {
        self == OverlayFilter::All || self == OverlayFilter::Aim
    }

    pub open spec fn shows_wheel(self, temporary: bool) -> bool {
        match self {
            OverlayFilter::All | OverlayFilter::Wheels => true,
            OverlayFilter::PermWheels => !temporary,
            OverlayFilter::TempWheels => temporary,
            OverlayFilter::Keys | OverlayFilter::Aim => false,
        }
    }
}

/// One mark. Bindings and wheels are named by their index; places and sizes are the profile's.
pub enum Mark {
    /// A ring for a tap or a hold.
    Key { bind: usize, ring: Rgba, fill: Rgba, label: String },
    /// The path of a swipe.
    Track { bind: usize, label: String },
    /// The path of the drafted swipe.
    DraftTrack,
    /// The ring of the drafted binding.
    DraftRing,
    /// The aim anchor; with the distance in pixels at which the finger returns, if there is
    /// one.
    Anchor { threshold: Option<i32>, label: String },
    /// A wheel, dashed when it is temporary.
    Stick { wheel: usize, temporary: bool, ring: Rgba, ink: Rgba, label: String },
}

/// A mark as mathematical values.
#[verifier::ext_equal]
pub enum MarkView {
    Key { bind: int, ring: Rgba, fill: Rgba, label: Seq<char> },
    Track { bind: int, label: Seq<char> },
    DraftTrack,
    DraftRing,
    Anchor { threshold: Option<i32>, label: Seq<char> },
    Stick { wheel: int, temporary: bool, ring: Rgba, ink: Rgba, label: Seq<char> },
}

impl View for Mark {
    type V = MarkView;

    open spec fn view(&self) -> MarkView {
        match *self {
            Mark::Key { bind, ring, fill, label } => MarkView::Key {
                bind: bind as int,
                ring,
                fill,
                label: label@,
            },
            Mark::Track { bind, label } => MarkView::Track { bind: bind as int, label: label@ },
            Mark::DraftTrack => MarkView::DraftTrack,
            Mark::DraftRing => MarkView::DraftRing,
            Mark::Anchor { threshold, label } => MarkView::Anchor { threshold, label: label@ },
            Mark::Stick { wheel, temporary, ring, ink, label } => MarkView::Stick {
                wheel: wheel as int,
                temporary,
                ring,
                ink,
                label: label@,
            },
        }
    }
}

pub open spec fn views(v: Seq<Mark>) -> Seq<MarkView> {
    v.map_values(|m: Mark| m@)
}

/// The name of a key without the prefix that all keys have.
pub open spec fn short(code: u16, windows: bool) -> Seq<char> {
    text::without(keymap::name_text(code, windows), "KEY_"@)
}

/// The name of a key without the prefix that all keys have.
pub fn short_name(code: u16, windows: bool) -> (r: String)
    ensures
        r@ == short(code, windows),
{
    proof {
        reveal_strlit("KEY_");
    }
    let name = keymap::key_name(code, windows);
    text::remove_text(name.as_str(), "KEY_")
}

/// The colours of a ring: being resized, tap, or hold.
pub open spec fn ring_colors<C>(th: Theme, a: Action<C>, resizing: bool) -> (Rgba, Rgba) {
    if resizing {
        (th.key_resize, th.key_resize_fill)
    } else if a is Tap {
        (th.key_tap, th.key_tap_fill)
    } else {
        (th.key_hold, th.key_hold_fill)
    }
}

/// The mark of a binding; a system key has none.
pub open spec fn bind_mark<C>(
    th: Theme,
    b: KeyBind<C>,
    i: int,
    resizing: bool,
    windows: bool,
) -> Option<MarkView> {
    match b.action {
        Action::Tap { .. } | Action::Hold { .. } => Some(
            MarkView::Key {
                bind: i,
                ring: ring_colors(th, b.action, resizing).0,
                fill: ring_colors(th, b.action, resizing).1,
                label: short(b.key, windows),
            },
        ),
        Action::Swipe(_) => Some(MarkView::Track { bind: i, label: short(b.key, windows) }),
        Action::AndroidKey { .. } => None,
    }
}

pub open spec fn maybe(s: Seq<MarkView>, m: Option<MarkView>) -> Seq<MarkView> {
    match m {
        Some(v) => s.push(v),
        None => s,
    }
}

/// The marks of the first `n` bindings.
pub open spec fn bind_marks<C>(
    th: Theme,
    binds: Seq<KeyBind<C>>,
    resizing: Option<usize>,
    windows: bool,
    n: nat,
) -> Seq<MarkView>
    decreases n,
{
    if n == 0 {
        Seq::empty()
    } else {
        let i = n - 1;
        maybe(
            bind_marks(th, binds, resizing, windows, i as nat),
            bind_mark(th, binds[i], i, resizing is Some && resizing->0 == i, windows),
        )
    }
}

/// The mark of the draft, while one is open.
pub open spec fn draft_mark<C>(e: Editor<C>) -> Option<MarkView> {
    if e.draft_active || e.waiting_key == Some(KeySlot::NewBind) {
        if e.draft.kind == DraftKind::Swipe {
            Some(MarkView::DraftTrack)
        } else {
            Some(MarkView::DraftRing)
        }
    } else {
        None
    }
}

/// The mark of the aim anchor.
pub open spec fn anchor_mark<C>(aim: Aim<C>, windows: bool) -> MarkView {
    MarkView::Anchor {
        threshold: if aim.recenter == RecenterMode::Threshold {
            Some(
                if aim.recenter_threshold < 1 {
                    1i32
                } else {
                    aim.recenter_threshold
                },
            )
        } else {
            None
        },
        label: if aim.hold_key == 0 {
            "瞄准锚点"@
        } else {
            "瞄准锚点 ["@ + keymap::name_text(aim.hold_key, windows) + "]"@
        },
    }
}

pub open spec fn mode_text(m: TempMode) -> Seq<char> {
    match m {
        TempMode::Hold => "按住"@,
        TempMode::Toggle => "切换"@,
    }
}

/// The keys of a wheel: up, left, down, right.
pub open spec fn dirs_text<C>(w: Wheel<C>, windows: bool) -> Seq<char> {
    short(w.up, windows) + "/"@ + short(w.left, windows) + "/"@ + short(w.down, windows) + "/"@ + short(w.right, windows)
}

/// The mark of a wheel.
pub open spec fn wheel_mark<C>(th: Theme, w: Wheel<C>, j: int, windows: bool) -> MarkView {
    MarkView::Stick {
        wheel: j,
        temporary: w.temp is Some,
        ring: if w.temp is Some {
            th.wheel_temp
        } else {
            th.wheel_perm
        },
        ink: if w.temp is Some {
            th.wheel_temp
        } else {
            th.wheel_perm
        },
        label: match w.temp {
            Some(t) => "临时摇杆["@ + short(t.key, windows) + "·"@ + mode_text(t.mode) + "] "@ + dirs_text(w, windows),
            None => "摇杆 "@ + dirs_text(w, windows),
        },
    }
}

/// The marks of the first `n` wheels.
pub open spec fn wheel_marks<C>(
    th: Theme,
    wheels: Seq<Wheel<C>>,
    filter: OverlayFilter,
    windows: bool,
    n: nat,
) -> Seq<MarkView>
    decreases n,
{
    if n == 0 {
        Seq::empty()
    } else {
        let j = n - 1;
        let before = wheel_marks(th, wheels, filter, windows, j as nat);
        if filter.shows_wheel(wheels[j].temp is Some) {
            before.push(wheel_mark(th, wheels[j], j, windows))
        } else {
            before
        }
    }
}

/// All marks, in the order in which they are drawn.
pub open spec fn all_marks<C>(
    p: ProfileView<C>,
    e: Editor<C>,
    filter: OverlayFilter,
    windows: bool,
) -> Seq<MarkView> {
    let th = p.look.preset.theme_spec();
    let keys = if filter.shows_keys() {
        maybe(bind_marks(th, p.binds, e.resizing, windows, p.binds.len()), draft_mark(e))
    } else {
        Seq::empty()
    };
    let aim = if filter.shows_aim() && p.aim.anchor is Some {
        keys.push(anchor_mark(p.aim, windows))
    } else {
        keys
    };
    aim + wheel_marks(th, p.wheels, filter, windows, p.wheels.len())
}

fn mark_of_bind<C: Copy>(
    th: &Theme,
    b: &KeyBind<C>,
    i: usize,
    resizing: bool,
    windows: bool,
) -> (r: Option<Mark>)
    ensures
        (match r {
            Some(m) => Some(m@),
            None => None,
        }) == bind_mark(*th, *b, i as int, resizing, windows),
{
    match b.action {
        Action::Tap { .. } => {
            let (ring, fill) = if resizing {
                (th.key_resize, th.key_resize_fill)
            } else {
                (th.key_tap, th.key_tap_fill)
            };
            Some(Mark::Key { bind: i, ring, fill, label: short_name(b.key, windows) })
        },
        Action::Hold { .. } => {
            let (ring, fill) = if resizing {
                (th.key_resize, th.key_resize_fill)
            } else {
                (th.key_hold, th.key_hold_fill)
            };
            Some(Mark::Key { bind: i, ring, fill, label: short_name(b.key, windows) })
        },
        Action::Swipe(_) => Some(Mark::Track { bind: i, label: short_name(b.key, windows) }),
        Action::AndroidKey { .. } => None,
    }
}

fn mark_of_anchor<C: Copy>(aim: &Aim<C>, windows: bool) -> (m: Mark)
    ensures
        m@ == anchor_mark(*aim, windows),
{
    let threshold = if aim.recenter == RecenterMode::Threshold {
        Some(
            if aim.recenter_threshold < 1 {
                1i32
            } else {
                aim.recenter_threshold
            },
        )
    } else {
        None
    };
    let mut label = String::new();
    label.append("瞄准锚点");
    assert(label@ =~= "瞄准锚点"@);
    if aim.hold_key != 0 {
        let name = keymap::key_name(aim.hold_key, windows);
        label = String::new();
        label.append("瞄准锚点 [");
        label.append(name.as_str());
        label.append("]");
        assert(label@ =~= "瞄准锚点 ["@ + keymap::name_text(aim.hold_key, windows) + "]"@);
    }
    Mark::Anchor { threshold, label }
}

fn dirs_label<C: Copy>(w: &Wheel<C>, windows: bool) -> (s: String)
    ensures
        s@ == dirs_text(*w, windows),
{
    let mut s = short_name(w.up, windows);
    s.append("/");
    let l = short_name(w.left, windows);
    s.append(l.as_str());
    s.append("/");
    let d = short_name(w.down, windows);
    s.append(d.as_str());
    s.append("/");
    let r = short_name(w.right, windows);
    s.append(r.as_str());
    s
}

fn mark_of_wheel<C: Copy>(th: &Theme, w: &Wheel<C>, j: usize, windows: bool) -> (m: Mark)
    ensures
        m@ == wheel_mark(*th, *w, j as int, windows),
{
    let dirs = dirs_label(w, windows);
    let mut label = String::new();
    match w.temp {
        Some(t) => {
            label.append("临时摇杆[");
            let k = short_name(t.key, windows);
            label.append(k.as_str());
            label.append("·");
            label.append(
                match t.mode {
                    TempMode::Hold => "按住",
                    TempMode::Toggle => "切换",
                },
            );
            label.append("] ");
            label.append(dirs.as_str());
            assert(label@ =~= "临时摇杆["@ + short(t.key, windows) + "·"@ + mode_text(t.mode) + "] "@
                + dirs_text(*w, windows));
            Mark::Stick {
                wheel: j,
                temporary: true,
                ring: th.wheel_temp,
                ink: th.wheel_temp,
                label,
            }
        },
        None => {
            label.append("摇杆 ");
            label.append(dirs.as_str());
            assert(label@ =~= "摇杆 "@ + dirs_text(*w, windows));
            Mark::Stick {
                wheel: j,
                temporary: false,
                ring: th.wheel_perm,
                ink: th.wheel_perm,
                label,
            }
        },
    }
}

fn push_mark(v: &mut Vec<Mark>, m: Mark)
    ensures
        views(final(v)@) == views(old(v)@).push(m@),
{
    v.push(m);
    assert(views(v@) =~= views(old(v)@).push(m@));
}

fn marks_of_binds<C: Copy>(
    th: &Theme,
    binds: &Vec<KeyBind<C>>,
    resizing: Option<usize>,
    windows: bool,
) -> (v: Vec<Mark>)
    ensures
        views(v@) == bind_marks(*th, binds@, resizing, windows, binds@.len()),
{
    let n: usize = binds.len();
    let mut v: Vec<Mark> = Vec::new();
    assert(views(v@) =~= Seq::<MarkView>::empty());
    for i in 0..n
        invariant
            n == binds.len(),
            views(v@) == bind_marks(*th, binds@, resizing, windows, i as nat),
    {
        let now: bool = match resizing {
            Some(k) => k == i,
            None => false,
        };
        let m = mark_of_bind(th, &binds[i], i, now, windows);
        if let Some(m) = m {
            push_mark(&mut v, m);
        }
        assert(views(v@) == bind_marks(*th, binds@, resizing, windows, (i + 1) as nat));
    }
    v
}

fn marks_of_wheels<C: Copy>(
    th: &Theme,
    wheels: &Vec<Wheel<C>>,
    filter: OverlayFilter,
    windows: bool,
) -> (v: Vec<Mark>)
    ensures
        views(v@) == wheel_marks(*th, wheels@, filter, windows, wheels@.len()),
{
    let n: usize = wheels.len();
    let mut v: Vec<Mark> = Vec::new();
    assert(views(v@) =~= Seq::<MarkView>::empty());
    for j in 0..n
        invariant
            n == wheels.len(),
            views(v@) == wheel_marks(*th, wheels@, filter, windows, j as nat),
    {
        let show: bool = match filter {
            OverlayFilter::All | OverlayFilter::Wheels => true,
            OverlayFilter::PermWheels => wheels[j].temp.is_none(),
            OverlayFilter::TempWheels => wheels[j].temp.is_some(),
            OverlayFilter::Keys | OverlayFilter::Aim => false,
        };
        if show {
            let m = mark_of_wheel(th, &wheels[j], j, windows);
            push_mark(&mut v, m);
        }
        assert(views(v@) == wheel_marks(*th, wheels@, filter, windows, (j + 1) as nat));
    }
    v
}

/// The marks to draw, first to last, with the names that keys have on Windows or elsewhere.
pub fn marks<C: Copy>(
    profile: &Profile<C>,
    editor: &Editor<C>,
    filter: OverlayFilter,
    windows: bool,
) -> (v: Vec<Mark>)
    ensures
        views(v@) == all_marks(profile@, *editor, filter, windows),
{
    let th = profile.look.theme();
    let mut v: Vec<Mark> = Vec::new();
    assert(views(v@) =~= Seq::<MarkView>::empty());
    if filter == OverlayFilter::All || filter == OverlayFilter::Keys {
        v = marks_of_binds(&th, &profile.binds, editor.resizing, windows);
        let open: bool = editor.draft_active || editor.waits_for(KeySlot::NewBind);
        if open {
            if editor.draft.kind == DraftKind::Swipe {
                push_mark(&mut v, Mark::DraftTrack);
            } else {
                push_mark(&mut v, Mark::DraftRing);
            }
        }
    }
    if (filter == OverlayFilter::All || filter == OverlayFilter::Aim) && profile.aim.anchor_set() {
        let m = mark_of_anchor(&profile.aim, windows);
        push_mark(&mut v, m);
    }
    let mut w = marks_of_wheels(&th, &profile.wheels, filter, windows);
    let ghost a = v@;
    let ghost b = w@;
    v.append(&mut w);
    assert(views(v@) =~= views(a) + views(b));
    v
}

/// Filtering to one kind of wheel and the other shows each wheel once.
pub proof fn wheels_are_split(temporary: bool)
    ensures
        OverlayFilter::PermWheels.shows_wheel(temporary) != OverlayFilter::TempWheels.shows_wheel(
            temporary,
        ),
        OverlayFilter::Wheels.shows_wheel(temporary),
{
}

proof fn bind_marks_each<C>(
    th: Theme,
    binds: Seq<KeyBind<C>>,
    resizing: Option<usize>,
    windows: bool,
    n: nat,
    i: int,
)
    requires
        n <= binds.len(),
        0 <= i < binds.len(),
    ensures
        ({
            let s = bind_marks(th, binds, resizing, windows, n);
            let m = bind_mark(th, binds[i], i, resizing is Some && resizing->0 == i, windows);
            &&& i < n && m is Some ==> s.contains(m->0)
            &&& forall|k: int|
                0 <= k < s.len() ==> {
                    ||| (#[trigger] s[k]) is Key && 0 <= s[k]->Key_bind < n
                    ||| s[k] is Track && 0 <= s[k]->Track_bind < n
                }
            &&& forall|k: int|
                0 <= k < s.len() && ((#[trigger] s[k]) is Key && s[k]->Key_bind == i || s[k] is Track
                    && s[k]->Track_bind == i) ==> m == Some(s[k])
        }),
    decreases n,
{
    let s = bind_marks(th, binds, resizing, windows, n);
    if n > 0 {
        let before = (n - 1) as nat;
        bind_marks_each(th, binds, resizing, windows, before, i);
        let t = bind_marks(th, binds, resizing, windows, before);
        let m = bind_mark(th, binds[i], i, resizing is Some && resizing->0 == i, windows);
        if i < n - 1 && m is Some {
            let k = t.index_of(m->0);
            assert(s[k] == m->0);
        }
        if i == n - 1 && m is Some {
            assert(s[t.len() as int] == m->0);
        }
        assert forall|k: int| 0 <= k < s.len() implies {
            ||| (#[trigger] s[k]) is Key && 0 <= s[k]->Key_bind < n
            ||| s[k] is Track && 0 <= s[k]->Track_bind < n
        } by {
            if k < t.len() {
                assert(s[k] == t[k]);
            }
        }
        assert forall|k: int|
            0 <= k < s.len() && ((#[trigger] s[k]) is Key && s[k]->Key_bind == i || s[k] is Track
                && s[k]->Track_bind == i) implies m == Some(s[k]) by {
            if k < t.len() {
                assert(s[k] == t[k]);
            }
        }
    }
}

proof fn wheel_marks_each<C>(
    th: Theme,
    wheels: Seq<Wheel<C>>,
    filter: OverlayFilter,
    windows: bool,
    n: nat,
    j: int,
)
    requires
        n <= wheels.len(),
        0 <= j < wheels.len(),
    ensures
        ({
            let s = wheel_marks(th, wheels, filter, windows, n);
            let m = wheel_mark(th, wheels[j], j, windows);
            &&& j < n && filter.shows_wheel(wheels[j].temp is Some) ==> s.contains(m)
            &&& forall|k: int|
                0 <= k < s.len() ==> (#[trigger] s[k]) is Stick && 0 <= s[k]->wheel < n
            &&& forall|k: int|
                0 <= k < s.len() && (#[trigger] s[k])->wheel == j ==> s[k] == m
                    && filter.shows_wheel(wheels[j].temp is Some)
        }),
    decreases n,
{
    let s = wheel_marks(th, wheels, filter, windows, n);
    if n > 0 {
        let before = (n - 1) as nat;
        wheel_marks_each(th, wheels, filter, windows, before, j);
        let t = wheel_marks(th, wheels, filter, windows, before);
        let m = wheel_mark(th, wheels[j], j, windows);
        if filter.shows_wheel(wheels[j].temp is Some) {
            if j < n - 1 {
                let k = t.index_of(m);
                assert(s[k] == m);
            }
            if j == n - 1 {
                assert(s[t.len() as int] == m);
            }
        }
        assert forall|k: int| 0 <= k < s.len() implies (#[trigger] s[k]) is Stick && 0
            <= s[k]->wheel < n by {
            if k < t.len() {
                assert(s[k] == t[k]);
            }
        }
        assert forall|k: int| 0 <= k < s.len() && (#[trigger] s[k])->wheel == j implies s[k] == m
            && filter.shows_wheel(wheels[j].temp is Some) by {
            if k < t.len() {
                assert(s[k] == t[k]);
            }
        }
    }
}

/// Every binding that is somewhere on the screen is drawn, in the colour that says what it is:
/// taps and holds as rings in colours of their own, or in the colour of resizing while that goes
/// on, swipes as tracks, each with the name of its key. They are drawn with everything or with
/// the keys alone, and then once each; system keys are nowhere.
#[verifier::spinoff_prover]
pub proof fn every_binding_is_drawn<C>(
    p: ProfileView<C>,
    e: Editor<C>,
    filter: OverlayFilter,
    windows: bool,
    i: int,
    k: int,
)
    requires
        0 <= i < p.binds.len(),
    ensures
        ({
            let s = all_marks(p, e, filter, windows);
            let th = p.look.preset.theme_spec();
            let b = p.binds[i];
            let keys = filter == OverlayFilter::All || filter == OverlayFilter::Keys;
            let resized = e.resizing is Some && e.resizing->0 == i;
            &&& keys && b.action is Tap ==> s.contains(
                MarkView::Key {
                    bind: i,
                    ring: if resized {
                        th.key_resize
                    } else {
                        th.key_tap
                    },
                    fill: if resized {
                        th.key_resize_fill
                    } else {
                        th.key_tap_fill
                    },
                    label: short(b.key, windows),
                },
            )
            &&& keys && b.action is Hold ==> s.contains(
                MarkView::Key {
                    bind: i,
                    ring: if resized {
                        th.key_resize
                    } else {
                        th.key_hold
                    },
                    fill: if resized {
                        th.key_resize_fill
                    } else {
                        th.key_hold_fill
                    },
                    label: short(b.key, windows),
                },
            )
            &&& keys && b.action is Swipe ==> s.contains(
                MarkView::Track { bind: i, label: short(b.key, windows) },
            )
            &&& 0 <= k < s.len() && (s[k] is Key && s[k]->Key_bind == i) ==> keys && (
            b.action is Tap || b.action is Hold)
            &&& 0 <= k < s.len() && (s[k] is Track && s[k]->Track_bind == i) ==> keys
                && b.action is Swipe
        }),
{
    let th = p.look.preset.theme_spec();
    let s = all_marks(p, e, filter, windows);
    let keys = bind_marks(th, p.binds, e.resizing, windows, p.binds.len());
    bind_marks_each(th, p.binds, e.resizing, windows, p.binds.len(), i);
    let resized = e.resizing is Some && e.resizing->0 == i;
    let m = bind_mark(th, p.binds[i], i, resized, windows);
    if filter.shows_keys() && m is Some {
        let at = keys.index_of(m->0);
        assert(s[at] == m->0);
    }
    let sticks = wheel_marks(th, p.wheels, filter, windows, p.wheels.len());
    if 0 <= k < s.len() && (s[k] is Key || s[k] is Track) {
        let before = s.len() - sticks.len();
        if k >= before {
            assert(s[k] == sticks[k - before]);
            if p.wheels.len() > 0 {
                wheel_marks_each(th, p.wheels, filter, windows, p.wheels.len(), 0);
            }
            assert(false);
        }
        if filter.shows_keys() && k < keys.len() {
            assert(s[k] == keys[k]);
        }
    }
}

/// Every wheel that is asked for is drawn once: all of them with everything or with the wheels,
/// the permanent and the temporary ones each alone on request. Permanent wheels have one colour
/// and temporary ones the other, ring and name alike.
#[verifier::spinoff_prover]
pub proof fn every_wheel_is_drawn<C>(
    p: ProfileView<C>,
    e: Editor<C>,
    filter: OverlayFilter,
    windows: bool,
    j: int,
    k: int,
)
    requires
        0 <= j < p.wheels.len(),
    ensures
        ({
            let s = all_marks(p, e, filter, windows);
            let th = p.look.preset.theme_spec();
            let temporary = p.wheels[j].temp is Some;
            let asked = filter == OverlayFilter::All || filter == OverlayFilter::Wheels || filter
                == OverlayFilter::PermWheels && !temporary || filter == OverlayFilter::TempWheels
                && temporary;
            let colour = if temporary {
                th.wheel_temp
            } else {
                th.wheel_perm
            };
            &&& asked ==> exists|at: int|
                0 <= at < s.len() && (#[trigger] s[at]) is Stick && s[at]->wheel == j
            &&& 0 <= k < s.len() && s[k] is Stick && s[k]->wheel == j ==> asked
                && s[k]->temporary == temporary && s[k]->Stick_ring == colour && s[k]->ink == colour
        }),
{
    let th = p.look.preset.theme_spec();
    let s = all_marks(p, e, filter, windows);
    let sticks = wheel_marks(th, p.wheels, filter, windows, p.wheels.len());
    let m = wheel_mark(th, p.wheels[j], j, windows);
    wheel_marks_each(th, p.wheels, filter, windows, p.wheels.len(), j);
    let before = s.len() - sticks.len();
    if filter.shows_wheel(p.wheels[j].temp is Some) {
        let at = sticks.index_of(m);
        assert(s[before + at] == m);
    }
    if 0 <= k < s.len() && s[k] is Stick {
        if k < before {
            let keys = bind_marks(th, p.binds, e.resizing, windows, p.binds.len());
            if filter.shows_keys() && k < keys.len() {
                assert(s[k] == keys[k]);
                if p.binds.len() > 0 {
                    bind_marks_each(th, p.binds, e.resizing, windows, p.binds.len(), 0);
                }
            }
            assert(false);
        }
        assert(s[k] == sticks[k - before]);
    }
}

/// The anchor of mouse look is drawn exactly when there is one and it is asked for, with
/// everything or alone; in threshold mode with the distance at which the finger returns, a pixel
/// at least.
#[verifier::spinoff_prover]
pub proof fn the_anchor_is_drawn<C>(
    p: ProfileView<C>,
    e: Editor<C>,
    filter: OverlayFilter,
    windows: bool,
    k: int,
)
    ensures
        ({
            let s = all_marks(p, e, filter, windows);
            let asked = filter == OverlayFilter::All || filter == OverlayFilter::Aim;
            let m = anchor_mark(p.aim, windows);
            &&& asked && p.aim.anchor is Some ==> s.contains(m)
            &&& 0 <= k < s.len() && s[k] is Anchor ==> asked && p.aim.anchor is Some && s[k] == m
            &&& m is Anchor
            &&& m->threshold is Some <==> p.aim.recenter == RecenterMode::Threshold
            &&& m->threshold is Some ==> m->threshold->0 >= 1 && (p.aim.recenter_threshold >= 1
                ==> m->threshold->0 == p.aim.recenter_threshold)
        }),
{
    let th = p.look.preset.theme_spec();
    let s = all_marks(p, e, filter, windows);
    let sticks = wheel_marks(th, p.wheels, filter, windows, p.wheels.len());
    let before = s.len() - sticks.len();
    if filter.shows_aim() && p.aim.anchor is Some {
        assert(s[before - 1] == anchor_mark(p.aim, windows));
    }
    if 0 <= k < s.len() && s[k] is Anchor {
        if k >= before {
            assert(s[k] == sticks[k - before]);
            if p.wheels.len() > 0 {
                wheel_marks_each(th, p.wheels, filter, windows, p.wheels.len(), 0);
            }
            assert(false);
        }
        let keys = bind_marks(th, p.binds, e.resizing, windows, p.binds.len());
        if filter.shows_keys() && k < keys.len() {
            assert(s[k] == keys[k]);
            if p.binds.len() > 0 {
                bind_marks_each(th, p.binds, e.resizing, windows, p.binds.len(), 0);
            }
        }
    }
}

/// The draft is drawn exactly while there is one, open or waiting for its key, and the keys are
/// asked for: as a track if it is a swipe, as a ring otherwise.
#[verifier::spinoff_prover]
pub proof fn the_draft_is_drawn<C>(
    p: ProfileView<C>,
    e: Editor<C>,
    filter: OverlayFilter,
    windows: bool,
    k: int,
)
    ensures
        ({
            let s = all_marks(p, e, filter, windows);
            let asked = filter == OverlayFilter::All || filter == OverlayFilter::Keys;
            let open = e.draft_active || e.waiting_key == Some(KeySlot::NewBind);
            &&& asked && open ==> s.contains(
                if e.draft.kind == DraftKind::Swipe {
                    MarkView::DraftTrack
                } else {
                    MarkView::DraftRing
                },
            )
            &&& 0 <= k < s.len() && s[k] is DraftTrack ==> asked && open && e.draft.kind
                == DraftKind::Swipe
            &&& 0 <= k < s.len() && s[k] is DraftRing ==> asked && open && e.draft.kind
                != DraftKind::Swipe
        }),
{
    let th = p.look.preset.theme_spec();
    let s = all_marks(p, e, filter, windows);
    let sticks = wheel_marks(th, p.wheels, filter, windows, p.wheels.len());
    let before = s.len() - sticks.len();
    let keys = bind_marks(th, p.binds, e.resizing, windows, p.binds.len());
    if filter.shows_keys() && draft_mark(e) is Some {
        assert(s[keys.len() as int] == draft_mark(e)->0);
    }
    if 0 <= k < s.len() && (s[k] is DraftTrack || s[k] is DraftRing) {
        if k >= before {
            assert(s[k] == sticks[k - before]);
            if p.wheels.len() > 0 {
                wheel_marks_each(th, p.wheels, filter, windows, p.wheels.len(), 0);
            }
            assert(false);
        }
        if filter.shows_keys() && k < keys.len() {
            assert(s[k] == keys[k]);
            if p.binds.len() > 0 {
                bind_marks_each(th, p.binds, e.resizing, windows, p.binds.len(), 0);
            }
        }
    }
}

} // verus!
