//! Editing a profile: which key or place is being asked for, the draft of a new binding, and
//! what the answers change.
//!
//! Waiting for a key, picking a place on the screenshot and resizing a key's range exclude one
//! another: whatever was begun last is what goes on.

use vstd::prelude::*;
use crate::keymap::{
    self, Action, Aim, Easing, KeyBind, Profile, ProfileView, Swipe, SwipePath, TempMode,
    TempWheel, Wheel,
};

verus! {

/// What the next key pressed is for.
#[derive(Debug, Clone, Copy, PartialEq, Eq, Structural)]
pub enum KeySlot {
    /// The binding being drafted.
    NewBind,
    Bind(usize),
    /// A direction of a wheel: 0 up, 1 down, 2 left, 3 right.
    WheelDir { wheel: usize, dir: usize },
    /// The key that switches a temporary wheel on.
    WheelEnable(usize),
    /// The key that switches mapping on and off.
    Toggle,
    /// The button that must be held to aim.
    AimHold,
}

/// What the next place picked is for.
#[derive(Debug, Clone, Copy, PartialEq, Eq, Structural)]
pub enum CoordSlot {
    NewBind,
    Bind(usize),
    WheelCenter(usize),
    SwipeStart(usize),
    SwipeEnd(usize),
    NewSwipeStart,
    NewSwipeEnd,
    /// Where on its circle a swipe sets out.
    CircleAngle(usize),
    NewCircleAngle,
    AimAnchor,
}

/// Whose curve is being edited.
#[derive(Debug, Clone, Copy, PartialEq, Eq, Structural)]
pub enum EasingEditTarget {
    Bind(usize),
    New,
}

/// What a drafted binding will do.
#[derive(Debug, Clone, Copy, PartialEq, Eq, Structural)]
pub enum DraftKind {
    Tap,
    Hold,
    Swipe,
    Key,
}

impl DraftKind {
    pub fn label(self) -> (r: &'static str)
        ensures
            r@ == match self {
                DraftKind::Tap => "点按"@,
                DraftKind::Hold => "长按"@,
                DraftKind::Swipe => "滑动"@,
                DraftKind::Key => "系统键"@,
            },
    {
        match self {
            DraftKind::Tap => "点按",
            DraftKind::Hold => "长按",
            DraftKind::Swipe => "滑动",
            DraftKind::Key => "系统键",
        }
    }
}

/// A binding that is not in the profile yet. Its places are pixels.
#[derive(Debug, PartialEq)]
pub struct DraftBind<C> {
    pub key: Option<u16>,
    pub kind: DraftKind,
    pub x: i32,
    pub y: i32,
    /// In pixels.
    pub radius: C,
    pub tap_duration_ms: u32,
    pub swipe_start: (i32, i32),
    pub swipe_end: (i32, i32),
    pub swipe_duration_ms: u32,
    pub swipe_easing: Easing<C>,
    pub swipe_path: SwipePath<C>,
    pub keycode: u32,
}

impl<C: Copy> Clone for DraftBind<C> {
    fn clone(&self) -> (r: Self)
        ensures
            r == *self,
    {
        *self
    }
}

impl<C: Copy> Copy for DraftBind<C> {

}

/// The draft to begin with.
pub open spec fn fresh_draft<C>(radius: C) -> DraftBind<C> {
    DraftBind {
        key: None,
        kind: DraftKind::Tap,
        x: 540,
        y: 1200,
        radius,
        tap_duration_ms: keymap::DEFAULT_TAP_DURATION_MS,
        swipe_start: (540, 1800),
        swipe_end: (540, 600),
        swipe_duration_ms: 300,
        swipe_easing: Easing::Linear,
        swipe_path: SwipePath::Line,
        keycode: 4,
    }
}

impl<C: Copy> DraftBind<C> {
    pub fn standard(radius: C) -> (d: Self)
        ensures
            d == fresh_draft(radius),
    {
        DraftBind {
            key: None,
            kind: DraftKind::Tap,
            x: 540,
            y: 1200,
            radius,
            tap_duration_ms: keymap::DEFAULT_TAP_DURATION_MS,
            swipe_start: (540, 1800),
            swipe_end: (540, 600),
            swipe_duration_ms: 300,
            swipe_easing: Easing::Linear,
            swipe_path: SwipePath::Line,
            keycode: 4,
        }
    }
}

/// The numbers of a draft as a profile stores them.
#[derive(Debug, PartialEq)]
pub struct DraftRel<C> {
    pub at: (C, C),
    pub radius: C,
    pub start: (C, C),
    pub end: (C, C),
}

impl<C: Copy> Clone for DraftRel<C> {
    fn clone(&self) -> (r: Self)
        ensures
            r == *self,
    {
        *self
    }
}

impl<C: Copy> Copy for DraftRel<C> {

}

/// The two places that fix a circle: as stored, or in pixels for a draft.
#[derive(Debug, PartialEq)]
pub enum Ends<C> {
    Stored((C, C), (C, C)),
    Pixels((i32, i32), (i32, i32)),
}

/// What goes on in the editor.
#[derive(Debug, PartialEq)]
pub struct Editor<C> {
    pub waiting_key: Option<KeySlot>,
    pub picking: Option<CoordSlot>,
    /// The binding whose range is being changed.
    pub resizing: Option<usize>,
    pub easing_edit: Option<EasingEditTarget>,
    /// Whether a new binding is being drafted.
    pub draft_active: bool,
    pub draft: DraftBind<C>,
}

pub open spec fn draft_slot(slot: CoordSlot) -> bool {
    slot == CoordSlot::NewBind || slot == CoordSlot::NewSwipeStart || slot
        == CoordSlot::NewSwipeEnd || slot == CoordSlot::NewCircleAngle
}

/// Whether a place is asked for on behalf of the draft.
pub fn is_draft_slot(slot: CoordSlot) -> (r: bool)
    ensures
        r == draft_slot(slot),
{
    slot == CoordSlot::NewBind || slot == CoordSlot::NewSwipeStart || slot
        == CoordSlot::NewSwipeEnd || slot == CoordSlot::NewCircleAngle
}

/// A list with one entry replaced, if it is there.
pub open spec fn put<T>(s: Seq<T>, i: int, v: T) -> Seq<T> {
    if 0 <= i < s.len() {
        s.update(i, v)
    } else {
        s
    }
}

/// A profile with the action of one binding replaced.
pub open spec fn with_action<C>(p: ProfileView<C>, i: int, a: Action<C>) -> ProfileView<C> {
    ProfileView {
        binds: put(p.binds, i, KeyBind { key: p.binds[i].key, action: a }),
        ..p
    }
}

/// A profile with one wheel replaced.
pub open spec fn with_wheel<C>(p: ProfileView<C>, i: int, w: Wheel<C>) -> ProfileView<C> {
    ProfileView { wheels: put(p.wheels, i, w), ..p }
}

/// A wheel that a key switches on: in the way it was switched on before, else while held.
pub open spec fn switched_by<C>(w: Wheel<C>, code: u16) -> Wheel<C> {
    Wheel {
        temp: Some(
            TempWheel {
                key: code,
                mode: match w.temp {
                    Some(t) => t.mode,
                    None => TempMode::Hold,
                },
            },
        ),
        ..w
    }
}

/// A wheel with another key for one direction.
pub open spec fn steered_by<C>(w: Wheel<C>, dir: usize, code: u16) -> Wheel<C> {
    if dir == 0 {
        Wheel { up: code, ..w }
    } else if dir == 1 {
        Wheel { down: code, ..w }
    } else if dir == 2 {
        Wheel { left: code, ..w }
    } else {
        Wheel { right: code, ..w }
    }
}

/// The profile after a key was given for a slot.
pub open spec fn key_assigned<C>(p: ProfileView<C>, slot: KeySlot, code: u16) -> ProfileView<C> {
    match slot {
        KeySlot::NewBind => p,
        KeySlot::Bind(i) => ProfileView {
            binds: put(p.binds, i as int, KeyBind { key: code, action: p.binds[i as int].action }),
            ..p
        },
        KeySlot::WheelDir { wheel, dir } => with_wheel(
            p,
            wheel as int,
            steered_by(p.wheels[wheel as int], dir, code),
        ),
        KeySlot::WheelEnable(i) => with_wheel(p, i as int, switched_by(p.wheels[i as int], code)),
        KeySlot::Toggle => ProfileView { toggle_key: code, ..p },
        KeySlot::AimHold => ProfileView { aim: Aim { hold_key: code, ..p.aim }, ..p },
    }
}

/// A path setting out at another angle, if it is a circle.
pub open spec fn turned<C>(path: SwipePath<C>, angle: C) -> SwipePath<C> {
    match path {
        SwipePath::Circle { as_diameter, .. } => SwipePath::Circle {
            as_diameter,
            start_angle: angle,
        },
        _ => path,
    }
}

/// An action moved to another place, if it has one place.
pub open spec fn moved_to<C>(a: Action<C>, at: (C, C)) -> Action<C> {
    match a {
        Action::Tap { duration_ms, radius, .. } => Action::Tap {
            x: at.0,
            y: at.1,
            duration_ms,
            radius,
        },
        Action::Hold { radius, .. } => Action::Hold { x: at.0, y: at.1, radius },
        _ => a,
    }
}

/// The profile after a place was given for a slot: `rel` as a profile stores it, `anchor` the
/// same as an anchor (which a place next to the origin is not), `angle` as seen from the centre
/// of the circle concerned.
pub open spec fn coord_assigned<C>(
    p: ProfileView<C>,
    slot: CoordSlot,
    rel: (C, C),
    anchor: Option<(C, C)>,
    angle: C,
) -> ProfileView<C> {
    match slot {
        CoordSlot::Bind(i) => with_action(
            p,
            i as int,
            moved_to(p.binds[i as int].action, rel),
        ),
        CoordSlot::WheelCenter(i) => with_wheel(
            p,
            i as int,
            Wheel { cx: rel.0, cy: rel.1, ..p.wheels[i as int] },
        ),
        CoordSlot::SwipeStart(i) => match p.binds[i as int].action {
            Action::Swipe(s) => with_action(
                p,
                i as int,
                Action::Swipe(Swipe { start: rel, ..s }),
            ),
            _ => p,
        },
        CoordSlot::SwipeEnd(i) => match p.binds[i as int].action {
            Action::Swipe(s) => with_action(p, i as int, Action::Swipe(Swipe { end: rel, ..s })),
            _ => p,
        },
        CoordSlot::CircleAngle(i) => match p.binds[i as int].action {
            Action::Swipe(s) => with_action(
                p,
                i as int,
                Action::Swipe(Swipe { path: turned(s.path, angle), ..s }),
            ),
            _ => p,
        },
        CoordSlot::AimAnchor => ProfileView { aim: Aim { anchor, ..p.aim }, ..p },
        CoordSlot::NewBind
        | CoordSlot::NewSwipeStart
        | CoordSlot::NewSwipeEnd
        | CoordSlot::NewCircleAngle => p,
    }
}

/// The draft after a place was given for a slot, in pixels.
pub open spec fn draft_assigned<C>(
    d: DraftBind<C>,
    slot: CoordSlot,
    at: (i32, i32),
    angle: C,
) -> DraftBind<C> {
    match slot {
        CoordSlot::NewBind => DraftBind { x: at.0, y: at.1, ..d },
        CoordSlot::NewSwipeStart => DraftBind { swipe_start: at, ..d },
        CoordSlot::NewSwipeEnd => DraftBind { swipe_end: at, ..d },
        CoordSlot::NewCircleAngle => DraftBind { swipe_path: turned(d.swipe_path, angle), ..d },
        _ => d,
    }
}

/// The circle that a slot's angle is measured on: whether its places are the ends of a
/// diameter, and the places. None where there is no circle.
pub open spec fn circle_for<C>(d: DraftBind<C>, p: ProfileView<C>, slot: CoordSlot) -> Option<
    (bool, Ends<C>),
> {
    match slot {
        CoordSlot::CircleAngle(i) => if i < p.binds.len() {
            match p.binds[i as int].action {
                Action::Swipe(s) => match s.path {
                    SwipePath::Circle { as_diameter, .. } => Some(
                        (as_diameter, Ends::Stored(s.start, s.end)),
                    ),
                    _ => None,
                },
                _ => None,
            }
        } else {
            None
        },
        CoordSlot::NewCircleAngle => match d.swipe_path {
            SwipePath::Circle { as_diameter, .. } => Some(
                (as_diameter, Ends::Pixels(d.swipe_start, d.swipe_end)),
            ),
            _ => None,
        },
        _ => None,
    }
}

/// The action that a draft becomes.
pub open spec fn drafted<C>(d: DraftBind<C>, rel: DraftRel<C>) -> Action<C> {
    match d.kind {
        DraftKind::Tap => Action::Tap {
            x: rel.at.0,
            y: rel.at.1,
            duration_ms: d.tap_duration_ms,
            radius: rel.radius,
        },
        DraftKind::Hold => Action::Hold { x: rel.at.0, y: rel.at.1, radius: rel.radius },
        DraftKind::Swipe => Action::Swipe(
            Swipe {
                start: rel.start,
                end: rel.end,
                duration_ms: d.swipe_duration_ms,
                easing: d.swipe_easing,
                path: d.swipe_path,
            },
        ),
        DraftKind::Key => Action::AndroidKey { keycode: d.keycode },
    }
}

/// Whether a place is asked for on behalf of a binding.
pub open spec fn picks_for(slot: CoordSlot, i: usize) -> bool {
    slot == CoordSlot::Bind(i) || slot == CoordSlot::SwipeStart(i) || slot
        == CoordSlot::SwipeEnd(i) || slot == CoordSlot::CircleAngle(i)
}

/// What a click on the screenshot did.
#[derive(Debug, Clone, Copy, PartialEq, Eq, Structural)]
pub enum Clicked {
    /// Nothing was being picked: the place is only shown.
    Shown,
    /// The place was taken.
    Taken,
    /// The place was taken for a new binding, whose key is asked for next.
    TakenNeedsKey,
}

/// What the editor asks the user to do.
#[derive(Debug, Clone, Copy, PartialEq, Eq, Structural)]
pub enum Prompt {
    /// Click a place, for the draft or else.
    Pick { draft: bool },
    /// Press the key of the draft.
    PressKey,
    /// Finish the draft.
    FinishDraft,
    /// Change the range of a binding.
    Resize(usize),
    /// Nothing goes on.
    Idle,
}

impl Prompt {
    /// The line shown for it; the range in pixels follows for [`Prompt::Resize`].
    pub fn label(self) -> (r: &'static str)
        ensures
            r@ == match self {
                Prompt::Pick { draft } => if draft {
                    "取点中(新增): 请点击截图上的目标位置"@
                } else {
                    "取点中: 请点击截图上的目标位置"@
                },
                Prompt::PressKey => "已取点: 请按下要绑定的按键"@,
                Prompt::FinishDraft => "新增未完成(尚未[添加])"@,
                Prompt::Resize(_) => "响应范围修改中: Ctrl++ / Ctrl+- 缩放,或在截图上拖动"@,
                Prompt::Idle => "先点某条映射的[取点],再点击截图上的位置"@,
            },
    {
        match self {
            Prompt::Pick { draft } => if draft {
                "取点中(新增): 请点击截图上的目标位置"
            } else {
                "取点中: 请点击截图上的目标位置"
            },
            Prompt::PressKey => "已取点: 请按下要绑定的按键",
            Prompt::FinishDraft => "新增未完成(尚未[添加])",
            Prompt::Resize(_) => "响应范围修改中: Ctrl++ / Ctrl+- 缩放,或在截图上拖动",
            Prompt::Idle => "先点某条映射的[取点],再点击截图上的位置",
        }
    }
}

impl<C: Copy> Editor<C> {
    /// At most one of waiting for a key, picking and resizing goes on.
    pub open spec fn wf(self) -> bool {
        &&& !(self.waiting_key is Some && self.picking is Some)
        &&& !(self.waiting_key is Some && self.resizing is Some)
        &&& !(self.picking is Some && self.resizing is Some)
    }

    pub fn new(radius: C) -> (e: Self)
        ensures
            e == (Editor {
                waiting_key: None,
                picking: None,
                resizing: None,
                easing_edit: None,
                draft_active: false,
                draft: fresh_draft(radius),
            }),
            e.wf(),
    {
        Editor {
            waiting_key: None,
            picking: None,
            resizing: None,
            easing_edit: None,
            draft_active: false,
            draft: DraftBind::standard(radius),
        }
    }

    /// Waits for a key. For a new binding this opens the draft.
    pub fn begin_key(&mut self, slot: KeySlot)
        ensures
            *final(self) == (Editor {
                waiting_key: Some(slot),
                picking: None,
                resizing: None,
                draft_active: old(self).draft_active || slot == KeySlot::NewBind,
                ..*old(self)
            }),
            final(self).wf(),
    {
        self.resizing = None;
        self.picking = None;
        self.waiting_key = Some(slot);
        if slot == KeySlot::NewBind {
            self.draft_active = true;
        }
    }

    /// Waits for a place. For the draft this opens it.
    pub fn begin_pick(&mut self, slot: CoordSlot)
        ensures
            *final(self) == (Editor {
                waiting_key: None,
                picking: Some(slot),
                resizing: None,
                draft_active: old(self).draft_active || draft_slot(slot),
                ..*old(self)
            }),
            final(self).wf(),
    {
        self.resizing = None;
        self.waiting_key = None;
        self.picking = Some(slot);
        if is_draft_slot(slot) {
            self.draft_active = true;
        }
    }

    /// Lets the range of a binding be changed.
    pub fn begin_resize(&mut self, i: usize)
        ensures
            *final(self) == (Editor {
                waiting_key: None,
                picking: None,
                resizing: Some(i),
                ..*old(self)
            }),
            final(self).wf(),
    {
        self.picking = None;
        self.waiting_key = None;
        self.resizing = Some(i);
    }

    /// Ends changing a range.
    pub fn end_resize(&mut self)
        ensures
            *final(self) == (Editor { resizing: None, ..*old(self) }),
            old(self).wf() ==> final(self).wf(),
    {
        self.resizing = None;
    }

    /// Gives the draft up.
    pub fn cancel_draft(&mut self)
        ensures
            *final(self) == (Editor {
                picking: None,
                waiting_key: if old(self).waiting_key == Some(KeySlot::NewBind) {
                    None
                } else {
                    old(self).waiting_key
                },
                draft: DraftBind { key: None, ..old(self).draft },
                draft_active: false,
                ..*old(self)
            }),
            old(self).wf() ==> final(self).wf(),
    {
        self.picking = None;
        if let Some(slot) = self.waiting_key {
            if slot == KeySlot::NewBind {
                self.waiting_key = None;
            }
        }
        self.draft.key = None;
        self.draft_active = false;
    }

    /// Stops picking; picking for the draft gives the whole draft up.
    pub fn cancel_pick(&mut self)
        ensures
            old(self).picking is Some && draft_slot(old(self).picking->0) ==> *final(self) == (
            Editor {
                picking: None,
                waiting_key: if old(self).waiting_key == Some(KeySlot::NewBind) {
                    None
                } else {
                    old(self).waiting_key
                },
                draft: DraftBind { key: None, ..old(self).draft },
                draft_active: false,
                ..*old(self)
            }),
            !(old(self).picking is Some && draft_slot(old(self).picking->0)) ==> *final(self) == (
            Editor { picking: None, ..*old(self) }),
            old(self).wf() ==> final(self).wf(),
    {
        if let Some(slot) = self.picking {
            if is_draft_slot(slot) {
                self.cancel_draft();
                return;
            }
        }
        self.picking = None;
    }

    /// What the user is asked to do.
    pub open spec fn prompt_spec(self) -> Prompt {
        if self.picking is Some {
            Prompt::Pick { draft: draft_slot(self.picking->0) }
        } else if self.waiting_key == Some(KeySlot::NewBind) {
            Prompt::PressKey
        } else if self.draft_active {
            Prompt::FinishDraft
        } else if self.resizing is Some {
            Prompt::Resize(self.resizing->0)
        } else {
            Prompt::Idle
        }
    }

    pub fn prompt(&self) -> (r: Prompt)
        ensures
            r == self.prompt_spec(),
    {
        if let Some(slot) = self.picking {
            return Prompt::Pick { draft: is_draft_slot(slot) };
        }
        if self.waits_for(KeySlot::NewBind) {
            return Prompt::PressKey;
        }
        if self.draft_active {
            return Prompt::FinishDraft;
        }
        match self.resizing {
            Some(i) => Prompt::Resize(i),
            None => Prompt::Idle,
        }
    }

    /// Whether a key is awaited for a slot.
    pub fn waits_for(&self, slot: KeySlot) -> (r: bool)
        ensures
            r == (self.waiting_key == Some(slot)),
    {
        match self.waiting_key {
            Some(s) => s == slot,
            None => false,
        }
    }

    /// Whether a place is picked for a slot.
    pub fn picks(&self, slot: CoordSlot) -> (r: bool)
        ensures
            r == (self.picking == Some(slot)),
    {
        match self.picking {
            Some(s) => s == slot,
            None => false,
        }
    }

    /// Gives a key to a slot. A slot that is not there any more takes nothing.
    pub fn assign_key(&mut self, profile: &mut Profile<C>, slot: KeySlot, code: u16)
        ensures
            final(profile)@ == key_assigned(old(profile)@, slot, code),
            *final(self) == (Editor {
                draft: DraftBind {
                    key: if slot == KeySlot::NewBind {
                        Some(code)
                    } else {
                        old(self).draft.key
                    },
                    ..old(self).draft
                },
                ..*old(self)
            }),
    {
        match slot {
            KeySlot::NewBind => {
                self.draft.key = Some(code);
            },
            KeySlot::Bind(i) => {
                if i < profile.binds.len() {
                    let action = profile.binds[i].action;
                    profile.binds[i] = KeyBind { key: code, action };
                }
            },
            KeySlot::WheelDir { wheel, dir } => {
                if wheel < profile.wheels.len() {
                    let mut w = profile.wheels[wheel];
                    if dir == 0 {
                        w.up = code;
                    } else if dir == 1 {
                        w.down = code;
                    } else if dir == 2 {
                        w.left = code;
                    } else {
                        w.right = code;
                    }
                    profile.wheels[wheel] = w;
                }
            },
            KeySlot::WheelEnable(i) => {
                if i < profile.wheels.len() {
                    let mut w = profile.wheels[i];
                    let mode = match w.temp {
                        Some(t) => t.mode,
                        None => TempMode::Hold,
                    };
                    w.temp = Some(TempWheel { key: code, mode });
                    profile.wheels[i] = w;
                }
            },
            KeySlot::Toggle => {
                profile.toggle_key = code;
            },
            KeySlot::AimHold => {
                profile.aim.hold_key = code;
            },
        }
    }

    /// Takes a key that was pressed, if one is awaited; true when it was. A key is taken once.
    pub fn take_key(&mut self, profile: &mut Profile<C>, code: u16) -> (taken: bool)
        ensures
            taken == (old(self).waiting_key is Some),
            !taken ==> *final(self) == *old(self) && *final(profile) == *old(profile),
            taken ==> final(profile)@ == key_assigned(
                old(profile)@,
                old(self).waiting_key->0,
                code,
            ) && *final(self) == (Editor {
                waiting_key: None,
                draft: DraftBind {
                    key: if old(self).waiting_key->0 == KeySlot::NewBind {
                        Some(code)
                    } else {
                        old(self).draft.key
                    },
                    ..old(self).draft
                },
                ..*old(self)
            }),
            old(self).wf() ==> final(self).wf(),
    {
        match self.waiting_key {
            None => false,
            Some(slot) => {
                self.waiting_key = None;
                self.assign_key(profile, slot, code);
                true
            },
        }
    }

    /// The circle that the angle for a slot is measured on.
    pub fn circle_of(&self, profile: &Profile<C>, slot: CoordSlot) -> (r: Option<(bool, Ends<C>)>)
        ensures
            r == circle_for(self.draft, profile@, slot),
    {
        match slot {
            CoordSlot::CircleAngle(i) => {
                if i < profile.binds.len() {
                    if let Action::Swipe(s) = profile.binds[i].action {
                        if let SwipePath::Circle { as_diameter, .. } = s.path {
                            return Some((as_diameter, Ends::Stored(s.start, s.end)));
                        }
                    }
                }
                None
            },
            CoordSlot::NewCircleAngle => {
                if let SwipePath::Circle { as_diameter, .. } = self.draft.swipe_path {
                    return Some(
                        (as_diameter, Ends::Pixels(self.draft.swipe_start, self.draft.swipe_end)),
                    );
                }
                None
            },
            _ => None,
        }
    }

    /// Gives a place to a slot: `at` in pixels, `rel` as a profile stores it, `anchor` the same
    /// as an anchor (none where the place is next to the origin), `angle` as seen from the
    /// centre of [`Editor::circle_of`] the slot. A slot that is not there any more takes
    /// nothing.
    pub fn assign_coord(
        &mut self,
        profile: &mut Profile<C>,
        slot: CoordSlot,
        at: (i32, i32),
        rel: (C, C),
        anchor: Option<(C, C)>,
        angle: C,
    )
        ensures
            final(profile)@ == coord_assigned(old(profile)@, slot, rel, anchor, angle),
            *final(self) == (Editor {
                draft: draft_assigned(old(self).draft, slot, at, angle),
                ..*old(self)
            }),
    {
        match slot {
            CoordSlot::NewBind => {
                self.draft.x = at.0;
                self.draft.y = at.1;
            },
            CoordSlot::Bind(i) => {
                if i < profile.binds.len() {
                    let b = profile.binds[i];
                    let action = match b.action {
                        Action::Tap { duration_ms, radius, .. } => Action::Tap {
                            x: rel.0,
                            y: rel.1,
                            duration_ms,
                            radius,
                        },
                        Action::Hold { radius, .. } => Action::Hold { x: rel.0, y: rel.1, radius },
                        other => other,
                    };
                    profile.binds[i] = KeyBind { key: b.key, action };
                }
            },
            CoordSlot::WheelCenter(i) => {
                if i < profile.wheels.len() {
                    let mut w = profile.wheels[i];
                    w.cx = rel.0;
                    w.cy = rel.1;
                    profile.wheels[i] = w;
                }
            },
            CoordSlot::SwipeStart(i) => {
                if i < profile.binds.len() {
                    let b = profile.binds[i];
                    if let Action::Swipe(mut s) = b.action {
                        s.start = rel;
                        profile.binds[i] = KeyBind { key: b.key, action: Action::Swipe(s) };
                    }
                }
            },
            CoordSlot::SwipeEnd(i) => {
                if i < profile.binds.len() {
                    let b = profile.binds[i];
                    if let Action::Swipe(mut s) = b.action {
                        s.end = rel;
                        profile.binds[i] = KeyBind { key: b.key, action: Action::Swipe(s) };
                    }
                }
            },
            CoordSlot::NewSwipeStart => {
                self.draft.swipe_start = at;
            },
            CoordSlot::NewSwipeEnd => {
                self.draft.swipe_end = at;
            },
            CoordSlot::CircleAngle(i) => {
                if i < profile.binds.len() {
                    let b = profile.binds[i];
                    if let Action::Swipe(mut s) = b.action {
                        s.path = with_angle(s.path, angle);
                        profile.binds[i] = KeyBind { key: b.key, action: Action::Swipe(s) };
                    }
                }
            },
            CoordSlot::NewCircleAngle => {
                self.draft.swipe_path = with_angle(self.draft.swipe_path, angle);
            },
            CoordSlot::AimAnchor => {
                profile.aim.anchor = anchor;
            },
        }
    }
}

fn with_angle<C: Copy>(path: SwipePath<C>, angle: C) -> (r: SwipePath<C>)
    ensures
        r == turned(path, angle),
{
    match path {
        SwipePath::Circle { as_diameter, .. } => SwipePath::Circle {
            as_diameter,
            start_angle: angle,
        },
        other => other,
    }
}

impl<C: Copy> Editor<C> {
    /// A click on the screenshot. If a place is being picked it is taken; a new binding
    /// without a key asks for its key next.
    pub fn click(
        &mut self,
        profile: &mut Profile<C>,
        at: (i32, i32),
        rel: (C, C),
        anchor: Option<(C, C)>,
        angle: C,
    ) -> (r: Clicked)
        ensures
            match old(self).picking {
                None => r == Clicked::Shown && *final(self) == *old(self) && *final(profile)
                    == *old(profile),
                Some(slot) => {
                    let asks = slot == CoordSlot::NewBind && old(self).draft.key is None;
                    &&& final(profile)@ == coord_assigned(old(profile)@, slot, rel, anchor, angle)
                    &&& *final(self) == (Editor {
                        picking: None,
                        waiting_key: if asks {
                            Some(KeySlot::NewBind)
                        } else {
                            old(self).waiting_key
                        },
                        draft: draft_assigned(old(self).draft, slot, at, angle),
                        ..*old(self)
                    })
                    &&& r == (if asks {
                        Clicked::TakenNeedsKey
                    } else {
                        Clicked::Taken
                    })
                },
            },
            old(self).wf() ==> final(self).wf(),
    {
        match self.picking {
            None => Clicked::Shown,
            Some(slot) => {
                self.picking = None;
                self.assign_coord(profile, slot, at, rel, anchor, angle);
                if slot == CoordSlot::NewBind && self.draft.key.is_none() {
                    self.waiting_key = Some(KeySlot::NewBind);
                    Clicked::TakenNeedsKey
                } else {
                    Clicked::Taken
                }
            },
        }
    }

    /// Puts the draft into the profile, given its numbers as a profile stores them; false when
    /// it has no key yet. With that the draft is over, and so is everything else begun.
    pub fn add_bind(&mut self, profile: &mut Profile<C>, rel: DraftRel<C>) -> (added: bool)
        ensures
            added == (old(self).draft.key is Some),
            !added ==> *final(self) == *old(self) && *final(profile) == *old(profile),
            added ==> final(profile)@ == (ProfileView {
                binds: old(profile)@.binds.push(
                    KeyBind { key: old(self).draft.key->0, action: drafted(old(self).draft, rel) },
                ),
                ..old(profile)@
            }) && *final(self) == (Editor {
                waiting_key: if old(self).waiting_key == Some(KeySlot::NewBind) {
                    None
                } else {
                    old(self).waiting_key
                },
                picking: None,
                resizing: None,
                draft_active: false,
                draft: DraftBind { key: None, ..old(self).draft },
                ..*old(self)
            }),
            old(self).wf() ==> final(self).wf(),
    {
        match self.draft.key {
            None => false,
            Some(key) => {
                let action = match self.draft.kind {
                    DraftKind::Tap => Action::Tap {
                        x: rel.at.0,
                        y: rel.at.1,
                        duration_ms: self.draft.tap_duration_ms,
                        radius: rel.radius,
                    },
                    DraftKind::Hold => Action::Hold {
                        x: rel.at.0,
                        y: rel.at.1,
                        radius: rel.radius,
                    },
                    DraftKind::Swipe => Action::Swipe(
                        Swipe {
                            start: rel.start,
                            end: rel.end,
                            duration_ms: self.draft.swipe_duration_ms,
                            easing: self.draft.swipe_easing,
                            path: self.draft.swipe_path,
                        },
                    ),
                    DraftKind::Key => Action::AndroidKey { keycode: self.draft.keycode },
                };
                profile.binds.push(KeyBind { key, action });
                self.draft.key = None;
                self.draft_active = false;
                self.picking = None;
                self.resizing = None;
                if self.waits_for(KeySlot::NewBind) {
                    self.waiting_key = None;
                }
                true
            },
        }
    }

    /// Deletes a binding. Whatever was begun on behalf of it is over.
    pub fn delete_bind(&mut self, profile: &mut Profile<C>, i: usize)
        requires
            i < old(profile).binds@.len(),
        ensures
            final(profile)@ == (ProfileView {
                binds: old(profile)@.binds.remove(i as int),
                ..old(profile)@
            }),
            *final(self) == (Editor {
                waiting_key: if old(self).waiting_key == Some(KeySlot::Bind(i)) {
                    None
                } else {
                    old(self).waiting_key
                },
                picking: if old(self).picking is Some && picks_for(old(self).picking->0, i) {
                    None
                } else {
                    old(self).picking
                },
                resizing: if old(self).resizing == Some(i) {
                    None
                } else {
                    old(self).resizing
                },
                easing_edit: if old(self).easing_edit == Some(EasingEditTarget::Bind(i)) {
                    None
                } else {
                    old(self).easing_edit
                },
                ..*old(self)
            }),
            old(self).wf() ==> final(self).wf(),
    {
        profile.binds.remove(i);
        if self.waits_for(KeySlot::Bind(i)) {
            self.waiting_key = None;
        }
        if let Some(slot) = self.picking {
            if slot == CoordSlot::Bind(i) || slot == CoordSlot::SwipeStart(i) || slot
                == CoordSlot::SwipeEnd(i) || slot == CoordSlot::CircleAngle(i) {
                self.picking = None;
            }
        }
        if let Some(k) = self.resizing {
            if k == i {
                self.resizing = None;
            }
        }
        if let Some(t) = self.easing_edit {
            if t == EasingEditTarget::Bind(i) {
                self.easing_edit = None;
            }
        }
    }

    /// Puts the draft in the middle of a screen, with its swipe from `low` to `high`.
    pub fn reset_draft(&mut self, screen: (u32, u32), radius: C, low: i32, high: i32)
        ensures
            *final(self) == (Editor {
                draft: DraftBind {
                    x: (screen.0 / 2) as i32,
                    y: (screen.1 / 2) as i32,
                    radius,
                    swipe_start: ((screen.0 / 2) as i32, low),
                    swipe_end: ((screen.0 / 2) as i32, high),
                    ..old(self).draft
                },
                ..*old(self)
            }),
    {
        self.draft.x = (screen.0 / 2) as i32;
        self.draft.y = (screen.1 / 2) as i32;
        self.draft.radius = radius;
        self.draft.swipe_start = ((screen.0 / 2) as i32, low);
        self.draft.swipe_end = ((screen.0 / 2) as i32, high);
    }

    /// Chooses what the draft will do; another choice opens the draft.
    pub fn choose_kind(&mut self, kind: DraftKind)
        ensures
            *final(self) == (Editor {
                draft_active: old(self).draft_active || kind != old(self).draft.kind,
                draft: DraftBind { kind, ..old(self).draft },
                ..*old(self)
            }),
    {
        if kind != self.draft.kind {
            self.draft_active = true;
        }
        self.draft.kind = kind;
    }

    /// The curve being edited. Editing ends when there is no swipe to edit any more.
    pub fn edited_easing(&mut self, profile: &Profile<C>) -> (r: Option<Easing<C>>)
        ensures
            r == edited(*old(self), profile@),
            *final(self) == (Editor {
                easing_edit: if r is None {
                    None
                } else {
                    old(self).easing_edit
                },
                ..*old(self)
            }),
    {
        match self.easing_edit {
            None => None,
            Some(EasingEditTarget::New) => Some(self.draft.swipe_easing),
            Some(EasingEditTarget::Bind(i)) => {
                if i < profile.binds.len() {
                    if let Action::Swipe(s) = profile.binds[i].action {
                        return Some(s.easing);
                    }
                }
                self.easing_edit = None;
                None
            },
        }
    }

    /// Writes an edited curve back.
    pub fn store_easing(&mut self, profile: &mut Profile<C>, easing: Easing<C>)
        ensures
            final(profile)@ == (match old(self).easing_edit {
                Some(EasingEditTarget::Bind(i)) => match old(profile)@.binds[i as int].action {
                    Action::Swipe(s) => with_action(
                        old(profile)@,
                        i as int,
                        Action::Swipe(Swipe { easing, ..s }),
                    ),
                    _ => old(profile)@,
                },
                _ => old(profile)@,
            }),
            *final(self) == (Editor {
                draft: DraftBind {
                    swipe_easing: if old(self).easing_edit == Some(EasingEditTarget::New) {
                        easing
                    } else {
                        old(self).draft.swipe_easing
                    },
                    ..old(self).draft
                },
                ..*old(self)
            }),
    {
        match self.easing_edit {
            None => {},
            Some(EasingEditTarget::New) => {
                self.draft.swipe_easing = easing;
            },
            Some(EasingEditTarget::Bind(i)) => {
                if i < profile.binds.len() {
                    let b = profile.binds[i];
                    if let Action::Swipe(mut s) = b.action {
                        s.easing = easing;
                        profile.binds[i] = KeyBind { key: b.key, action: Action::Swipe(s) };
                    }
                }
            },
        }
    }
}

/// The curve being edited, if there is one.
pub open spec fn edited<C>(e: Editor<C>, p: ProfileView<C>) -> Option<Easing<C>> {
    match e.easing_edit {
        None => None,
        Some(EasingEditTarget::New) => Some(e.draft.swipe_easing),
        Some(EasingEditTarget::Bind(i)) => if i < p.binds.len() {
            match p.binds[i as int].action {
                Action::Swipe(s) => Some(s.easing),
                _ => None,
            }
        } else {
            None
        },
    }
}

/// A tap made a hold, a hold made a tap; anything else as it is.
pub open spec fn converted<C>(a: Action<C>) -> Action<C> {
    match a {
        Action::Tap { x, y, radius, .. } => Action::Hold { x, y, radius },
        Action::Hold { x, y, radius } => Action::Tap {
            x,
            y,
            duration_ms: keymap::DEFAULT_TAP_DURATION_MS,
            radius,
        },
        _ => a,
    }
}

/// Makes a tap a hold or a hold a tap, in the same place and with the same range.
pub fn convert_bind<C: Copy>(profile: &mut Profile<C>, i: usize)
    ensures
        final(profile)@ == with_action(
            old(profile)@,
            i as int,
            converted(old(profile)@.binds[i as int].action),
        ),
{
    if i < profile.binds.len() {
        let b = profile.binds[i];
        let action = match b.action {
            Action::Tap { x, y, radius, .. } => Action::Hold { x, y, radius },
            Action::Hold { x, y, radius } => Action::Tap {
                x,
                y,
                duration_ms: keymap::DEFAULT_TAP_DURATION_MS,
                radius,
            },
            other => other,
        };
        profile.binds[i] = KeyBind { key: b.key, action };
    }
}

/// Making a tap a hold and back keeps its place and its range; only its duration returns to
/// the usual one.
pub proof fn convert_twice<C>(a: Action<C>)
    ensures
        converted(converted(a)) == (match a {
            Action::Tap { x, y, radius, .. } => Action::Tap {
                x,
                y,
                duration_ms: keymap::DEFAULT_TAP_DURATION_MS,
                radius,
            },
            _ => a,
        }),
{
}

/// The range of an action, if it has one.
pub open spec fn range_of<C>(a: Action<C>) -> Option<C> {
    match a {
        Action::Tap { radius, .. } => Some(radius),
        Action::Hold { radius, .. } => Some(radius),
        _ => None,
    }
}

/// An action with another range, if it has one.
pub open spec fn resized<C>(a: Action<C>, r: C) -> Action<C> {
    match a {
        Action::Tap { x, y, duration_ms, .. } => Action::Tap { x, y, duration_ms, radius: r },
        Action::Hold { x, y, .. } => Action::Hold { x, y, radius: r },
        _ => a,
    }
}

/// The range of a binding.
pub fn bind_radius<C: Copy>(profile: &Profile<C>, i: usize) -> (r: Option<C>)
    ensures
        r == (if i < profile@.binds.len() {
            range_of(profile@.binds[i as int].action)
        } else {
            None
        }),
{
    if i < profile.binds.len() {
        match profile.binds[i].action {
            Action::Tap { radius, .. } | Action::Hold { radius, .. } => Some(radius),
            _ => None,
        }
    } else {
        None
    }
}

/// The place of a binding that has one place.
pub fn bind_place<C: Copy>(profile: &Profile<C>, i: usize) -> (r: Option<(C, C)>)
    ensures
        r == (if i < profile@.binds.len() {
            match profile@.binds[i as int].action {
                Action::Tap { x, y, .. } => Some((x, y)),
                Action::Hold { x, y, .. } => Some((x, y)),
                _ => None,
            }
        } else {
            None
        }),
{
    if i < profile.binds.len() {
        match profile.binds[i].action {
            Action::Tap { x, y, .. } | Action::Hold { x, y, .. } => Some((x, y)),
            _ => None,
        }
    } else {
        None
    }
}

/// Changes the range of a binding that has one.
pub fn set_radius<C: Copy>(profile: &mut Profile<C>, i: usize, r: C)
    ensures
        final(profile)@ == with_action(
            old(profile)@,
            i as int,
            resized(old(profile)@.binds[i as int].action, r),
        ),
{
    if i < profile.binds.len() {
        let b = profile.binds[i];
        let action = match b.action {
            Action::Tap { x, y, duration_ms, .. } => Action::Tap { x, y, duration_ms, radius: r },
            Action::Hold { x, y, .. } => Action::Hold { x, y, radius: r },
            other => other,
        };
        profile.binds[i] = KeyBind { key: b.key, action };
    }
}

/// A wheel switched on the other way.
pub open spec fn other_mode<C>(w: Wheel<C>) -> Wheel<C> {
    match w.temp {
        Some(t) => Wheel {
            temp: Some(
                TempWheel {
                    mode: if t.mode == TempMode::Hold {
                        TempMode::Toggle
                    } else {
                        TempMode::Hold
                    },
                    ..t
                },
            ),
            ..w
        },
        None => w,
    }
}

/// Changes the way a temporary wheel is switched on.
pub fn flip_temp_mode<C: Copy>(profile: &mut Profile<C>, i: usize)
    ensures
        final(profile)@ == with_wheel(
            old(profile)@,
            i as int,
            other_mode(old(profile)@.wheels[i as int]),
        ),
{
    if i < profile.wheels.len() {
        let mut w = profile.wheels[i];
        if let Some(t) = w.temp {
            let mode = match t.mode {
                TempMode::Hold => TempMode::Toggle,
                TempMode::Toggle => TempMode::Hold,
            };
            w.temp = Some(TempWheel { key: t.key, mode });
        }
        profile.wheels[i] = w;
    }
}

/// Makes a temporary wheel permanent.
pub fn make_permanent<C: Copy>(profile: &mut Profile<C>, i: usize)
    ensures
        final(profile)@ == with_wheel(
            old(profile)@,
            i as int,
            Wheel { temp: None, ..old(profile)@.wheels[i as int] },
        ),
{
    if i < profile.wheels.len() {
        let mut w = profile.wheels[i];
        w.temp = None;
        profile.wheels[i] = w;
    }
}

/// Adds a permanent wheel on W, S, A and D.
pub fn add_wheel<C: Copy>(profile: &mut Profile<C>, center: (C, C), radius: C, scope: C)
    ensures
        final(profile)@ == (ProfileView {
            wheels: old(profile)@.wheels.push(
                Wheel {
                    up: 17,
                    down: 31,
                    left: 30,
                    right: 32,
                    cx: center.0,
                    cy: center.1,
                    radius,
                    scope,
                    temp: None,
                },
            ),
            ..old(profile)@
        }),
{
    profile.wheels.push(
        Wheel {
            up: 17,
            down: 31,
            left: 30,
            right: 32,
            cx: center.0,
            cy: center.1,
            radius,
            scope,
            temp: None,
        },
    );
}

/// Deletes a wheel.
pub fn delete_wheel<C: Copy>(profile: &mut Profile<C>, i: usize)
    requires
        i < old(profile).wheels@.len(),
    ensures
        final(profile)@ == (ProfileView {
            wheels: old(profile)@.wheels.remove(i as int),
            ..old(profile)@
        }),
{
    profile.wheels.remove(i);
}

/// The key of a direction of a wheel: 0 up, 1 down, 2 left, 3 right.
pub fn direction_key<C: Copy>(w: &Wheel<C>, dir: usize) -> (r: u16)
    requires
        dir < 4,
    ensures
        steered_by(*w, dir, r) == *w,
{
    if dir == 0 {
        w.up
    } else if dir == 1 {
        w.down
    } else if dir == 2 {
        w.left
    } else {
        w.right
    }
}

/// Puts the anchor at `at` when aiming was switched on without one; true when it did.
pub fn place_anchor<C: Copy>(aim: &mut Aim<C>, at: (C, C)) -> (placed: bool)
    ensures
        placed == (old(aim).enabled && old(aim).anchor is None),
        *final(aim) == (Aim {
            anchor: if placed {
                Some(at)
            } else {
                old(aim).anchor
            },
            ..*old(aim)
        }),
{
    if aim.enabled && !aim.anchor_set() {
        aim.anchor = Some(at);
        true
    } else {
        false
    }
}

/// The curves to choose from.
#[derive(Debug, Clone, Copy, PartialEq, Eq, Structural)]
pub enum EasingChoice {
    Linear,
    EaseIn,
    EaseOut,
    Smooth,
    Bezier,
}

/// The numbers that a freshly chosen curve has: the power of the first two and of the third,
/// and the four of the last.
pub struct EasingNumbers<C> {
    pub power: C,
    pub smooth: C,
    pub bezier: (C, C, C, C),
}

pub open spec fn chosen_easing<C>(choice: EasingChoice, n: EasingNumbers<C>) -> Easing<C> {
    match choice {
        EasingChoice::Linear => Easing::Linear,
        EasingChoice::EaseIn => Easing::EaseIn { power: n.power },
        EasingChoice::EaseOut => Easing::EaseOut { power: n.power },
        EasingChoice::Smooth => Easing::Smooth { power: n.smooth },
        EasingChoice::Bezier => Easing::Bezier {
            x1: n.bezier.0,
            y1: n.bezier.1,
            x2: n.bezier.2,
            y2: n.bezier.3,
        },
    }
}

/// Chooses the curve of a swipe.
pub fn choose_easing<C: Copy>(s: &mut Swipe<C>, choice: EasingChoice, n: &EasingNumbers<C>)
    ensures
        *final(s) == (Swipe { easing: chosen_easing(choice, *n), ..*old(s) }),
{
    s.easing = match choice {
        EasingChoice::Linear => Easing::Linear,
        EasingChoice::EaseIn => Easing::EaseIn { power: n.power },
        EasingChoice::EaseOut => Easing::EaseOut { power: n.power },
        EasingChoice::Smooth => Easing::Smooth { power: n.smooth },
        EasingChoice::Bezier => Easing::Bezier {
            x1: n.bezier.0,
            y1: n.bezier.1,
            x2: n.bezier.2,
            y2: n.bezier.3,
        },
    };
}

/// The shapes to choose from.
#[derive(Debug, Clone, Copy, PartialEq, Eq, Structural)]
pub enum PathChoice {
    Line,
    Rect,
    Circle,
}

/// Chooses the shape of a swipe; a circle begins as one on a diameter, setting out at `angle`.
pub fn choose_path<C: Copy>(s: &mut Swipe<C>, choice: PathChoice, angle: C)
    ensures
        *final(s) == (Swipe {
            path: match choice {
                PathChoice::Line => SwipePath::Line,
                PathChoice::Rect => SwipePath::Rect,
                PathChoice::Circle => SwipePath::Circle { as_diameter: true, start_angle: angle },
            },
            ..*old(s)
        }),
{
    s.path = match choice {
        PathChoice::Line => SwipePath::Line,
        PathChoice::Rect => SwipePath::Rect,
        PathChoice::Circle => SwipePath::Circle { as_diameter: true, start_angle: angle },
    };
}

/// Takes the places of a circle the other way: as the ends of a diameter, or as centre and rim.
pub fn flip_diameter<C: Copy>(s: &mut Swipe<C>)
    ensures
        *final(s) == (Swipe {
            path: match old(s).path {
                SwipePath::Circle { as_diameter, start_angle } => SwipePath::Circle {
                    as_diameter: !as_diameter,
                    start_angle,
                },
                other => other,
            },
            ..*old(s)
        }),
{
    s.path = match s.path {
        SwipePath::Circle { as_diameter, start_angle } => SwipePath::Circle {
            as_diameter: !as_diameter,
            start_angle,
        },
        other => other,
    };
}

/// A key given to a slot twice is the last one given.
pub proof fn last_key_counts<C>(p: ProfileView<C>, slot: KeySlot, a: u16, b: u16)
    ensures
        key_assigned(key_assigned(p, slot, a), slot, b) == key_assigned(p, slot, b),
{
    let once = key_assigned(p, slot, a);
    assert(key_assigned(once, slot, b) =~= key_assigned(p, slot, b));
}

/// Editing one binding leaves every other one alone, and never changes how many there are.
pub proof fn edits_stay_local<C>(
    p: ProfileView<C>,
    slot: CoordSlot,
    rel: (C, C),
    anchor: Option<(C, C)>,
    angle: C,
    k: int,
)
    requires
        0 <= k < p.binds.len(),
        slot != CoordSlot::Bind(k as usize),
        slot != CoordSlot::SwipeStart(k as usize),
        slot != CoordSlot::SwipeEnd(k as usize),
        slot != CoordSlot::CircleAngle(k as usize),
        k <= usize::MAX,
    ensures
        coord_assigned(p, slot, rel, anchor, angle).binds.len() == p.binds.len(),
        coord_assigned(p, slot, rel, anchor, angle).binds[k] == p.binds[k],
        coord_assigned(p, slot, rel, anchor, angle).toggle_key == p.toggle_key,
{
}

/// A key goes where it was asked for and nowhere else. The binding, the direction, the switch or
/// the button in question has it afterwards; every other key, and every place, time and range,
/// is as it was. A wheel that had no switch gets one that works while held.
pub proof fn a_key_goes_where_it_was_asked_for<C>(
    p: ProfileView<C>,
    slot: KeySlot,
    code: u16,
    i: int,
    j: int,
)
    requires
        0 <= i < p.binds.len() <= usize::MAX,
        0 <= j < p.wheels.len() <= usize::MAX,
    ensures
        ({
            let q = key_assigned(p, slot, code);
            let (b, w) = (p.binds[i], p.wheels[j]);
            let (c, v) = (q.binds[i], q.wheels[j]);
            &&& q.binds.len() == p.binds.len()
            &&& q.wheels.len() == p.wheels.len()
            &&& c.action == b.action
            &&& c.key == (if slot == KeySlot::Bind(i as usize) {
                code
            } else {
                b.key
            })
            &&& v.up == (if slot == (KeySlot::WheelDir { wheel: j as usize, dir: 0 }) {
                code
            } else {
                w.up
            })
            &&& v.down == (if slot == (KeySlot::WheelDir { wheel: j as usize, dir: 1 }) {
                code
            } else {
                w.down
            })
            &&& v.left == (if slot == (KeySlot::WheelDir { wheel: j as usize, dir: 2 }) {
                code
            } else {
                w.left
            })
            &&& v.right == (if slot is WheelDir && slot->wheel == j && slot->dir >= 3 {
                code
            } else {
                w.right
            })
            &&& slot == KeySlot::WheelEnable(j as usize) ==> v.temp is Some && v.temp->0.key == code
                && v.temp->0.mode == (if w.temp is Some {
                w.temp->0.mode
            } else {
                TempMode::Hold
            })
            &&& slot != KeySlot::WheelEnable(j as usize) ==> v.temp == w.temp
            &&& (v.cx, v.cy, v.radius, v.scope) == (w.cx, w.cy, w.radius, w.scope)
            &&& q.toggle_key == (if slot == KeySlot::Toggle {
                code
            } else {
                p.toggle_key
            })
            &&& q.aim.hold_key == (if slot == KeySlot::AimHold {
                code
            } else {
                p.aim.hold_key
            })
            &&& q.aim == (Aim { hold_key: q.aim.hold_key, ..p.aim })
            &&& q.name == p.name
            &&& q.look == p.look
        }),
{
}

/// Where an action is, if it is in one place.
pub open spec fn place_of<C>(a: Action<C>) -> Option<(C, C)> {
    match a {
        Action::Tap { x, y, .. } => Some((x, y)),
        Action::Hold { x, y, .. } => Some((x, y)),
        _ => None,
    }
}

/// A place goes where it was asked for and nowhere else. The tap or hold, the end of the swipe,
/// the centre of the wheel or the anchor in question is there afterwards, and a circle sets out
/// at the angle given; what kind a binding is, its key, its time and its range are as they were,
/// and so is everything of all other bindings and wheels.
pub proof fn a_place_goes_where_it_was_asked_for<C>(
    p: ProfileView<C>,
    slot: CoordSlot,
    rel: (C, C),
    anchor: Option<(C, C)>,
    angle: C,
    i: int,
    j: int,
)
    requires
        0 <= i < p.binds.len() <= usize::MAX,
        0 <= j < p.wheels.len() <= usize::MAX,
    ensures
        ({
            let q = coord_assigned(p, slot, rel, anchor, angle);
            let (b, w) = (p.binds[i], p.wheels[j]);
            let (c, v) = (q.binds[i], q.wheels[j]);
            let n = i as usize;
            &&& q.binds.len() == p.binds.len()
            &&& q.wheels.len() == p.wheels.len()
            &&& c.key == b.key
            &&& range_of(c.action) == range_of(b.action)
            &&& place_of(b.action) is Some ==> place_of(c.action) == Some(
                if slot == CoordSlot::Bind(n) {
                    rel
                } else {
                    place_of(b.action)->0
                },
            )
            &&& b.action is Tap ==> c.action is Tap && c.action->Tap_duration_ms
                == b.action->Tap_duration_ms
            &&& b.action is Hold ==> c.action is Hold
            &&& b.action is AndroidKey ==> c.action == b.action
            &&& b.action is Swipe ==> c.action is Swipe && {
                let (s, t) = (b.action->Swipe_0, c.action->Swipe_0);
                &&& t.start == (if slot == CoordSlot::SwipeStart(n) {
                    rel
                } else {
                    s.start
                })
                &&& t.end == (if slot == CoordSlot::SwipeEnd(n) {
                    rel
                } else {
                    s.end
                })
                &&& (t.duration_ms, t.easing) == (s.duration_ms, s.easing)
                &&& slot != CoordSlot::CircleAngle(n) ==> t.path == s.path
                &&& s.path is Circle ==> t.path is Circle && t.path->as_diameter
                    == s.path->as_diameter
                &&& slot == CoordSlot::CircleAngle(n) && s.path is Circle ==> t.path->start_angle
                    == angle
                &&& !(s.path is Circle) ==> t.path == s.path
            }
            &&& (v.cx, v.cy) == (if slot == CoordSlot::WheelCenter(j as usize) {
                rel
            } else {
                (w.cx, w.cy)
            })
            &&& v == (Wheel { cx: v.cx, cy: v.cy, ..w })
            &&& q.aim.anchor == (if slot == CoordSlot::AimAnchor {
                anchor
            } else {
                p.aim.anchor
            })
            &&& q.aim == (Aim { anchor: q.aim.anchor, ..p.aim })
            &&& (q.toggle_key, q.name, q.look) == (p.toggle_key, p.name, p.look)
        }),
{
}

/// A place picked for the draft goes there and nowhere else.
pub proof fn a_place_for_the_draft<C>(d: DraftBind<C>, slot: CoordSlot, at: (i32, i32), angle: C)
    ensures
        ({
            let e = draft_assigned(d, slot, at, angle);
            &&& (e.x, e.y) == (if slot == CoordSlot::NewBind {
                at
            } else {
                (d.x, d.y)
            })
            &&& e.swipe_start == (if slot == CoordSlot::NewSwipeStart {
                at
            } else {
                d.swipe_start
            })
            &&& e.swipe_end == (if slot == CoordSlot::NewSwipeEnd {
                at
            } else {
                d.swipe_end
            })
            &&& slot == CoordSlot::NewCircleAngle && d.swipe_path is Circle ==> e.swipe_path
                is Circle && e.swipe_path->start_angle == angle && e.swipe_path->as_diameter
                == d.swipe_path->as_diameter
            &&& !(slot == CoordSlot::NewCircleAngle && d.swipe_path is Circle) ==> e.swipe_path
                == d.swipe_path
            &&& (e.key, e.kind, e.radius, e.keycode) == (d.key, d.kind, d.radius, d.keycode)
            &&& (e.tap_duration_ms, e.swipe_duration_ms, e.swipe_easing) == (
                d.tap_duration_ms,
                d.swipe_duration_ms,
                d.swipe_easing,
            )
        }),
{
}

/// Making a tap a hold, or a hold a tap, keeps its place and its range, and a hold becomes a tap
/// of forty milliseconds. Swipes and system keys cannot be converted.
pub proof fn converting_keeps_the_place<C>(a: Action<C>)
    ensures
        place_of(converted(a)) == place_of(a),
        range_of(converted(a)) == range_of(a),
        a is Tap ==> converted(a) is Hold,
        a is Hold ==> converted(a) is Tap && converted(a)->Tap_duration_ms == 40,
        a is Swipe || a is AndroidKey ==> converted(a) == a,
{
}

/// Changing a range changes just that: the action has the new range if it had one, and is where
/// and what it was.
pub proof fn a_range_changes_alone<C>(a: Action<C>, r: C)
    ensures
        range_of(a) is Some ==> range_of(resized(a, r)) == Some(r),
        range_of(a) is None ==> resized(a, r) == a,
        place_of(resized(a, r)) == place_of(a),
        a is Tap ==> resized(a, r) is Tap && resized(a, r)->Tap_duration_ms
            == a->Tap_duration_ms,
        a is Hold ==> resized(a, r) is Hold,
{
}

/// Changing the way a wheel is switched keeps its key and turns the mode over; doing it twice
/// changes nothing. A permanent wheel has no mode to change.
pub proof fn modes_turn_over<C>(w: Wheel<C>)
    ensures
        other_mode(other_mode(w)) == w,
        w.temp is Some ==> other_mode(w).temp is Some && other_mode(w).temp->0.key == w.temp->0.key
            && other_mode(w).temp->0.mode != w.temp->0.mode,
        w.temp is None ==> other_mode(w) == w,
        other_mode(w) == (Wheel { temp: other_mode(w).temp, ..w }),
{
}

/// A draft becomes what it shows: the chosen kind, at the place, along the path, with the times,
/// the curve and the code that were entered.
pub proof fn a_draft_becomes_what_it_shows<C>(d: DraftBind<C>, rel: DraftRel<C>)
    ensures
        ({
            let a = drafted(d, rel);
            &&& d.kind == DraftKind::Tap ==> a is Tap && place_of(a) == Some(rel.at) && range_of(a)
                == Some(rel.radius) && a->Tap_duration_ms == d.tap_duration_ms
            &&& d.kind == DraftKind::Hold ==> a is Hold && place_of(a) == Some(rel.at) && range_of(
                a,
            ) == Some(rel.radius)
            &&& d.kind == DraftKind::Swipe ==> a is Swipe && {
                let s = a->Swipe_0;
                &&& (s.start, s.end) == (rel.start, rel.end)
                &&& (s.duration_ms, s.easing, s.path) == (
                    d.swipe_duration_ms,
                    d.swipe_easing,
                    d.swipe_path,
                )
            }
            &&& d.kind == DraftKind::Key ==> a is AndroidKey && a->keycode == d.keycode
        }),
{
}

/// What the user is asked for is what goes on: to click while a place is picked, else to press
/// the key of the draft while it is awaited, else to finish the draft, else to change the range,
/// else nothing.
pub proof fn the_prompt_says_what_goes_on<C: Copy>(e: Editor<C>)
    ensures
        ({
            let q = e.prompt_spec();
            let key = e.waiting_key == Some(KeySlot::NewBind);
            &&& q is Pick <==> e.picking is Some
            &&& q is Pick ==> q->draft == (e.picking->0 == CoordSlot::NewBind || e.picking->0
                == CoordSlot::NewSwipeStart || e.picking->0 == CoordSlot::NewSwipeEnd
                || e.picking->0 == CoordSlot::NewCircleAngle)
            &&& q is PressKey <==> e.picking is None && key
            &&& q is FinishDraft <==> e.picking is None && !key && e.draft_active
            &&& q is Resize <==> e.picking is None && !key && !e.draft_active && e.resizing is Some
            &&& q is Resize ==> e.resizing == Some(q->Resize_0)
        }),
{
}

/// The circle that an angle is measured on is that of the swipe it is for: of the binding in
/// question, by its stored ends, or of the draft, by its pixels; where that is no circle there is
/// none.
pub proof fn angles_are_measured_on_their_circle<C>(
    d: DraftBind<C>,
    p: ProfileView<C>,
    slot: CoordSlot,
    i: int,
)
    requires
        0 <= i < p.binds.len() <= usize::MAX,
    ensures
        ({
            let a = p.binds[i].action;
            let circle = a is Swipe && a->Swipe_0.path is Circle;
            let mine = circle_for(d, p, CoordSlot::CircleAngle(i as usize));
            &&& circle ==> mine == Some(
                (
                    a->Swipe_0.path->as_diameter,
                    Ends::Stored(a->Swipe_0.start, a->Swipe_0.end),
                ),
            )
            &&& !circle ==> mine is None
        }),
        d.swipe_path is Circle ==> circle_for(d, p, CoordSlot::NewCircleAngle) == Some(
            (d.swipe_path->as_diameter, Ends::<C>::Pixels(d.swipe_start, d.swipe_end)),
        ),
        !(d.swipe_path is Circle) ==> circle_for(d, p, CoordSlot::NewCircleAngle) is None,
        !(slot is CircleAngle || slot is NewCircleAngle) ==> circle_for(d, p, slot) is None,
{
}

/// A curve that is chosen is of the kind chosen, with the numbers that belong to it.
pub proof fn a_chosen_curve<C>(n: EasingNumbers<C>)
    ensures
        chosen_easing(EasingChoice::Linear, n) is Linear,
        chosen_easing(EasingChoice::EaseIn, n) is EaseIn,
        chosen_easing(EasingChoice::EaseIn, n)->EaseIn_power == n.power,
        chosen_easing(EasingChoice::EaseOut, n) is EaseOut,
        chosen_easing(EasingChoice::EaseOut, n)->EaseOut_power == n.power,
        chosen_easing(EasingChoice::Smooth, n) is Smooth,
        chosen_easing(EasingChoice::Smooth, n)->Smooth_power == n.smooth,
        ({
            let b = chosen_easing(EasingChoice::Bezier, n);
            b is Bezier && (b->x1, b->y1, b->x2, b->y2) == n.bezier
        }),
{
}

/// The curve being edited is that of the swipe being edited, the drafted one or that of a
/// binding; there is none where nothing is edited or what is edited is no swipe.
pub proof fn the_curve_being_edited<C>(e: Editor<C>, p: ProfileView<C>, i: int)
    requires
        0 <= i < p.binds.len() <= usize::MAX,
    ensures
        e.easing_edit is None ==> edited(e, p) is None,
        e.easing_edit == Some(EasingEditTarget::New) ==> edited(e, p) == Some(e.draft.swipe_easing),
        e.easing_edit == Some(EasingEditTarget::Bind(i as usize)) && p.binds[i].action is Swipe
            ==> edited(e, p) == Some(p.binds[i].action->Swipe_0.easing),
        e.easing_edit == Some(EasingEditTarget::Bind(i as usize)) && !(p.binds[i].action is Swipe)
            ==> edited(e, p) is None,
{
}

} // verus!
