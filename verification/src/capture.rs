//! Input devices: which of them are read, and what is made of what they report.

use vstd::prelude::*;

verus! {

/// An input event.
#[derive(Debug, PartialEq)]
pub enum CaptureEvent<C> {
    /// A key or mouse button went down or up.
    Button { code: u16, pressed: bool },
    /// The mouse moved, in counts of the device.
    Motion { dx: C, dy: C },
}

impl<C: Copy> Clone for CaptureEvent<C> {
    fn clone(&self) -> (r: Self)
        ensures
            r == *self,
    {
        *self
    }
}

impl<C: Copy> Copy for CaptureEvent<C> {

}

impl<C: Copy> CaptureEvent<C> {
    /// The key or button that went down, if this is that.
    pub fn pressed_code(&self) -> (r: Option<u16>)
        ensures
            r == (match *self {
                CaptureEvent::Button { code, pressed } => if pressed {
                    Some(code)
                } else {
                    None
                },
                _ => None,
            }),
    {
        match *self {
            CaptureEvent::Button { code, pressed } => if pressed {
                Some(code)
            } else {
                None
            },
            _ => None,
        }
    }
}

/// Code of the key `A`.
pub const KEY_A: u16 = 30;

/// Code of the key `Z`.
pub const KEY_Z: u16 = 44;

/// Code of the enter key.
pub const KEY_ENTER: u16 = 28;

/// Number of the horizontal axis of relative motion.
pub const REL_X: u16 = 0;

/// Number of the vertical axis of relative motion.
pub const REL_Y: u16 = 1;

fn holds(v: &Vec<u16>, x: u16) -> (r: bool)
    ensures
        r == v@.contains(x),
{
    let n: usize = v.len();
    for i in 0..n
        invariant
            n == v.len(),
            forall|k: int| 0 <= k < i ==> v@[k] != x,
    {
        if v[i] == x {
            return true;
        }
    }
    false
}

/// Whether a device with these keys is a keyboard.
pub fn is_keyboard(keys: &Vec<u16>) -> (r: bool)
    ensures
        r == (keys@.contains(KEY_A) && keys@.contains(KEY_Z) && keys@.contains(KEY_ENTER)),
{
    holds(keys, KEY_A) && holds(keys, KEY_Z) && holds(keys, KEY_ENTER)
}

/// Whether a device with these axes of relative motion is a mouse.
pub fn is_mouse(axes: &Vec<u16>) -> (r: bool)
    ensures
        r == (axes@.contains(REL_X) && axes@.contains(REL_Y)),
{
    holds(axes, REL_X) && holds(axes, REL_Y)
}

/// What is done with a device.
#[derive(Debug, Clone, Copy, PartialEq, Eq, Structural)]
pub struct DevicePlan {
    /// It is kept from other programs along with the keyboards, else along with the mice.
    pub with_keyboards: bool,
    /// Its motion is reported.
    pub motion: bool,
}

/// What is done with a device; nothing with one that is neither keyboard nor mouse.
pub fn plan_device(keyboard: bool, mouse: bool) -> (r: Option<DevicePlan>)
    ensures
        r == (if keyboard || mouse {
            Some(DevicePlan { with_keyboards: keyboard, motion: mouse })
        } else {
            None
        }),
{
    if keyboard || mouse {
        Some(DevicePlan { with_keyboards: keyboard, motion: mouse })
    } else {
        None
    }
}

/// The switches shared with the threads that read devices.
#[derive(Debug, Clone, Copy, PartialEq, Eq, Structural)]
pub struct Capture {
    /// Keyboards are kept from other programs.
    pub grab: bool,
    /// Mice are kept from other programs.
    pub mouse_grab: bool,
    /// A mouse is there.
    pub mouse_found: bool,
    /// Reading ends.
    pub stop: bool,
}

impl Capture {
    /// Starts with the devices that could be opened, or says why there are none: some were
    /// denied, or there are none to open.
    pub fn start(opened: usize, mice: usize, denied: usize) -> (r: Result<Self, &'static str>)
        ensures
            opened > 0 ==> r == Ok::<Capture, &'static str>(
                Capture { grab: false, mouse_grab: false, mouse_found: mice > 0, stop: false },
            ),
            opened == 0 ==> r is Err && r->Err_0@ == (if denied > 0 {
                "无权限读取输入设备(/dev/input/event*)。请确认已执行 sudo usermod -aG input $USER 并【重新登录】,且本程序是在重新登录后启动的"@
            } else {
                "未找到键盘设备"@
            }),
    {
        if opened == 0 {
            if denied > 0 {
                return Err(
                    "无权限读取输入设备(/dev/input/event*)。请确认已执行 sudo usermod -aG input $USER 并【重新登录】,且本程序是在重新登录后启动的",
                );
            }
            return Err("未找到键盘设备");
        }
        Ok(Capture { grab: false, mouse_grab: false, mouse_found: mice > 0, stop: false })
    }
}

/// What a device reports.
#[derive(Debug, Clone, Copy, PartialEq, Eq, Structural)]
pub enum RawEvent {
    /// A key: 0 up, 1 down, 2 still down.
    Key { code: u16, value: i32 },
    /// Motion along an axis.
    Rel { axis: u16, value: i32 },
    Other,
}

/// Buttons and the motion made of a batch of reports.
pub struct Batch {
    /// Keys that went down or up, in order.
    pub buttons: Vec<(u16, bool)>,
    /// The motion of the whole batch, if there was any.
    pub motion: Option<(i128, i128)>,
}

/// The keys that went down or up in a batch.
pub open spec fn buttons_of(events: Seq<RawEvent>) -> Seq<(u16, bool)>
    decreases events.len(),
{
    if events.len() == 0 {
        Seq::empty()
    } else {
        let before = buttons_of(events.drop_last());
        match events.last() {
            RawEvent::Key { code, value } => if value == 2 {
                before
            } else {
                before.push((code, value == 1))
            },
            _ => before,
        }
    }
}

/// The motion along an axis in a batch.
pub open spec fn moved_along(events: Seq<RawEvent>, axis: u16) -> int
    decreases events.len(),
{
    if events.len() == 0 {
        0
    } else {
        let before = moved_along(events.drop_last(), axis);
        match events.last() {
            RawEvent::Rel { axis: a, value } => if a == axis {
                before + value
            } else {
                before
            },
            _ => before,
        }
    }
}

/// Sorts a batch of reports: repeats of a held key are left out, motion is added up.
pub fn sort_batch(events: &Vec<RawEvent>, mouse: bool) -> (r: Batch)
    ensures
        r.buttons@ == buttons_of(events@),
        ({
            let dx = if mouse {
                moved_along(events@, REL_X)
            } else {
                0
            };
            let dy = if mouse {
                moved_along(events@, REL_Y)
            } else {
                0
            };
            match r.motion {
                Some(m) => m.0 == dx && m.1 == dy && !(dx == 0 && dy == 0),
                None => dx == 0 && dy == 0,
            }
        }),
{
    let n: usize = events.len();
    let mut buttons: Vec<(u16, bool)> = Vec::new();
    let mut dx: i128 = 0;
    let mut dy: i128 = 0;
    assert(events@.take(0) =~= Seq::<RawEvent>::empty());
    for i in 0..n
        invariant
            n == events.len(),
            buttons@ == buttons_of(events@.take(i as int)),
            mouse ==> dx == moved_along(events@.take(i as int), REL_X),
            mouse ==> dy == moved_along(events@.take(i as int), REL_Y),
            !mouse ==> dx == 0 && dy == 0,
            -0x8000_0000 * i <= dx <= 0x8000_0000 * i,
            -0x8000_0000 * i <= dy <= 0x8000_0000 * i,
    {
        assert(events@.take(i + 1).drop_last() =~= events@.take(i as int));
        assert(events@.take(i + 1).last() == events@[i as int]);
        match events[i] {
            RawEvent::Key { code, value } => {
                if value != 2 {
                    buttons.push((code, value == 1));
                }
            },
            RawEvent::Rel { axis, value } => {
                if mouse {
                    if axis == REL_X {
                        dx = dx + value as i128;
                    } else if axis == REL_Y {
                        dy = dy + value as i128;
                    }
                }
            },
            RawEvent::Other => {},
        }
    }
    assert(events@.take(n as int) =~= events@);
    let motion = if dx != 0 || dy != 0 {
        Some((dx, dy))
    } else {
        None
    };
    Batch { buttons, motion }
}

/// A key that is held makes one press and one release, however often the device repeats it.
pub proof fn repeats_are_silent(events: Seq<RawEvent>, code: u16, n: nat)
    ensures
        buttons_of(events + Seq::new(n, |i: int| RawEvent::Key { code, value: 2 })) == buttons_of(
            events,
        ),
    decreases n,
{
    let rep = |k: nat| Seq::new(k, |i: int| RawEvent::Key { code, value: 2i32 });
    if n == 0 {
        assert(events + rep(0) =~= events);
    } else {
        repeats_are_silent(events, code, (n - 1) as nat);
        let all = events + Seq::new(n, |i: int| RawEvent::Key { code, value: 2i32 });
        assert(all.drop_last() =~= events + Seq::new(
            (n - 1) as nat,
            |i: int| RawEvent::Key { code, value: 2i32 },
        ));
        assert(all.last() == RawEvent::Key { code, value: 2 });
    }
}

/// Whether a device has to be taken or given back: the wish differs from what is so.
pub fn grab_step(want: bool, grabbed: bool) -> (r: Option<bool>)
    ensures
        r == (if want != grabbed {
            Some(want)
        } else {
            None
        }),
{
    if want != grabbed {
        Some(want)
    } else {
        None
    }
}

/// A cursor that is kept near the middle of the screen while the mouse is captured.
#[derive(Debug, PartialEq)]
pub struct CursorTrack<C> {
    /// The cursor is hidden.
    pub hiding: bool,
    /// The next motion is our own moving of the cursor.
    pub skip_next: bool,
    pub last: Option<(C, C)>,
}

/// What to do about a motion of the cursor.
#[derive(Debug, Clone, Copy, PartialEq, Eq, Structural)]
pub struct CursorStep {
    /// Report the way from the last place to this one.
    pub report: bool,
    /// Put the cursor back into the middle.
    pub recenter: bool,
}

impl<C: Copy> CursorTrack<C> {
    pub fn new() -> (t: Self)
        ensures
            t == (CursorTrack::<C> { hiding: false, skip_next: false, last: None }),
    {
        CursorTrack { hiding: false, skip_next: false, last: None }
    }

    /// Follows the wish to capture the mouse; true when the cursor has to be hidden or shown.
    /// When it is hidden it is put into the middle too, and that motion is not reported.
    pub fn follow(&mut self, want: bool, center: (C, C)) -> (changed: bool)
        ensures
            changed == (want != old(self).hiding),
            *final(self) == (if !changed {
                *old(self)
            } else if want {
                CursorTrack { hiding: true, skip_next: true, last: Some(center) }
            } else {
                CursorTrack { hiding: false, ..*old(self) }
            }),
    {
        if want == self.hiding {
            return false;
        }
        self.hiding = want;
        if want {
            self.last = Some(center);
            self.skip_next = true;
        }
        true
    }

    /// Takes a motion of the cursor to `at`. `moved` says that `at` is not the last place,
    /// `far` that it is too far from the middle. Our own moving of the cursor is never
    /// reported.
    pub fn moved_to(
        &mut self,
        at: (C, C),
        moved: bool,
        far: bool,
        want: bool,
        center: (C, C),
    ) -> (r: CursorStep)
        ensures
            r.report == (!old(self).skip_next && old(self).last is Some && moved),
            r.recenter == (want && far),
            *final(self) == (CursorTrack {
                skip_next: r.recenter,
                last: if r.recenter {
                    Some(center)
                } else {
                    Some(at)
                },
                ..*old(self)
            }),
    {
        let report: bool = !self.skip_next && self.last.is_some() && moved;
        self.skip_next = false;
        self.last = Some(at);
        let recenter: bool = want && far;
        if recenter {
            self.last = Some(center);
            self.skip_next = true;
        }
        CursorStep { report, recenter }
    }
}

/// Reports are taken in turn: what two batches hold is what the first holds and then the second,
/// and their motions add up.
pub proof fn batches_follow_one_another(a: Seq<RawEvent>, b: Seq<RawEvent>, axis: u16)
    ensures
        buttons_of(a + b) == buttons_of(a) + buttons_of(b),
        moved_along(a + b, axis) == moved_along(a, axis) + moved_along(b, axis),
    decreases b.len(),
{
    if b.len() == 0 {
        assert(a + b =~= a);
        assert(buttons_of(a) + buttons_of(b) =~= buttons_of(a));
    } else {
        batches_follow_one_another(a, b.drop_last(), axis);
        assert((a + b).drop_last() =~= a + b.drop_last());
        assert((a + b).last() == b.last());
        let x = buttons_of(a);
        let y = buttons_of(b.drop_last());
        let c = b.last();
        if c is Key {
            assert(x + y.push((c->code, c->Key_value == 1)) =~= (x + y).push(
                (c->code, c->Key_value == 1),
            ));
        }
    }
}

/// What one report means: a 1 that the key went down, a 0 that it went up, a 2 nothing; motion
/// counts for its own axis, and nothing else is motion or a key.
pub proof fn one_report(e: RawEvent, axis: u16)
    ensures
        ({
            let s = seq![e];
            &&& e is Key && e->Key_value == 1 ==> buttons_of(s) == seq![(e->code, true)]
            &&& e is Key && e->Key_value == 0 ==> buttons_of(s) == seq![(e->code, false)]
            &&& e is Key && e->Key_value == 2 ==> buttons_of(s).len() == 0
            &&& !(e is Key) ==> buttons_of(s).len() == 0
            &&& moved_along(s, axis) == (if e is Rel && e->axis == axis {
                e->Rel_value as int
            } else {
                0
            })
        }),
{
    let s = seq![e];
    assert(s.drop_last() =~= Seq::<RawEvent>::empty());
    reveal_with_fuel(buttons_of, 2);
    reveal_with_fuel(moved_along, 2);
    assert(s.last() == e);
    if e is Key {
        assert(Seq::<(u16, bool)>::empty().push((e->code, true)) =~= seq![(e->code, true)]);
        assert(Seq::<(u16, bool)>::empty().push((e->code, false)) =~= seq![(e->code, false)]);
    }
}

} // verus!
