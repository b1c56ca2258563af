//! Decisions of the window: what a key or button does, what a panel says, what a frame has to
//! look after.

use vstd::prelude::*;
use vstd::string::*;
use crate::keymap::{self, TempMode, Wheel};
use crate::overlay;
use crate::text;
use crate::theme::{Look, LookView};

verus! {

/// What a key combination does.
#[derive(Debug, Clone, Copy, PartialEq, Eq, Structural)]
pub enum Shortcut {
    Undo,
    Redo,
    Save,
    SaveAs,
    Refresh,
}

/// Modifiers held, and which of the keys with a meaning were pressed.
#[derive(Debug, Clone, Copy, PartialEq, Eq, Structural)]
pub struct Pressed {
    pub ctrl: bool,
    pub shift: bool,
    pub z: bool,
    pub y: bool,
    pub s: bool,
    pub f5: bool,
}

pub open spec fn shortcut_of(p: Pressed) -> Option<Shortcut> {
    if p.ctrl && !p.shift && p.z {
        Some(Shortcut::Undo)
    } else if p.ctrl && !p.shift && p.y {
        Some(Shortcut::Redo)
    } else if p.ctrl && !p.shift && p.s {
        Some(Shortcut::Save)
    } else if p.ctrl && p.shift && p.s {
        Some(Shortcut::SaveAs)
    } else if !p.ctrl && !p.shift && p.f5 {
        Some(Shortcut::Refresh)
    } else {
        None
    }
}

/// The shortcut pressed. There is none while a key or a place is awaited or text is typed, so
/// that any combination can be bound.
pub fn shortcut(awaiting: bool, typing: bool, p: Pressed) -> (r: Option<Shortcut>)
    ensures
        r == (if awaiting || typing {
            None
        } else {
            shortcut_of(p)
        }),
{
    if awaiting || typing {
        return None;
    }
    if p.ctrl && !p.shift && p.z {
        Some(Shortcut::Undo)
    } else if p.ctrl && !p.shift && p.y {
        Some(Shortcut::Redo)
    } else if p.ctrl && !p.shift && p.s {
        Some(Shortcut::Save)
    } else if p.ctrl && p.shift && p.s {
        Some(Shortcut::SaveAs)
    } else if !p.ctrl && !p.shift && p.f5 {
        Some(Shortcut::Refresh)
    } else {
        None
    }
}

/// How a range changes by the keyboard.
#[derive(Debug, Clone, Copy, PartialEq, Eq, Structural)]
pub enum Zoom {
    In,
    Out,
}

/// The change that Ctrl with plus, equals or minus asks for; growing wins.
pub fn zoom_key(ctrl: bool, plus: bool, equals: bool, minus: bool) -> (r: Option<Zoom>)
    ensures
        r == (if ctrl && (plus || equals) {
            Some(Zoom::In)
        } else if ctrl && minus {
            Some(Zoom::Out)
        } else {
            None
        }),
{
    if ctrl && (plus || equals) {
        Some(Zoom::In)
    } else if ctrl && minus {
        Some(Zoom::Out)
    } else {
        None
    }
}

/// What the window remembers from frame to frame.
#[derive(Debug, Clone, Copy, PartialEq, Eq, Structural)]
pub struct Watch {
    pub enabled_prev: bool,
    pub captured_prev: bool,
}

/// What a frame sees.
#[derive(Debug, Clone, Copy, PartialEq, Eq, Structural)]
pub struct Seen {
    /// Mapping is on.
    pub enabled: bool,
    /// The control channel is alive.
    pub connected: bool,
    /// The mouse is captured.
    pub captured: bool,
    /// Keys are to be kept from other programs while mapping.
    pub grab_enabled: bool,
    /// A control server was started.
    pub has_server: bool,
    /// A connection is being made.
    pub connecting: bool,
}

/// What a frame has to do.
#[derive(Debug, Clone, Copy, PartialEq, Eq, Structural)]
pub struct Chores {
    /// Keep keys from other programs.
    pub grab: bool,
    /// Ask the device for its screen size: mapping was just switched on, and the screen may
    /// have been turned.
    pub ask_size: bool,
    /// Report that the mouse was captured or released.
    pub captured_note: Option<bool>,
    /// The control channel broke down.
    pub lost: bool,
}

/// One frame: what has to be done, given what was seen before and now.
pub fn watch(w: &mut Watch, seen: Seen) -> (r: Chores)
    ensures
        *final(w) == (Watch { enabled_prev: seen.enabled, captured_prev: seen.captured }),
        r == (Chores {
            grab: seen.enabled && seen.grab_enabled,
            ask_size: seen.enabled && !old(w).enabled_prev && seen.connected,
            captured_note: if seen.captured != old(w).captured_prev {
                Some(seen.captured)
            } else {
                None
            },
            lost: seen.has_server && !seen.connected && !seen.connecting,
        }),
{
    let ask_size: bool = seen.enabled && !w.enabled_prev && seen.connected;
    w.enabled_prev = seen.enabled;
    let captured_note = if seen.captured != w.captured_prev {
        Some(seen.captured)
    } else {
        None
    };
    w.captured_prev = seen.captured;
    Chores {
        grab: seen.enabled && seen.grab_enabled,
        ask_size,
        captured_note,
        lost: seen.has_server && !seen.connected && !seen.connecting,
    }
}

/// What is reported when the mouse is captured or released.
pub fn capture_note(captured: bool) -> (r: &'static str)
    ensures
        r@ == (if captured {
            "鼠标已捕获: 视角由鼠标控制(按 Ctrl+Alt 可交还给系统)"@
        } else {
            "鼠标已交还给系统(按 Ctrl+Alt 可收回)"@
        }),
{
    if captured {
        "鼠标已捕获: 视角由鼠标控制(按 Ctrl+Alt 可交还给系统)"
    } else {
        "鼠标已交还给系统(按 Ctrl+Alt 可收回)"
    }
}

/// The text on the button of a key.
pub open spec fn key_text(waiting: bool, code: Option<u16>, windows: bool) -> Seq<char> {
    if waiting {
        "按任意键..."@
    } else {
        match code {
            Some(c) => keymap::name_text(c, windows),
            None => "未绑定"@,
        }
    }
}

/// The text on the button of a key.
pub fn key_label(waiting: bool, code: Option<u16>, windows: bool) -> (r: String)
    ensures
        r@ == key_text(waiting, code, windows),
{
    if waiting {
        return "按任意键...".to_owned();
    }
    match code {
        Some(c) => keymap::key_name(c, windows),
        None => "未绑定".to_owned(),
    }
}

/// The text on the button that switches mapping.
pub fn toggle_label(enabled: bool, toggle_key: u16, windows: bool) -> (r: String)
    ensures
        r@ == (if enabled {
            "映射: 开 ("@
        } else {
            "映射: 关 ("@
        }) + overlay::short(toggle_key, windows) + ")"@,
{
    let mut s = String::new();
    s.append(
        if enabled {
            "映射: 开 ("
        } else {
            "映射: 关 ("
        },
    );
    let k = overlay::short_name(toggle_key, windows);
    s.append(k.as_str());
    s.append(")");
    assert(s@ =~= (if enabled {
        "映射: 开 ("@
    } else {
        "映射: 关 ("@
    }) + overlay::short(toggle_key, windows) + ")"@);
    s
}

/// The heading of a wheel, counted from one.
pub fn wheel_title<C: Copy>(i: usize, w: &Wheel<C>) -> (r: String)
    requires
        i < usize::MAX,
    ensures
        r@ == "轮盘"@ + text::dec((i + 1) as nat) + (if w.temp is Some {
            "(临时)"@
        } else {
            Seq::empty()
        }),
{
    let mut s = String::new();
    s.append("轮盘");
    text::push_dec(&mut s, (i + 1) as u64);
    if w.temp.is_some() {
        s.append("(临时)");
    }
    assert(s@ =~= "轮盘"@ + text::dec((i + 1) as nat) + (if w.temp is Some {
        "(临时)"@
    } else {
        Seq::empty()
    }));
    s
}

/// The text on the button that changes how a temporary wheel is switched on.
pub fn mode_label(m: TempMode) -> (r: &'static str)
    ensures
        r@ == match m {
            TempMode::Hold => "模式:长按启用"@,
            TempMode::Toggle => "模式:再按切换"@,
        },
{
    match m {
        TempMode::Hold => "模式:长按启用",
        TempMode::Toggle => "模式:再按切换",
    }
}

/// What aiming needs.
#[derive(Debug, Clone, Copy, PartialEq, Eq, Structural)]
pub struct AimChecks {
    pub aim_on: bool,
    pub mouse_found: bool,
    pub anchor_ok: bool,
    pub map_on: bool,
    pub connected: bool,
}

/// The conditions of aiming, in the order in which they are listed.
pub open spec fn condition(c: AimChecks, i: int) -> bool {
    if i == 0 {
        c.aim_on
    } else if i == 1 {
        c.mouse_found
    } else if i == 2 {
        c.anchor_ok
    } else if i == 3 {
        c.map_on
    } else {
        c.connected
    }
}

pub open spec fn condition_text(i: int) -> Seq<char> {
    if i == 0 {
        "已勾选 [启用鼠标瞄准]"@
    } else if i == 1 {
        "检测到鼠标设备"@
    } else if i == 2 {
        "已设置锚点(勾选启用时会自动放置,可再[取锚点]调整)"@
    } else if i == 3 {
        "映射已开启(按总开关键才生效)"@
    } else {
        "控制通道已连接(已点[启动])"@
    }
}

/// The line about a condition.
pub open spec fn condition_line(c: AimChecks, i: int) -> Seq<char> {
    (if condition(c, i) {
        "✓"@
    } else {
        "✗"@
    }) + " "@ + condition_text(i)
}

fn condition_name(i: usize) -> (r: &'static str)
    requires
        i < 5,
    ensures
        r@ == condition_text(i as int),
{
    if i == 0 {
        "已勾选 [启用鼠标瞄准]"
    } else if i == 1 {
        "检测到鼠标设备"
    } else if i == 2 {
        "已设置锚点(勾选启用时会自动放置,可再[取锚点]调整)"
    } else if i == 3 {
        "映射已开启(按总开关键才生效)"
    } else {
        "控制通道已连接(已点[启动])"
    }
}

impl AimChecks {
    fn holds(&self, i: usize) -> (r: bool)
        requires
            i < 5,
        ensures
            r == condition(*self, i as int),
    {
        if i == 0 {
            self.aim_on
        } else if i == 1 {
            self.mouse_found
        } else if i == 2 {
            self.anchor_ok
        } else if i == 3 {
            self.map_on
        } else {
            self.connected
        }
    }

    /// A line for each condition, with whether it is met.
    pub fn lines(&self) -> (v: Vec<(bool, String)>)
        ensures
            v@.len() == 5,
            forall|i: int|
                0 <= i < 5 ==> (#[trigger] v@[i]).0 == condition(*self, i) && v@[i].1@
                    == condition_line(*self, i),
    {
        let mut v: Vec<(bool, String)> = Vec::new();
        for i in 0..5usize
            invariant
                v@.len() == i,
                forall|k: int|
                    0 <= k < i ==> (#[trigger] v@[k]).0 == condition(*self, k) && v@[k].1@
                        == condition_line(*self, k),
        {
            let ok: bool = self.holds(i);
            let mut s = String::new();
            s.append(
                if ok {
                    "✓"
                } else {
                    "✗"
                },
            );
            s.append(" ");
            s.append(condition_name(i));
            assert(s@ =~= condition_line(*self, i as int));
            v.push((ok, s));
        }
        v
    }

    /// The first condition that is not met, as it is listed.
    pub open spec fn first_missing(self) -> Option<int> {
        if !self.aim_on {
            Some(0)
        } else if !self.mouse_found {
            Some(1)
        } else if !self.anchor_ok {
            Some(2)
        } else if !self.map_on {
            Some(3)
        } else if !self.connected {
            Some(4)
        } else {
            None
        }
    }

    /// Why aiming does not react, or that it does; the flag says that all is well.
    pub fn verdict(&self, active: bool, hold_key: u16, windows: bool) -> (r: (bool, String))
        ensures
            r.0 == (self.first_missing() is None && active && hold_key == 0),
            r.1@ == (match self.first_missing() {
                Some(i) => "→ 现在没反应,因为: "@ + condition_text(i),
                None => if !active {
                    "→ 已就绪,但当前不满足瞄准条件(绑了[按住才瞄准]时需按住该键)"@
                } else if hold_key != 0 {
                    "→ 已就绪,但绑定了[按住才瞄准]:需按住 "@ + keymap::name_text(hold_key, windows)
                        + " 时才会转动视角"@
                } else {
                    "→ 已就绪,移动鼠标即可转动视角"@
                },
            }),
    {
        for i in 0..5usize
            invariant
                forall|k: int| 0 <= k < i ==> condition(*self, k),
        {
            if !self.holds(i) {
                proof {
                    assert(i > 0 ==> condition(*self, 0));
                    assert(i > 1 ==> condition(*self, 1));
                    assert(i > 2 ==> condition(*self, 2));
                    assert(i > 3 ==> condition(*self, 3));
                    assert(self.first_missing() == Some(i as int));
                }
                let mut s = String::new();
                s.append("→ 现在没反应,因为: ");
                s.append(condition_name(i));
                assert(s@ =~= "→ 现在没反应,因为: "@ + condition_text(i as int));
                return (false, s);
            }
        }
        assert(condition(*self, 0) && condition(*self, 1) && condition(*self, 2) && condition(
            *self,
            3,
        ) && condition(*self, 4));
        if !active {
            return (
                false,
                "→ 已就绪,但当前不满足瞄准条件(绑了[按住才瞄准]时需按住该键)".to_owned(),
            );
        }
        if hold_key != 0 {
            let mut s = String::new();
            s.append("→ 已就绪,但绑定了[按住才瞄准]:需按住 ");
            let k = keymap::key_name(hold_key, windows);
            s.append(k.as_str());
            s.append(" 时才会转动视角");
            assert(s@ =~= "→ 已就绪,但绑定了[按住才瞄准]:需按住 "@ + keymap::name_text(hold_key, windows)
                + " 时才会转动视角"@);
            return (false, s);
        }
        (true, "→ 已就绪,移动鼠标即可转动视角".to_owned())
    }
}

/// The line about the screen that touches go to.
pub fn space_label(w: u32, h: u32) -> (r: String)
    ensures
        r@ == "触摸坐标空间: "@ + text::dec(w as nat) + "x"@ + text::dec(h as nat) + (if w > h {
            "(横屏)"@
        } else {
            "(竖屏)"@
        }),
{
    let mut s = String::new();
    s.append("触摸坐标空间: ");
    text::push_dec(&mut s, w as u64);
    s.append("x");
    text::push_dec(&mut s, h as u64);
    s.append(
        if w > h {
            "(横屏)"
        } else {
            "(竖屏)"
        },
    );
    assert(s@ =~= "触摸坐标空间: "@ + text::dec(w as nat) + "x"@ + text::dec(h as nat) + (if w > h {
        "(横屏)"@
    } else {
        "(竖屏)"@
    }));
    s
}

/// What a file dialog was opened for.
#[derive(Debug, Clone, Copy, PartialEq, Eq, Structural)]
pub enum DialogPurpose {
    ScrcpyExe,
    ServerJar,
    AdbExe,
    SaveLog,
    SaveProfileAs,
    ChooseProfile,
    NewProfile,
    PickBackground,
}

/// What is reported when the file chosen was dealt with: read, written or noted.
pub open spec fn done_text(purpose: DialogPurpose, path: Seq<char>) -> Seq<char> {
    match purpose {
        DialogPurpose::ScrcpyExe => "已选择 scrcpy: "@ + path,
        DialogPurpose::ServerJar => "已选择 server: "@ + path,
        DialogPurpose::AdbExe => "已选择 adb: "@ + path,
        DialogPurpose::SaveLog => "日志已保存到 "@ + path,
        DialogPurpose::SaveProfileAs => "配置已另存到 "@ + path + "(可直接分享该文件)"@,
        DialogPurpose::ChooseProfile => "已选用配置: "@ + path,
        DialogPurpose::NewProfile => "已新建空配置并切换: "@ + path,
        DialogPurpose::PickBackground => "背景图已设为: "@ + path,
    }
}

/// The line to report when the file chosen was dealt with.
pub fn done_note(purpose: DialogPurpose, path: &str) -> (r: String)
    ensures
        r@ == done_text(purpose, path@),
{
    let mut s = String::new();
    s.append(
        match purpose {
            DialogPurpose::ScrcpyExe => "已选择 scrcpy: ",
            DialogPurpose::ServerJar => "已选择 server: ",
            DialogPurpose::AdbExe => "已选择 adb: ",
            DialogPurpose::SaveLog => "日志已保存到 ",
            DialogPurpose::SaveProfileAs => "配置已另存到 ",
            DialogPurpose::ChooseProfile => "已选用配置: ",
            DialogPurpose::NewProfile => "已新建空配置并切换: ",
            DialogPurpose::PickBackground => "背景图已设为: ",
        },
    );
    s.append(path);
    if purpose == DialogPurpose::SaveProfileAs {
        s.append("(可直接分享该文件)");
    }
    assert(s@ =~= done_text(purpose, path@));
    s
}

/// What is reported when dealing with the file chosen failed.
pub open spec fn failed_text(purpose: DialogPurpose, error: Seq<char>) -> Seq<char> {
    match purpose {
        DialogPurpose::SaveLog => "日志保存失败: "@ + error,
        DialogPurpose::SaveProfileAs => "另存失败: "@ + error,
        DialogPurpose::ChooseProfile => "选用失败: "@ + error,
        DialogPurpose::NewProfile => "新建失败: "@ + error,
        _ => error,
    }
}

/// The line to report when dealing with the file chosen failed.
pub fn failed_note(purpose: DialogPurpose, error: &str) -> (r: String)
    ensures
        r@ == failed_text(purpose, error@),
{
    let mut s = String::new();
    match purpose {
        DialogPurpose::SaveLog => {
            s.append("日志保存失败: ");
        },
        DialogPurpose::SaveProfileAs => {
            s.append("另存失败: ");
        },
        DialogPurpose::ChooseProfile => {
            s.append("选用失败: ");
        },
        DialogPurpose::NewProfile => {
            s.append("新建失败: ");
        },
        _ => {},
    }
    s.append(error);
    assert(s@ =~= failed_text(purpose, error@));
    s
}

/// How many bindings and wheels a profile has: `(N 按键 / M 轮盘)`.
pub open spec fn counts_text(binds: nat, wheels: nat) -> Seq<char> {
    " ("@ + text::dec(binds) + " 按键 / "@ + text::dec(wheels) + " 轮盘)"@
}

/// Appends how many bindings and wheels a profile has.
pub fn push_counts(s: &mut String, binds: usize, wheels: usize)
    ensures
        final(s)@ == old(s)@ + counts_text(binds as nat, wheels as nat),
{
    s.append(" (");
    text::push_dec(s, binds as u64);
    s.append(" 按键 / ");
    text::push_dec(s, wheels as u64);
    s.append(" 轮盘)");
    assert(s@ =~= old(s)@ + counts_text(binds as nat, wheels as nat));
}

/// What is reported of the values that setting a background image replaced.
pub open spec fn replaced_texts(replaced: (Option<u8>, Option<u8>)) -> Seq<Seq<char>> {
    let a = match replaced.0 {
        Some(v) => seq!["面板不透明度 "@ + text::dec(v as nat) + " → 150"@],
        None => Seq::<Seq<char>>::empty(),
    };
    match replaced.1 {
        Some(v) => a.push("背景图压暗 "@ + text::dec(v as nat) + " → 120"@),
        None => a,
    }
}

/// What is reported of a background image that was set.
pub open spec fn background_text(path: Seq<char>, replaced: (Option<u8>, Option<u8>)) -> Seq<char> {
    let r = replaced_texts(replaced);
    if r.len() == 0 {
        "背景图已设为: "@ + path
    } else {
        "背景图已设为: "@ + path + "(自动调整 "@ + text::joined(r, "、"@) + ";可在[外观]调整)"@
    }
}

fn replaced_notes(replaced: (Option<u8>, Option<u8>)) -> (v: Vec<String>)
    ensures
        text::texts(v@) == replaced_texts(replaced),
{
    let mut v: Vec<String> = Vec::new();
    assert(text::texts(v@) =~= Seq::<Seq<char>>::empty());
    if let Some(a) = replaced.0 {
        let mut s = String::new();
        s.append("面板不透明度 ");
        text::push_dec(&mut s, a as u64);
        s.append(" → 150");
        assert(s@ =~= "面板不透明度 "@ + text::dec(a as nat) + " → 150"@);
        let ghost t = s@;
        v.push(s);
        assert(text::texts(v@) =~= seq![t]);
    }
    if let Some(d) = replaced.1 {
        let mut s = String::new();
        s.append("背景图压暗 ");
        text::push_dec(&mut s, d as u64);
        s.append(" → 120");
        assert(s@ =~= "背景图压暗 "@ + text::dec(d as nat) + " → 120"@);
        let ghost before = v@;
        let ghost t = s@;
        v.push(s);
        assert(text::texts(v@) =~= text::texts(before).push(t));
    }
    v
}

/// The line to report of a background image that was set; `replaced` are the values that were
/// too high to see it.
pub fn background_note(path: &str, replaced: (Option<u8>, Option<u8>)) -> (r: String)
    ensures
        r@ == background_text(path@, replaced),
{
    let v = replaced_notes(replaced);
    assert(text::texts(v@).len() == v@.len());
    let mut s = String::new();
    s.append("背景图已设为: ");
    s.append(path);
    if v.len() > 0 {
        s.append("(自动调整 ");
        let j = text::join(&v, "、");
        s.append(j.as_str());
        s.append(";可在[外观]调整)");
    }
    assert(s@ =~= background_text(path@, replaced));
    s
}

/// What to do about the background image.
#[derive(Debug, Clone, Copy, PartialEq, Eq, Structural)]
pub enum BgStep {
    /// None is set: forget the one loaded.
    Forget,
    /// Loading it failed before: leave it.
    Leave,
    /// Load it.
    Load,
    /// Show the one loaded.
    Show,
}

/// The background image loaded, and the one that could not be.
pub struct BgCache {
    pub loaded: Option<String>,
    pub failed: Option<String>,
}

impl BgCache {
    /// What to do about a background image: it is loaded when its path changes, and once.
    pub open spec fn step_spec(self, path: Seq<char>) -> BgStep {
        if path.len() == 0 {
            BgStep::Forget
        } else if self.loaded is Some && self.loaded->0@ == path {
            BgStep::Show
        } else if self.failed is Some && self.failed->0@ == path {
            BgStep::Leave
        } else {
            BgStep::Load
        }
    }

    pub fn step<C>(&self, look: &Look<C>) -> (r: BgStep)
        ensures
            r == self.step_spec(look.bg_path@),
    {
        if !look.has_bg() {
            return BgStep::Forget;
        }
        if let Some(p) = &self.loaded {
            if text::same_text(p.as_str(), look.bg_path.as_str()) {
                return BgStep::Show;
            }
        }
        if let Some(p) = &self.failed {
            if text::same_text(p.as_str(), look.bg_path.as_str()) {
                return BgStep::Leave;
            }
        }
        BgStep::Load
    }

    /// Notes how loading went.
    pub fn note_loaded(&mut self, path: &str, ok: bool)
        ensures
            ok ==> final(self).loaded is Some && final(self).loaded->0@ == path@
                && final(self).failed is None,
            !ok ==> final(self).loaded is None && final(self).failed is Some
                && final(self).failed->0@ == path@,
    {
        if ok {
            self.loaded = Some(path.to_owned());
            self.failed = None;
        } else {
            self.loaded = None;
            self.failed = Some(path.to_owned());
        }
    }

    /// Forgets both: the next look loads the image anew.
    pub fn reset(&mut self)
        ensures
            final(self).loaded is None,
            final(self).failed is None,
    {
        self.loaded = None;
        self.failed = None;
    }

    /// Forgets the image loaded: none is set.
    pub fn forget(&mut self)
        ensures
            final(self).loaded is None,
            final(self).failed == old(self).failed,
    {
        self.loaded = None;
    }
}

/// Loading a background image is tried once, whether it works or not.
pub proof fn background_is_tried_once(c: BgCache, path: Seq<char>)
    requires
        path.len() > 0,
        c.loaded is Some && c.loaded->0@ == path || c.loaded is None && c.failed is Some
            && c.failed->0@ == path,
    ensures
        c.step_spec(path) != BgStep::Load,
{
}

/// The appearance written last beside whether a failure was reported.
pub struct LookCache<C> {
    pub saved: Option<Look<C>>,
    pub warned: bool,
}

/// Two appearances that agree in everything but the brightness of the overlay.
pub open spec fn same_but_tone<C>(a: LookView<C>, b: LookView<C>) -> bool {
    a == LookView { overlay_tone: a.overlay_tone, ..b }
}

impl<C: Copy> LookCache<C> {
    pub open spec fn saved_view(self) -> Option<LookView<C>> {
        match self.saved {
            Some(l) => Some(l@),
            None => None,
        }
    }

    pub fn new() -> (c: Self)
        ensures
            c.saved is None,
            !c.warned,
    {
        LookCache { saved: None, warned: false }
    }

    /// Whether an appearance is to be written: it differs from the one noted last, which it
    /// then replaces. `same_tone` compares brightness values.
    pub fn take_change<F: Fn(C, C) -> bool>(&mut self, look: &Look<C>, same_tone: &F) -> (r: bool)
        requires
            forall|a: C, b: C| #[trigger] call_requires(*same_tone, (a, b)),
        ensures
            !r ==> old(self).saved is Some && same_but_tone(old(self).saved->0@, look@)
                && call_ensures(
                *same_tone,
                (old(self).saved->0.overlay_tone, look.overlay_tone),
                true,
            ),
            r ==> old(self).saved is None || !same_but_tone(old(self).saved->0@, look@)
                || call_ensures(
                *same_tone,
                (old(self).saved->0.overlay_tone, look.overlay_tone),
                false,
            ),
            final(self).saved_view() == (if r {
                Some(look@)
            } else {
                old(self).saved_view()
            }),
            final(self).warned == old(self).warned,
    {
        if let Some(l) = &self.saved {
            let same: bool = l.preset == look.preset && l.density == look.density && l.bg_fit
                == look.bg_fit && l.bg_dim == look.bg_dim && l.panel_alpha == look.panel_alpha
                && text::same_text(l.bg_path.as_str(), look.bg_path.as_str());
            if same && same_tone(l.overlay_tone, look.overlay_tone) {
                return false;
            }
        }
        self.saved = Some(look.clone());
        true
    }

    /// Notes that writing failed; true when this is to be reported, which is once.
    pub fn note_failed(&mut self) -> (report: bool)
        ensures
            report == !old(self).warned,
            final(self).warned,
            final(self).saved_view() == old(self).saved_view(),
    {
        let report: bool = !self.warned;
        self.warned = true;
        report
    }
}

/// What each combination does. Ctrl with Z takes back, with Y does again, with S saves, with
/// Shift and S saves as; F5 alone refreshes. No other combination of these keys does anything.
pub proof fn combinations_mean_one_thing(p: Pressed)
    ensures
        ({
            let r = shortcut_of(p);
            let plain = p.ctrl && !p.shift;
            &&& r == Some(Shortcut::Undo) <==> plain && p.z
            &&& r == Some(Shortcut::Redo) <==> plain && p.y && !p.z
            &&& r == Some(Shortcut::Save) <==> plain && p.s && !p.z && !p.y
            &&& r == Some(Shortcut::SaveAs) <==> p.ctrl && p.shift && p.s
            &&& r == Some(Shortcut::Refresh) <==> !p.ctrl && !p.shift && p.f5
        }),
{
}

/// What is missing first is missing, and everything listed before it is there; nothing is
/// missing when all five conditions are met.
pub proof fn what_is_missing_first(c: AimChecks)
    ensures
        c.first_missing() is None <==> c.aim_on && c.mouse_found && c.anchor_ok && c.map_on
            && c.connected,
        c.first_missing() is Some ==> 0 <= c.first_missing()->0 < 5 && !condition(
            c,
            c.first_missing()->0,
        ) && forall|k: int| 0 <= k < c.first_missing()->0 ==> condition(c, k),
        condition(c, 0) == c.aim_on,
        condition(c, 1) == c.mouse_found,
        condition(c, 2) == c.anchor_ok,
        condition(c, 3) == c.map_on,
        condition(c, 4) == c.connected,
{
}

/// A background image is shown when it is the one loaded, left when it is the one that failed,
/// loaded when it is another, and forgotten when none is set.
pub proof fn what_becomes_of_a_background(c: BgCache, path: Seq<char>)
    ensures
        ({
            let r = c.step_spec(path);
            let loaded = c.loaded is Some && c.loaded->0@ == path;
            let failed = c.failed is Some && c.failed->0@ == path;
            &&& r == BgStep::Forget <==> path.len() == 0
            &&& r == BgStep::Show <==> path.len() > 0 && loaded
            &&& r == BgStep::Leave <==> path.len() > 0 && !loaded && failed
            &&& r == BgStep::Load <==> path.len() > 0 && !loaded && !failed
        }),
{
}

} // verus!
