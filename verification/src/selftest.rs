//! The self-test without a window: what is checked, what ends it, and what it prints.

use vstd::prelude::*;
use vstd::string::*;
use crate::control::ControlCmd;
use crate::text;

verus! {

/// What is checked, in order.
#[derive(Debug, Clone, Copy, PartialEq, Eq, Structural)]
pub enum Check {
    Evdev,
    Hook,
    Mouse,
    FindScrcpy,
    Version,
    FindServer,
    FindAdb,
    Devices,
    ScreenSize,
    StartServer,
    Connect,
    Inject,
}

pub open spec fn check_name(c: Check) -> Seq<char> {
    match c {
        Check::Evdev => "evdev 读取权限"@,
        Check::Hook => "键盘捕获(rdev)"@,
        Check::Mouse => "鼠标设备(REL_X/REL_Y)"@,
        Check::FindScrcpy => "自动寻找 scrcpy"@,
        Check::Version => "scrcpy 版本"@,
        Check::FindServer => "定位 scrcpy-server"@,
        Check::FindAdb => "定位 adb"@,
        Check::Devices => "adb 设备在线"@,
        Check::ScreenSize => "读取分辨率"@,
        Check::StartServer => "启动 control server"@,
        Check::Connect => "TCP 连接控制通道"@,
        Check::Inject => "协议注入(hover)"@,
    }
}

/// Whether nothing after it can be checked once it failed.
pub open spec fn is_vital(c: Check) -> bool {
    !(c is Evdev || c is Hook || c is Mouse || c is Inject)
}

impl Check {
    pub fn name(self) -> (r: &'static str)
        ensures
            r@ == check_name(self),
    {
        match self {
            Check::Evdev => "evdev 读取权限",
            Check::Hook => "键盘捕获(rdev)",
            Check::Mouse => "鼠标设备(REL_X/REL_Y)",
            Check::FindScrcpy => "自动寻找 scrcpy",
            Check::Version => "scrcpy 版本",
            Check::FindServer => "定位 scrcpy-server",
            Check::FindAdb => "定位 adb",
            Check::Devices => "adb 设备在线",
            Check::ScreenSize => "读取分辨率",
            Check::StartServer => "启动 control server",
            Check::Connect => "TCP 连接控制通道",
            Check::Inject => "协议注入(hover)",
        }
    }

    pub fn vital(self) -> (r: bool)
        ensures
            r == is_vital(self),
    {
        match self {
            Check::Evdev | Check::Hook | Check::Mouse | Check::Inject => false,
            _ => true,
        }
    }
}

/// A self-test that goes on.
#[derive(Debug, Clone, Copy, PartialEq, Eq, Structural)]
pub struct SelfTest {
    /// Some check failed.
    pub failed: bool,
}

/// The line printed for a check.
pub open spec fn check_line(c: Check, ok: bool, detail: Seq<char>) -> Seq<char> {
    "["@ + (if ok {
        "PASS"@
    } else {
        "FAIL"@
    }) + "] "@ + check_name(c) + " "@ + detail
}

impl SelfTest {
    pub fn new() -> (t: Self)
        ensures
            !t.failed,
    {
        SelfTest { failed: false }
    }

    /// Notes a check; returns the line to print and whether the test ends here.
    pub fn record(&mut self, c: Check, ok: bool, detail: &str) -> (r: (String, bool))
        ensures
            r.0@ == check_line(c, ok, detail@),
            r.1 == (!ok && is_vital(c)),
            final(self).failed == (old(self).failed || !ok),
    {
        if !ok {
            self.failed = true;
        }
        let mut s = String::new();
        s.append("[");
        s.append(
            if ok {
                "PASS"
            } else {
                "FAIL"
            },
        );
        s.append("] ");
        s.append(c.name());
        s.append(" ");
        s.append(detail);
        assert(s@ =~= check_line(c, ok, detail@));
        (s, !ok && c.vital())
    }

    /// The last line, and the exit code.
    pub fn finish(&self) -> (r: (&'static str, i32))
        ensures
            self.failed ==> r.0@ == "存在失败项"@ && r.1 == 1,
            !self.failed ==> r.0@ == "全部通过"@ && r.1 == 0,
    {
        if self.failed {
            ("存在失败项", 1)
        } else {
            ("全部通过", 0)
        }
    }
}

/// What is said of the permission to read input devices.
pub fn evdev_detail(ok: bool) -> (r: &'static str)
    ensures
        r@ == (if ok {
            ""@
        } else {
            "→ sudo usermod -aG input $USER 后重新登录"@
        }),
{
    if ok {
        ""
    } else {
        "→ sudo usermod -aG input $USER 后重新登录"
    }
}

/// What is said of the keyboard hook on Windows, which is always allowed.
pub fn hook_detail() -> (r: &'static str)
    ensures
        r@ == "(Windows 无需特殊权限)"@,
{
    "(Windows 无需特殊权限)"
}

/// What is said of the mice found.
pub fn mice_detail(mice: usize) -> (r: String)
    ensures
        r@ == text::dec(mice as nat) + " 个"@ + (if mice == 0 {
            " → FPS 瞄准不可用"@
        } else {
            ""@
        }),
{
    let mut s = String::new();
    text::push_dec(&mut s, mice as u64);
    s.append(" 个");
    s.append(
        if mice == 0 {
            " → FPS 瞄准不可用"
        } else {
            ""
        },
    );
    assert(s@ =~= text::dec(mice as nat) + " 个"@ + (if mice == 0 {
        " → FPS 瞄准不可用"@
    } else {
        ""@
    }));
    s
}

/// What is said of the devices found.
pub fn devices_detail(n: usize) -> (r: String)
    ensures
        r@ == "("@ + text::dec(n as nat) + " 台)"@,
{
    let mut s = String::new();
    s.append("(");
    text::push_dec(&mut s, n as u64);
    s.append(" 台)");
    assert(s@ =~= "("@ + text::dec(n as nat) + " 台)"@);
    s
}

/// The hover action: the pointer moves without touching.
pub const ACTION_HOVER_MOVE: u8 = 7;

/// The commands sent to try the channel: the mouse pointer moves and touches nothing.
pub fn hover_probe() -> (v: Vec<ControlCmd>)
    ensures
        v@ == seq![
            ControlCmd::Touch { action: ACTION_HOVER_MOVE, pointer_id: u64::MAX, x: 640, y: 1386 },
            ControlCmd::Touch { action: ACTION_HOVER_MOVE, pointer_id: u64::MAX, x: 700, y: 1400 },
        ],
{
    let mut v: Vec<ControlCmd> = Vec::new();
    v.push(
        ControlCmd::Touch { action: ACTION_HOVER_MOVE, pointer_id: u64::MAX, x: 640, y: 1386 },
    );
    v.push(
        ControlCmd::Touch { action: ACTION_HOVER_MOVE, pointer_id: u64::MAX, x: 700, y: 1400 },
    );
    v
}

} // verus!
