//! scrcpy, its server and adb: completing their paths from one another, the devices, and what
//! is reported of them.

use vstd::prelude::*;
use vstd::string::*;
use crate::adb;
use crate::text;

verus! {

/// Identifies our control channel on the device.
pub const SCID: u32 = 0x1a2b3c4d;

/// The local port that is forwarded to the control channel.
pub const LOCAL_PORT: u16 = 28383;

/// How often connecting to the control channel is tried.
pub const CONNECT_TRIES: u32 = 20;

/// How long to wait between two tries, in milliseconds.
pub const CONNECT_PAUSE_MS: u64 = 150;

/// The three paths as they are entered, and as they were when last completed.
pub struct Suite {
    pub scrcpy_path: String,
    pub server_path: String,
    pub adb_path: String,
    pub synced: (String, String, String),
}

/// Three paths: scrcpy, its server, adb.
#[verifier::ext_equal]
pub struct Trio {
    pub scrcpy: Seq<char>,
    pub server: Seq<char>,
    pub adb: Seq<char>,
}

/// Which path is completed from which other one.
#[derive(Debug, Clone, Copy, PartialEq, Eq, Structural)]
pub enum FillStep {
    ServerByScrcpy,
    AdbByScrcpy,
    ScrcpyByServer,
    AdbByServer,
    ScrcpyByAdb,
    ServerByAdb,
}

impl FillStep {
    /// The order of the steps.
    pub open spec fn rank(self) -> int {
        match self {
            FillStep::ServerByScrcpy => 0,
            FillStep::AdbByScrcpy => 1,
            FillStep::ScrcpyByServer => 2,
            FillStep::AdbByServer => 3,
            FillStep::ScrcpyByAdb => 4,
            FillStep::ServerByAdb => 5,
        }
    }

    /// The step that follows.
    pub fn next(self) -> (r: Option<FillStep>)
        ensures
            self.rank() < 5 ==> r is Some && r->0.rank() == self.rank() + 1,
            self.rank() == 5 ==> r is None,
    {
        match self {
            FillStep::ServerByScrcpy => Some(FillStep::AdbByScrcpy),
            FillStep::AdbByScrcpy => Some(FillStep::ScrcpyByServer),
            FillStep::ScrcpyByServer => Some(FillStep::AdbByServer),
            FillStep::AdbByServer => Some(FillStep::ScrcpyByAdb),
            FillStep::ScrcpyByAdb => Some(FillStep::ServerByAdb),
            FillStep::ServerByAdb => None,
        }
    }
}

/// The path that a step starts from.
pub open spec fn source(t: Trio, step: FillStep) -> Seq<char> {
    match step {
        FillStep::ServerByScrcpy | FillStep::AdbByScrcpy => t.scrcpy,
        FillStep::ScrcpyByServer | FillStep::AdbByServer => t.server,
        FillStep::ScrcpyByAdb | FillStep::ServerByAdb => t.adb,
    }
}

/// The path that a step completes.
pub open spec fn target(t: Trio, step: FillStep) -> Seq<char> {
    match step {
        FillStep::ServerByScrcpy | FillStep::ServerByAdb => t.server,
        FillStep::AdbByScrcpy | FillStep::AdbByServer => t.adb,
        FillStep::ScrcpyByServer | FillStep::ScrcpyByAdb => t.scrcpy,
    }
}

/// Whether a step has something to do: its target is missing, what it starts from is not.
pub open spec fn wanted(t: Trio, step: FillStep) -> bool {
    text::trim(source(t, step)).len() > 0 && text::trim(target(t, step)).len() == 0
}

/// The paths after a step that found a path, or none.
pub open spec fn filled(t: Trio, step: FillStep, found: Option<Seq<char>>) -> Trio {
    if wanted(t, step) && found is Some {
        match step {
            FillStep::ServerByScrcpy | FillStep::ServerByAdb => Trio { server: found->0, ..t },
            FillStep::AdbByScrcpy | FillStep::AdbByServer => Trio { adb: found->0, ..t },
            FillStep::ScrcpyByServer | FillStep::ScrcpyByAdb => Trio { scrcpy: found->0, ..t },
        }
    } else {
        t
    }
}

/// What is reported of a path that was found.
pub open spec fn filled_text(step: FillStep, path: Seq<char>) -> Seq<char> {
    match step {
        FillStep::ServerByScrcpy | FillStep::ServerByAdb => "server 已自动补齐: "@ + path,
        FillStep::AdbByScrcpy | FillStep::AdbByServer => "adb 已自动补齐: "@ + path,
        FillStep::ScrcpyByServer | FillStep::ScrcpyByAdb => "scrcpy 已自动补齐: "@ + path,
    }
}

impl Suite {
    pub open spec fn trio(self) -> Trio {
        Trio { scrcpy: self.scrcpy_path@, server: self.server_path@, adb: self.adb_path@ }
    }

    pub open spec fn done(self) -> Trio {
        Trio { scrcpy: self.synced.0@, server: self.synced.1@, adb: self.synced.2@ }
    }

    /// Paths found at the start; they are yet to be completed.
    pub fn new(scrcpy_path: String, server_path: String, adb_path: String) -> (s: Self)
        ensures
            s.trio() == (Trio { scrcpy: scrcpy_path@, server: server_path@, adb: adb_path@ }),
            s.done() == (Trio {
                scrcpy: Seq::empty(),
                server: Seq::empty(),
                adb: Seq::empty(),
            }),
    {
        Suite {
            scrcpy_path,
            server_path,
            adb_path,
            synced: (String::new(), String::new(), String::new()),
        }
    }

    /// Makes the next [`Suite::begin`] complete the paths even if none was changed.
    pub fn forget(&mut self)
        ensures
            final(self).trio() == old(self).trio(),
            final(self).done() == (Trio {
                scrcpy: Seq::empty(),
                server: Seq::empty(),
                adb: Seq::empty(),
            }),
    {
        self.synced = (String::new(), String::new(), String::new());
    }

    /// Whether the paths are to be completed: some path was changed since they last were.
    pub fn begin(&mut self) -> (r: bool)
        ensures
            r == (old(self).trio() != old(self).done()),
            final(self).trio() == old(self).trio(),
            final(self).done() == old(self).trio(),
    {
        let same: bool = text::same_text(self.scrcpy_path.as_str(), self.synced.0.as_str())
            && text::same_text(self.server_path.as_str(), self.synced.1.as_str())
            && text::same_text(self.adb_path.as_str(), self.synced.2.as_str());
        if same {
            return false;
        }
        self.synced = (
            self.scrcpy_path.clone(),
            self.server_path.clone(),
            self.adb_path.clone(),
        );
        true
    }

    /// The path that a step starts from, when it has something to do.
    pub fn wants(&self, step: FillStep) -> (r: Option<String>)
        ensures
            r is Some == wanted(self.trio(), step),
            r is Some ==> r->0@ == text::trim(source(self.trio(), step)),
    {
        let from = match step {
            FillStep::ServerByScrcpy | FillStep::AdbByScrcpy => &self.scrcpy_path,
            FillStep::ScrcpyByServer | FillStep::AdbByServer => &self.server_path,
            FillStep::ScrcpyByAdb | FillStep::ServerByAdb => &self.adb_path,
        };
        let to = match step {
            FillStep::ServerByScrcpy | FillStep::ServerByAdb => &self.server_path,
            FillStep::AdbByScrcpy | FillStep::AdbByServer => &self.adb_path,
            FillStep::ScrcpyByServer | FillStep::ScrcpyByAdb => &self.scrcpy_path,
        };
        if text::is_blank(from.as_str()) || !text::is_blank(to.as_str()) {
            None
        } else {
            Some(text::trimmed(from.as_str()))
        }
    }

    /// Completes a path by what a step found; returns what to report.
    pub fn fill(&mut self, step: FillStep, found: Option<String>) -> (note: Option<String>)
        ensures
            final(self).trio() == filled(old(self).trio(), step, adb::opt_text(found)),
            final(self).done() == old(self).done(),
            note is Some == (wanted(old(self).trio(), step) && found is Some),
            note is Some ==> note->0@ == filled_text(step, found->0@),
    {
        if self.wants(step).is_none() {
            return None;
        }
        match found {
            None => None,
            Some(path) => {
                let mut note = String::new();
                match step {
                    FillStep::ServerByScrcpy | FillStep::ServerByAdb => {
                        note.append("server 已自动补齐: ");
                        note.append(path.as_str());
                        self.server_path = path;
                    },
                    FillStep::AdbByScrcpy | FillStep::AdbByServer => {
                        note.append("adb 已自动补齐: ");
                        note.append(path.as_str());
                        self.adb_path = path;
                    },
                    FillStep::ScrcpyByServer | FillStep::ScrcpyByAdb => {
                        note.append("scrcpy 已自动补齐: ");
                        note.append(path.as_str());
                        self.scrcpy_path = path;
                    },
                }
                assert(note@ =~= filled_text(step, found->0@));
                Some(note)
            },
        }
    }

    /// The adb entered by hand, if any.
    pub fn manual_adb(&self) -> (r: Option<String>)
        ensures
            r is Some == (text::trim(self.adb_path@).len() > 0),
            r is Some ==> r->0@ == text::trim(self.adb_path@),
    {
        given(self.adb_path.as_str())
    }

    /// The scrcpy entered, if any.
    pub fn given_scrcpy(&self) -> (r: Option<String>)
        ensures
            r is Some == (text::trim(self.scrcpy_path@).len() > 0),
            r is Some ==> r->0@ == text::trim(self.scrcpy_path@),
    {
        given(self.scrcpy_path.as_str())
    }
}

fn given(path: &str) -> (r: Option<String>)
    ensures
        r is Some == (text::trim(path@).len() > 0),
        r is Some ==> r->0@ == text::trim(path@),
{
    let t = text::trimmed(path);
    if t.as_str().is_empty() {
        None
    } else {
        Some(t)
    }
}

/// Completing paths replaces no path that was entered, and the others only by what was found.
pub proof fn entered_paths_stay(t: Trio, step: FillStep, found: Option<Seq<char>>)
    ensures
        text::trim(t.scrcpy).len() > 0 ==> filled(t, step, found).scrcpy == t.scrcpy,
        text::trim(t.server).len() > 0 ==> filled(t, step, found).server == t.server,
        text::trim(t.adb).len() > 0 ==> filled(t, step, found).adb == t.adb,
        filled(t, step, None) == t,
{
}

/// A step that found a path has nothing more to do.
pub proof fn filled_once(t: Trio, step: FillStep, found: Seq<char>, again: Option<Seq<char>>)
    requires
        text::trim(found).len() > 0,
    ensures
        ({
            let u = filled(t, step, Some(found));
            !wanted(u, step) && filled(u, step, again) == u
        }),
{
}

/// The adb in use: the one entered by hand if it is there, else the one found.
pub fn effective_adb(manual: Option<String>, manual_is_file: bool, found: Option<String>) -> (r:
    Option<String>)
    ensures
        adb::opt_text(r) == (if manual is Some && manual_is_file {
            adb::opt_text(manual)
        } else {
            adb::opt_text(found)
        }),
{
    match manual {
        Some(m) => if manual_is_file {
            Some(m)
        } else {
            found
        },
        None => found,
    }
}

/// What is reported of the adb in use.
pub open spec fn adb_text(adb: Option<Seq<char>>, by_hand: bool) -> Seq<char> {
    match adb {
        Some(p) => "adb: "@ + p,
        None => if by_hand {
            "未找到 adb(设备列表将为空): 请将 adb.exe 所在目录加入 PATH,或手动指定"@
        } else {
            "未找到 adb(设备列表将为空): 请将 adb.exe 所在目录加入 PATH,或在左栏手动指定"@
        },
    }
}

/// The line to report of the adb in use, after paths were completed (`by_hand`) or at the
/// start.
pub fn adb_note(adb: &Option<String>, by_hand: bool) -> (r: String)
    ensures
        r@ == adb_text(adb::opt_text(*adb), by_hand),
{
    match adb {
        Some(p) => {
            let mut s = String::new();
            s.append("adb: ");
            s.append(p.as_str());
            assert(s@ =~= "adb: "@ + p@);
            s
        },
        None => if by_hand {
            "未找到 adb(设备列表将为空): 请将 adb.exe 所在目录加入 PATH,或手动指定".to_owned()
        } else {
            "未找到 adb(设备列表将为空): 请将 adb.exe 所在目录加入 PATH,或在左栏手动指定".to_owned()
        },
    }
}

/// Whether another adb is in use than before.
pub fn adb_changed(effective: &Option<String>, now: &Option<String>) -> (r: bool)
    ensures
        r == (adb::opt_text(*effective) != adb::opt_text(*now)),
{
    match (effective, now) {
        (Some(a), Some(b)) => !text::same_text(a.as_str(), b.as_str()),
        (None, None) => false,
        _ => true,
    }
}

/// The devices and which of them is selected.
pub struct Devices {
    pub list: Vec<String>,
    pub selected: usize,
}

impl Devices {
    pub fn new(list: Vec<String>) -> (d: Self)
        ensures
            d.list == list,
            d.selected == 0,
    {
        Devices { list, selected: 0 }
    }

    /// The serial number of the selected device; empty when there is none.
    pub open spec fn serial_spec(self) -> Seq<char> {
        if self.selected < self.list@.len() {
            self.list@[self.selected as int]@
        } else {
            Seq::empty()
        }
    }

    pub fn serial(&self) -> (r: String)
        ensures
            r@ == self.serial_spec(),
    {
        if self.selected < self.list.len() {
            self.list[self.selected].clone()
        } else {
            String::new()
        }
    }

    /// Takes a new list; the selection returns to the first when it is beyond the end.
    /// Returns what to report.
    pub fn refresh(&mut self, list: Vec<String>) -> (note: String)
        ensures
            final(self).list == list,
            final(self).selected == (if old(self).selected < list@.len() {
                old(self).selected
            } else {
                0
            }),
            note@ == "设备已刷新,共 "@ + text::dec(list@.len()) + " 台"@,
    {
        let n: usize = list.len();
        self.list = list;
        if self.selected >= n {
            self.selected = 0;
        }
        let mut s = String::new();
        s.append("设备已刷新,共 ");
        text::push_dec(&mut s, n as u64);
        s.append(" 台");
        assert(s@ =~= "设备已刷新,共 "@ + text::dec(list@.len()) + " 台"@);
        s
    }
}

/// The outcome of testing scrcpy.
pub struct Tested {
    pub ok: bool,
    /// Shown beside the button.
    pub msg: String,
    /// Put into the log.
    pub note: String,
}

pub open spec fn test_msg(version: Option<Seq<char>>, server_ok: bool) -> Seq<char> {
    match version {
        Some(v) => if server_ok {
            "scrcpy "@ + v + " · server 就绪"@
        } else {
            "scrcpy "@ + v + " 可用,但 scrcpy-server 不存在,请指定"@
        },
        None => "无法运行 scrcpy,请检查程序路径"@,
    }
}

pub open spec fn test_note(version: Option<Seq<char>>, server_ok: bool, server: Seq<char>) -> Seq<
    char,
> {
    match version {
        Some(v) => if server_ok {
            "scrcpy 测试通过: 版本 "@ + v + ",server: "@ + server
        } else {
            "scrcpy 测试: server 文件缺失"@
        },
        None => "scrcpy 测试失败: 无法执行(检查路径)"@,
    }
}

/// Judges a test of scrcpy: its version if it runs, and whether its server is there.
pub fn test_scrcpy(version: &Option<String>, server_ok: bool, server_path: &str) -> (r: Tested)
    ensures
        r.ok == (version is Some && server_ok),
        r.msg@ == test_msg(adb::opt_text(*version), server_ok),
        r.note@ == test_note(adb::opt_text(*version), server_ok, server_path@),
{
    match version {
        Some(v) => {
            let mut msg = String::new();
            msg.append("scrcpy ");
            msg.append(v.as_str());
            if server_ok {
                msg.append(" · server 就绪");
                let mut note = String::new();
                note.append("scrcpy 测试通过: 版本 ");
                note.append(v.as_str());
                note.append(",server: ");
                note.append(server_path);
                assert(msg@ =~= "scrcpy "@ + v@ + " · server 就绪"@);
                assert(note@ =~= "scrcpy 测试通过: 版本 "@ + v@ + ",server: "@ + server_path@);
                Tested { ok: true, msg, note }
            } else {
                msg.append(" 可用,但 scrcpy-server 不存在,请指定");
                assert(msg@ =~= "scrcpy "@ + v@ + " 可用,但 scrcpy-server 不存在,请指定"@);
                Tested { ok: false, msg, note: "scrcpy 测试: server 文件缺失".to_owned() }
            }
        },
        None => Tested {
            ok: false,
            msg: "无法运行 scrcpy,请检查程序路径".to_owned(),
            note: "scrcpy 测试失败: 无法执行(检查路径)".to_owned(),
        },
    }
}

/// Connecting to the control channel, which may take several tries until the server listens.
pub struct Connecting {
    pub tries: u32,
    pub last_err: String,
}

impl Connecting {
    pub fn new() -> (c: Self)
        ensures
            c.tries == 0,
            c.last_err@ == Seq::<char>::empty(),
    {
        Connecting { tries: 0, last_err: String::new() }
    }

    /// Notes a try that failed; true when another one follows.
    pub fn failed(&mut self, err: String) -> (again: bool)
        requires
            old(self).tries < CONNECT_TRIES,
        ensures
            final(self).tries == old(self).tries + 1,
            final(self).last_err == err,
            again == (final(self).tries < CONNECT_TRIES),
    {
        self.tries = self.tries + 1;
        self.last_err = err;
        self.tries < CONNECT_TRIES
    }

    /// What is reported when all tries failed.
    pub fn timeout(&self) -> (r: String)
        ensures
            r@ == "连接控制通道超时: "@ + self.last_err@,
    {
        let mut s = String::new();
        s.append("连接控制通道超时: ");
        s.append(self.last_err.as_str());
        assert(s@ =~= "连接控制通道超时: "@ + self.last_err@);
        s
    }
}

/// Whether the device took the connection: its server sends one byte first, while a forwarded
/// port alone is taken at once and then closed. `read` is how many bytes came, or why none did.
pub fn accepted(read: &Result<usize, String>) -> (r: Result<(), String>)
    ensures
        match *read {
            Ok(n) => if n == 1 {
                r is Ok
            } else {
                r is Err && r->Err_0@ == "设备侧 socket 未就绪(EOF)"@
            },
            Err(e) => r is Err && r->Err_0@ == "等待 dummy 字节失败: "@ + e@,
        },
{
    match read {
        Ok(n) => if *n == 1 {
            Ok(())
        } else {
            Err("设备侧 socket 未就绪(EOF)".to_owned())
        },
        Err(e) => {
            let mut s = String::new();
            s.append("等待 dummy 字节失败: ");
            s.append(e.as_str());
            assert(s@ =~= "等待 dummy 字节失败: "@ + e@);
            Err(s)
        },
    }
}

/// The version to start the server as: the one known, else the one just read, else `fallback`.
pub fn version_or(known: &str, read: Option<String>, fallback: &str) -> (r: String)
    ensures
        r@ == (if known@.len() > 0 {
            known@
        } else {
            match adb::opt_text(read) {
                Some(v) => v,
                None => fallback@,
            }
        }),
{
    if !known.is_empty() {
        return known.to_owned();
    }
    match read {
        Some(v) => v,
        None => fallback.to_owned(),
    }
}

/// What is reported of scrcpy at the start.
pub fn startup_note(scrcpy: &Option<String>) -> (r: String)
    ensures
        r@ == (match adb::opt_text(*scrcpy) {
            Some(p) => "已自动找到 scrcpy: "@ + p,
            None => "未找到 scrcpy,请在左栏手动指定路径"@,
        }),
{
    match scrcpy {
        Some(p) => {
            let mut s = String::new();
            s.append("已自动找到 scrcpy: ");
            s.append(p.as_str());
            assert(s@ =~= "已自动找到 scrcpy: "@ + p@);
            s
        },
        None => "未找到 scrcpy,请在左栏手动指定路径".to_owned(),
    }
}

/// A step completes one path from one other, and touches no third: the server and adb from
/// scrcpy, scrcpy and adb from the server, scrcpy and the server from adb. It does so when the
/// one is there and the other is not, and takes what was found.
pub proof fn a_step_completes_one_path(t: Trio, step: FillStep, found: Seq<char>)
    ensures
        ({
            let u = filled(t, step, Some(found));
            let scrcpy = text::trim(t.scrcpy).len() > 0;
            let server = text::trim(t.server).len() > 0;
            let adb = text::trim(t.adb).len() > 0;
            &&& u.scrcpy == (if !scrcpy && (step == FillStep::ScrcpyByServer && server || step
                == FillStep::ScrcpyByAdb && adb) {
                found
            } else {
                t.scrcpy
            })
            &&& u.server == (if !server && (step == FillStep::ServerByScrcpy && scrcpy || step
                == FillStep::ServerByAdb && adb) {
                found
            } else {
                t.server
            })
            &&& u.adb == (if !adb && (step == FillStep::AdbByScrcpy && scrcpy || step
                == FillStep::AdbByServer && server) {
                found
            } else {
                t.adb
            })
            &&& wanted(t, step) && found != target(t, step) ==> u != t
        }),
{
}

} // verus!
