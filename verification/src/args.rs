//! Arguments for scrcpy: presets, and the list of common arguments to choose from.

use vstd::prelude::*;
use vstd::string::*;
use crate::text;

verus! {

/// What the menu of presets offers.
#[derive(Debug, Clone, Copy, PartialEq, Eq, Structural)]
pub enum StartPreset {
    /// Back to the initial arguments.
    Initial,
    /// The initial arguments with a limit on the longer side.
    Uhd2k,
    Uhd4k,
    Fhd1080,
    Hd720,
    /// Adds to or takes from the arguments as they are.
    NoAudio,
    WithAudio,
}

impl StartPreset {
    pub fn label(self) -> (r: &'static str)
        ensures
            r@ == match self {
                StartPreset::Initial => "无(--stay-awake)"@,
                StartPreset::Uhd2k => "2k 上限(最长边 ≤2560)"@,
                StartPreset::Uhd4k => "4k 上限(最长边 ≤3840)"@,
                StartPreset::Fhd1080 => "1k 上限(最长边 ≤1080)"@,
                StartPreset::Hd720 => "720p 上限(最长边 ≤720)"@,
                StartPreset::NoAudio => "不使用音频输出(--no-audio)"@,
                StartPreset::WithAudio => "指定使用音频输出(移除 --no-audio)"@,
            },
    {
        match self {
            StartPreset::Initial => "无(--stay-awake)",
            StartPreset::Uhd2k => "2k 上限(最长边 ≤2560)",
            StartPreset::Uhd4k => "4k 上限(最长边 ≤3840)",
            StartPreset::Fhd1080 => "1k 上限(最长边 ≤1080)",
            StartPreset::Hd720 => "720p 上限(最长边 ≤720)",
            StartPreset::NoAudio => "不使用音频输出(--no-audio)",
            StartPreset::WithAudio => "指定使用音频输出(移除 --no-audio)",
        }
    }

    /// The limit on the longer side that a preset sets, if it sets one.
    pub open spec fn limit(self) -> Option<u32> {
        match self {
            StartPreset::Uhd2k => Some(2560),
            StartPreset::Uhd4k => Some(3840),
            StartPreset::Fhd1080 => Some(1080),
            StartPreset::Hd720 => Some(720),
            _ => None,
        }
    }
}

/// The arguments to begin with.
pub fn base_args() -> (r: String)
    ensures
        r@ == "--stay-awake"@,
{
    "--stay-awake".to_owned()
}

/// The arguments for a limit on the longer side.
pub open spec fn limited(max_size: u32) -> Seq<char> {
    "--stay-awake"@ + " --max-size="@ + text::dec(max_size as nat)
}

/// A list of words as arguments.
pub open spec fn line(words: Seq<Seq<char>>) -> Seq<char> {
    text::joined(words, " "@)
}

/// The arguments that a preset makes of the present ones.
pub open spec fn preset_args(p: StartPreset, args: Seq<char>) -> Seq<char> {
    let w = text::words(args);
    match p {
        StartPreset::Initial => "--stay-awake"@,
        StartPreset::NoAudio => if w.contains("--no-audio"@) {
            args
        } else {
            line(w.push("--no-audio"@))
        },
        StartPreset::WithAudio => line(text::others(w, "--no-audio"@)),
        _ => limited(p.limit()->0),
    }
}

/// The longer side of a screen.
pub open spec fn longer(screen: (u32, u32)) -> u32 {
    if screen.0 >= screen.1 {
        screen.0
    } else {
        screen.1
    }
}

/// The remark that a device with a smaller screen will not reach a limit.
pub open spec fn too_small_text(native: u32) -> Seq<char> {
    "提示: 设备当前最长边只有 "@ + text::dec(native as nat)
        + "px,而 scrcpy 不会放大,实际输出仍是 "@ + text::dec(native as nat)
        + "px 档;想要更高分辨率需设备本身能输出(如 `adb shell wm size 3840x2160`,或开发者选项里的分辨率设定)"@
}

/// What is reported when a preset is chosen, given the screen of the device if it is known.
pub open spec fn preset_notes(
    p: StartPreset,
    args: Seq<char>,
    screen: Option<(u32, u32)>,
) -> Seq<Seq<char>> {
    let had = text::words(args).contains("--no-audio"@);
    match p {
        StartPreset::Initial => seq!["启动参数已重置: "@ + "--stay-awake"@],
        StartPreset::NoAudio => if had {
            seq!["参数已含 --no-audio,无需重复"@]
        } else {
            seq!["已追加 --no-audio(不使用音频输出)"@]
        },
        StartPreset::WithAudio => if had {
            seq!["已移除 --no-audio(scrcpy 默认转发音频输出)"@]
        } else {
            seq!["本就未含 --no-audio:scrcpy 默认开启音频输出,无需额外参数"@]
        },
        _ => {
            let max = p.limit()->0;
            let first = "启动参数已设为分辨率预设(最长边上限 "@ + text::dec(max as nat) + ")"@;
            if screen is Some && longer(screen->0) < max {
                seq![first, too_small_text(longer(screen->0))]
            } else {
                seq![first]
            }
        },
    }
}

fn set_res_preset(max_size: u32, screen: Option<(u32, u32)>) -> (r: (String, Vec<String>))
    ensures
        r.0@ == limited(max_size),
        text::texts(r.1@) == {
            let first = "启动参数已设为分辨率预设(最长边上限 "@ + text::dec(max_size as nat) + ")"@;
            if screen is Some && longer(screen->0) < max_size {
                seq![first, too_small_text(longer(screen->0))]
            } else {
                seq![first]
            }
        },
{
    let mut a = base_args();
    a.append(" --max-size=");
    text::push_dec(&mut a, max_size as u64);
    let mut notes: Vec<String> = Vec::new();
    let mut n = String::new();
    n.append("启动参数已设为分辨率预设(最长边上限 ");
    text::push_dec(&mut n, max_size as u64);
    n.append(")");
    let ghost first = n@;
    assert(first =~= "启动参数已设为分辨率预设(最长边上限 "@ + text::dec(max_size as nat) + ")"@);
    notes.push(n);
    assert(text::texts(notes@) =~= seq![first]);
    if let Some((w, h)) = screen {
        let native: u32 = if w >= h {
            w
        } else {
            h
        };
        if native < max_size {
            let mut t = String::new();
            t.append("提示: 设备当前最长边只有 ");
            text::push_dec(&mut t, native as u64);
            t.append("px,而 scrcpy 不会放大,实际输出仍是 ");
            text::push_dec(&mut t, native as u64);
            t.append(
                "px 档;想要更高分辨率需设备本身能输出(如 `adb shell wm size 3840x2160`,或开发者选项里的分辨率设定)",
            );
            let ghost second = t@;
            assert(second =~= too_small_text(native));
            notes.push(t);
            assert(text::texts(notes@) =~= seq![first, second]);
        }
    }
    (a, notes)
}

fn one_note(s: &str) -> (r: Vec<String>)
    ensures
        text::texts(r@) == seq![s@],
{
    let mut v: Vec<String> = Vec::new();
    v.push(s.to_owned());
    assert(text::texts(v@) =~= seq![s@]);
    v
}

/// Applies a preset to the arguments; returns the new ones and what to report.
pub fn apply_start_preset(p: StartPreset, args: &str, screen: Option<(u32, u32)>) -> (r: (
    String,
    Vec<String>,
))
    ensures
        r.0@ == preset_args(p, args@),
        text::texts(r.1@) == preset_notes(p, args@, screen),
{
    match p {
        StartPreset::Initial => {
            let mut n = String::new();
            n.append("启动参数已重置: ");
            n.append("--stay-awake");
            assert(n@ =~= "启动参数已重置: "@ + "--stay-awake"@);
            (base_args(), one_note(n.as_str()))
        },
        StartPreset::Uhd2k => set_res_preset(2560, screen),
        StartPreset::Uhd4k => set_res_preset(3840, screen),
        StartPreset::Fhd1080 => set_res_preset(1080, screen),
        StartPreset::Hd720 => set_res_preset(720, screen),
        StartPreset::NoAudio => {
            let mut w = text::split_words(args);
            if text::has_text(&w, "--no-audio") {
                (args.to_owned(), one_note("参数已含 --no-audio,无需重复"))
            } else {
                let ghost before = w@;
                w.push("--no-audio".to_owned());
                assert(text::texts(w@) =~= text::texts(before).push("--no-audio"@));
                (text::join(&w, " "), one_note("已追加 --no-audio(不使用音频输出)"))
            }
        },
        StartPreset::WithAudio => {
            let w = text::split_words(args);
            let had: bool = text::has_text(&w, "--no-audio");
            let rest = text::drop_text(&w, "--no-audio");
            let notes = if had {
                one_note("已移除 --no-audio(scrcpy 默认转发音频输出)")
            } else {
                one_note("本就未含 --no-audio:scrcpy 默认开启音频输出,无需额外参数")
            };
            (text::join(&rest, " "), notes)
        },
    }
}

proof fn blank_is_one_space()
    ensures
        " "@ == seq![' '],
{
    reveal_strlit(" ");
    assert(" "@ =~= seq![' ']);
}

proof fn no_audio_is_word()
    ensures
        text::is_word("--no-audio"@),
{
    reveal_strlit("--no-audio");
}

/// Audio off and on again leaves the arguments as they were, but for the blanks between them,
/// where audio was on to begin with.
pub proof fn audio_off_and_on(args: Seq<char>)
    requires
        !text::words(args).contains("--no-audio"@),
    ensures
        text::words(
            preset_args(StartPreset::WithAudio, preset_args(StartPreset::NoAudio, args)),
        ) == text::words(args),
{
    let w = text::words(args);
    let flag = "--no-audio"@;
    blank_is_one_space();
    no_audio_is_word();
    text::words_are_words(args);
    text::words_of_joined(w.push(flag));
    text::others_hold(w, flag);
    assert(w.push(flag).drop_last() =~= w);
    text::words_of_joined(w);
}

/// After the preset without audio the arguments say so, and once only: it does nothing when
/// chosen again.
pub proof fn no_audio_says_so(args: Seq<char>)
    ensures
        ({
            let once = preset_args(StartPreset::NoAudio, args);
            &&& text::words(once).contains("--no-audio"@)
            &&& preset_args(StartPreset::NoAudio, once) == once
        }),
{
    let w = text::words(args);
    let flag = "--no-audio"@;
    blank_is_one_space();
    no_audio_is_word();
    text::words_are_words(args);
    text::words_of_joined(w.push(flag));
    assert(w.push(flag)[w.len() as int] == flag);
}

/// After the preset with audio nothing in the arguments turns it off.
pub proof fn with_audio_clears(args: Seq<char>)
    ensures
        !text::words(preset_args(StartPreset::WithAudio, args)).contains("--no-audio"@),
{
    let o = text::others(text::words(args), "--no-audio"@);
    blank_is_one_space();
    text::words_are_words(args);
    text::others_hold(text::words(args), "--no-audio"@);
    assert forall|i: int| 0 <= i < o.len() implies text::is_word(#[trigger] o[i]) by {
        assert(o.contains(o[i]));
    }
    text::words_of_joined(o);
}

/// The arguments with one more at the end.
pub open spec fn with_flag(args: Seq<char>, flag: Seq<char>) -> Seq<char> {
    let base = text::trim(args);
    let f = text::trim(flag);
    if f.len() == 0 {
        args
    } else if base.len() == 0 {
        f
    } else {
        base + " "@ + f
    }
}

/// Adds an argument from the list; returns the arguments and what to report. An empty argument
/// is refused.
pub fn add_flag(args: &str, flag: &str) -> (r: (String, String))
    ensures
        r.0@ == with_flag(args@, flag@),
        r.1@ == (if text::trim(flag@).len() == 0 {
            "该参数文本为空,无法加入"@
        } else {
            "已加入参数: "@ + text::trim(flag@)
        }),
{
    let f = text::trimmed(flag);
    if f.as_str().is_empty() {
        return (args.to_owned(), "该参数文本为空,无法加入".to_owned());
    }
    let mut base = text::trimmed(args);
    let mut note = String::new();
    note.append("已加入参数: ");
    note.append(f.as_str());
    assert(note@ =~= "已加入参数: "@ + f@);
    if base.as_str().is_empty() {
        (f, note)
    } else {
        base.append(" ");
        base.append(f.as_str());
        (base, note)
    }
}

/// Takes an argument out wherever it stands; returns the arguments and what to report.
/// Nothing happens for an empty argument.
pub fn remove_flag(args: &str, flag: &str) -> (r: (String, Option<String>))
    ensures
        text::trim(flag@).len() == 0 ==> r.0@ == args@ && r.1 is None,
        text::trim(flag@).len() > 0 ==> r.0@ == line(
            text::others(text::words(args@), text::trim(flag@)),
        ) && r.1 is Some && r.1->0@ == "已从参数框移除: "@ + text::trim(flag@),
{
    let f = text::trimmed(flag);
    if f.as_str().is_empty() {
        return (args.to_owned(), None);
    }
    let w = text::split_words(args);
    let rest = text::drop_text(&w, f.as_str());
    let mut note = String::new();
    note.append("已从参数框移除: ");
    note.append(f.as_str());
    assert(note@ =~= "已从参数框移除: "@ + f@);
    (text::join(&rest, " "), Some(note))
}

/// A common argument, with its explanation.
pub struct ArgEntry {
    /// The argument; may be edited while the list is open.
    pub flag: String,
    pub name: &'static str,
    pub desc: &'static str,
    pub usage: &'static str,
}

/// The list of common arguments while it is open. It is made anew each time it is opened, so
/// edits last until it is closed.
pub struct ArgHelp {
    pub entries: Vec<ArgEntry>,
    pub selected: usize,
    /// The row being edited.
    pub editing: Option<usize>,
}

/// The argument of a row.
pub open spec fn flag_text(i: int) -> Seq<char> {
    if i == 0 {
        "--max-size=1920"@
    } else if i == 1 {
        "--max-fps=60"@
    } else if i == 2 {
        "--video-bit-rate=16M"@
    } else if i == 3 {
        "--video-codec=h265"@
    } else if i == 4 {
        "--no-audio"@
    } else if i == 5 {
        "--audio-codec=aac"@
    } else if i == 6 {
        "--turn-screen-off"@
    } else if i == 7 {
        "-w"@
    } else if i == 8 {
        "-f"@
    } else if i == 9 {
        "--always-on-top"@
    } else if i == 10 {
        "-t"@
    } else if i == 11 {
        "--window-title=scrcpy-pad"@
    } else if i == 12 {
        "--window-width=480"@
    } else if i == 13 {
        "--crop=1920:1080:0:0"@
    } else if i == 14 {
        "--orientation=90"@
    } else {
        Seq::empty()
    }
}

/// What a row is called.
pub open spec fn name_text(i: int) -> Seq<char> {
    if i == 0 {
        "画面清晰度上限"@
    } else if i == 1 {
        "帧率上限"@
    } else if i == 2 {
        "视频码率"@
    } else if i == 3 {
        "视频编码器"@
    } else if i == 4 {
        "关闭音频转发"@
    } else if i == 5 {
        "音频编码器"@
    } else if i == 6 {
        "启动即息屏"@
    } else if i == 7 {
        "保持唤醒"@
    } else if i == 8 {
        "全屏显示"@
    } else if i == 9 {
        "窗口置顶"@
    } else if i == 10 {
        "显示触摸提示"@
    } else if i == 11 {
        "自定义窗口标题"@
    } else if i == 12 {
        "初始窗口宽度"@
    } else if i == 13 {
        "画面裁剪"@
    } else if i == 14 {
        "画面旋转"@
    } else {
        Seq::empty()
    }
}

/// What the argument of a row does.
pub open spec fn desc_text(i: int) -> Seq<char> {
    if i == 0 {
        "限制镜像视频的最长边像素,另一条边按设备比例缩放。\n值越大越清晰、越耗带宽;低于设备原始分辨率还能明显降低延迟。\n默认 0(不限制,即设备原始分辨率)。"@
    } else if i == 1 {
        "限制屏幕采集帧率。数值越低越省资源,但画面/操作更“肉”。\n部分游戏建议降到 30~60 以获得更稳的延迟。"@
    } else if i == 2 {
        "编码码率,直接决定画面细节保留程度。\n网络/串流卡顿时可调低(如 4M),画面发糊时调高(如 20M)。\n默认 8M。"@
    } else if i == 3 {
        "可选 h264 / h265 / av1 / vp8 / vp9。\n同码率下 h265 比 h264 更清晰(设备需支持);\nav1 画质最好但仅 Android 11+ 且更吃 CPU。默认 h264。"@
    } else if i == 4 {
        "完全关闭音频转发(设备端照常出声)。\n打游戏不需要听声音时能省带宽、更稳。"@
    } else if i == 5 {
        "音频编码可选 opus / aac / flac / raw。\n默认 opus;兼容性问题时可换 aac。"@
    } else if i == 6 {
        "启动后立刻关闭设备屏幕(快捷键等效 -S)。\n串流打游戏时能省电并防止误触,画面不受影响。"@
    } else if i == 7 {
        "连接期间设备不休眠(stay-awake)。本程序已默认加入,无需重复。"@
    } else if i == 8 {
        "scrcpy 窗口以全屏模式打开。"@
    } else if i == 9 {
        "让 scrcpy 画面窗口始终显示在最上层,不被其它窗口遮挡。"@
    } else if i == 10 {
        "开启系统“显示触摸”提示(仅显示物理触摸,非本程序注入)。"@
    } else if i == 11 {
        "给 scrcpy 窗口设置自定义标题,便于区分多开实例。"@
    } else if i == 12 {
        "设置 scrcpy 窗口初始宽度(高度按比例自动)。\n值设为 0 表示自动。"@
    } else if i == 13 {
        "只显示设备屏幕的一部分(宽:高:x:y),\n适合隐藏通知栏/黑边,裁剪是在设备端完成的。"@
    } else if i == 14 {
        "把画面旋转 0/90/180/270 度;也可用 flip 前缀镜像。\n横屏游戏旋转 90 度后,坐标与截图会按旋转后画面算。"@
    } else {
        Seq::empty()
    }
}

/// How the argument of a row is used.
pub open spec fn usage_text(i: int) -> Seq<char> {
    if i == 0 {
        "--max-size=1920\n\n手机是 1080x2400 时加 --max-size=1080 就是 1k;\n模拟器/真机 4k 屏可用 --max-size=3840。"@
    } else if i == 1 {
        "--max-fps=60"@
    } else if i == 2 {
        "--video-bit-rate=12M"@
    } else if i == 3 {
        "--video-codec=h265"@
    } else if i == 4 {
        "--no-audio"@
    } else if i == 5 {
        "--audio-codec=aac"@
    } else if i == 6 {
        "--turn-screen-off"@
    } else if i == 7 {
        "-w 或 --stay-awake"@
    } else if i == 8 {
        "-f 或 --fullscreen"@
    } else if i == 9 {
        "--always-on-top"@
    } else if i == 10 {
        "-t 或 --show-touches"@
    } else if i == 11 {
        "--window-title=打游戏"@
    } else if i == 12 {
        "--window-width=480"@
    } else if i == 13 {
        "--crop=2400:1080:0:1320"@
    } else if i == 14 {
        "--orientation=90"@
    } else {
        Seq::empty()
    }
}

fn entry(flag: &str, name: &'static str, desc: &'static str, usage: &'static str) -> (r: ArgEntry)
    ensures
        r.flag@ == flag@,
        r.name@ == name@,
        r.desc@ == desc@,
        r.usage@ == usage@,
{
    ArgEntry { flag: flag.to_owned(), name, desc, usage }
}

impl ArgHelp {
    /// The list as it opens.
    pub fn defaults() -> (r: Self)
        ensures
            r.entries@.len() == 15,
            forall|i: int|
                0 <= i < 15 ==> (#[trigger] r.entries@[i]).flag@ == flag_text(i)
                    && r.entries@[i].name@ == name_text(i) && r.entries@[i].desc@ == desc_text(i)
                    && r.entries@[i].usage@ == usage_text(i),
            r.selected == 0,
            r.editing is None,
    {
        let mut v: Vec<ArgEntry> = Vec::new();
        v.push(
            entry(
                "--max-size=1920",
                "画面清晰度上限",
                "限制镜像视频的最长边像素,另一条边按设备比例缩放。\n值越大越清晰、越耗带宽;低于设备原始分辨率还能明显降低延迟。\n默认 0(不限制,即设备原始分辨率)。",
                "--max-size=1920\n\n手机是 1080x2400 时加 --max-size=1080 就是 1k;\n模拟器/真机 4k 屏可用 --max-size=3840。",
            ),
        );
        v.push(
            entry(
                "--max-fps=60",
                "帧率上限",
                "限制屏幕采集帧率。数值越低越省资源,但画面/操作更“肉”。\n部分游戏建议降到 30~60 以获得更稳的延迟。",
                "--max-fps=60",
            ),
        );
        v.push(
            entry(
                "--video-bit-rate=16M",
                "视频码率",
                "编码码率,直接决定画面细节保留程度。\n网络/串流卡顿时可调低(如 4M),画面发糊时调高(如 20M)。\n默认 8M。",
                "--video-bit-rate=12M",
            ),
        );
        v.push(
            entry(
                "--video-codec=h265",
                "视频编码器",
                "可选 h264 / h265 / av1 / vp8 / vp9。\n同码率下 h265 比 h264 更清晰(设备需支持);\nav1 画质最好但仅 Android 11+ 且更吃 CPU。默认 h264。",
                "--video-codec=h265",
            ),
        );
        v.push(
            entry(
                "--no-audio",
                "关闭音频转发",
                "完全关闭音频转发(设备端照常出声)。\n打游戏不需要听声音时能省带宽、更稳。",
                "--no-audio",
            ),
        );
        v.push(
            entry(
                "--audio-codec=aac",
                "音频编码器",
                "音频编码可选 opus / aac / flac / raw。\n默认 opus;兼容性问题时可换 aac。",
                "--audio-codec=aac",
            ),
        );
        v.push(
            entry(
                "--turn-screen-off",
                "启动即息屏",
                "启动后立刻关闭设备屏幕(快捷键等效 -S)。\n串流打游戏时能省电并防止误触,画面不受影响。",
                "--turn-screen-off",
            ),
        );
        v.push(
            entry(
                "-w",
                "保持唤醒",
                "连接期间设备不休眠(stay-awake)。本程序已默认加入,无需重复。",
                "-w 或 --stay-awake",
            ),
        );
        v.push(
            entry(
                "-f",
                "全屏显示",
                "scrcpy 窗口以全屏模式打开。",
                "-f 或 --fullscreen",
            ),
        );
        v.push(
            entry(
                "--always-on-top",
                "窗口置顶",
                "让 scrcpy 画面窗口始终显示在最上层,不被其它窗口遮挡。",
                "--always-on-top",
            ),
        );
        v.push(
            entry(
                "-t",
                "显示触摸提示",
                "开启系统“显示触摸”提示(仅显示物理触摸,非本程序注入)。",
                "-t 或 --show-touches",
            ),
        );
        v.push(
            entry(
                "--window-title=scrcpy-pad",
                "自定义窗口标题",
                "给 scrcpy 窗口设置自定义标题,便于区分多开实例。",
                "--window-title=打游戏",
            ),
        );
        v.push(
            entry(
                "--window-width=480",
                "初始窗口宽度",
                "设置 scrcpy 窗口初始宽度(高度按比例自动)。\n值设为 0 表示自动。",
                "--window-width=480",
            ),
        );
        v.push(
            entry(
                "--crop=1920:1080:0:0",
                "画面裁剪",
                "只显示设备屏幕的一部分(宽:高:x:y),\n适合隐藏通知栏/黑边,裁剪是在设备端完成的。",
                "--crop=2400:1080:0:1320",
            ),
        );
        v.push(
            entry(
                "--orientation=90",
                "画面旋转",
                "把画面旋转 0/90/180/270 度;也可用 flip 前缀镜像。\n横屏游戏旋转 90 度后,坐标与截图会按旋转后画面算。",
                "--orientation=90",
            ),
        );
        ArgHelp { entries: v, selected: 0, editing: None }
    }

    /// A click on a row selects it; a double click opens it for editing too.
    pub fn click(&mut self, i: usize, double: bool)
        ensures
            final(self).entries == old(self).entries,
            final(self).selected == i,
            final(self).editing == (if double {
                Some(i)
            } else {
                old(self).editing
            }),
    {
        self.selected = i;
        if double {
            self.editing = Some(i);
        }
    }

    /// Ends editing.
    pub fn stop_editing(&mut self)
        ensures
            final(self).entries == old(self).entries,
            final(self).selected == old(self).selected,
            final(self).editing is None,
    {
        self.editing = None;
    }

    /// The row that is explained: the selected one, or the last.
    pub fn shown(&self) -> (r: Option<usize>)
        ensures
            self.entries@.len() == 0 ==> r is None,
            self.entries@.len() > 0 ==> r == Some(
                if self.selected < self.entries@.len() {
                    self.selected
                } else {
                    (self.entries@.len() - 1) as usize
                },
            ),
    {
        let n: usize = self.entries.len();
        if n == 0 {
            None
        } else if self.selected < n {
            Some(self.selected)
        } else {
            Some(n - 1)
        }
    }
}

/// Adding an argument puts its words behind all others; one that is blank adds none.
pub proof fn a_flag_is_added_last(args: Seq<char>, flag: Seq<char>)
    ensures
        text::words(with_flag(args, flag)) == text::words(args) + text::words(flag),
{
    let base = text::trim(args);
    let f = text::trim(flag);
    blank_is_one_space();
    text::words_of_trimmed(args);
    text::words_of_trimmed(flag);
    text::words_of_two(base, ' ', f);
    assert(text::words(Seq::<char>::empty()) =~= Seq::<Seq<char>>::empty());
    if f.len() == 0 {
        assert(f =~= Seq::<char>::empty());
        assert(text::words(args) + text::words(flag) =~= text::words(args));
    } else if base.len() == 0 {
        assert(base =~= Seq::<char>::empty());
        assert(text::words(args) + text::words(flag) =~= text::words(flag));
    }
}

/// Taking an argument out takes it out wherever it stands, and leaves the others in order; what
/// was added and is taken out again leaves the arguments that there were.
pub proof fn a_flag_is_taken_out(args: Seq<char>, flag: Seq<char>)
    requires
        text::is_word(flag),
    ensures
        !text::words(line(text::others(text::words(args), flag))).contains(flag),
        forall|w: Seq<char>|
            w != flag ==> (#[trigger] text::words(
                line(text::others(text::words(args), flag)),
            ).contains(w) <==> text::words(args).contains(w)),
        !text::words(args).contains(flag) ==> text::words(
            line(text::others(text::words(with_flag(args, flag)), flag)),
        ) == text::words(args),
{
    let w = text::words(args);
    blank_is_one_space();
    text::words_are_words(args);
    text::others_hold(w, flag);
    let o = text::others(w, flag);
    assert forall|i: int| 0 <= i < o.len() implies text::is_word(#[trigger] o[i]) by {
        assert(o.contains(o[i]));
        assert(w.contains(o[i]));
    }
    text::words_of_joined(o);
    a_flag_is_added_last(args, flag);
    if !w.contains(flag) {
        text::trim_leaves_clean(flag);
        text::words_of_joined(seq![flag]);
        assert(text::joined(seq![flag], seq![' ']) == flag);
        assert(w + seq![flag] =~= w.push(flag));
        assert(w.push(flag).drop_last() =~= w);
    }
}

/// Each preset with a limit starts from the initial arguments and sets its own limit: 2560,
/// 3840, 1080 or 720.
pub proof fn presets_set_their_limits(args: Seq<char>)
    ensures
        preset_args(StartPreset::Uhd2k, args) == "--stay-awake --max-size="@ + text::dec(2560),
        preset_args(StartPreset::Uhd4k, args) == "--stay-awake --max-size="@ + text::dec(3840),
        preset_args(StartPreset::Fhd1080, args) == "--stay-awake --max-size="@ + text::dec(1080),
        preset_args(StartPreset::Hd720, args) == "--stay-awake --max-size="@ + text::dec(720),
        preset_args(StartPreset::Initial, args) == "--stay-awake"@,
{
    reveal_strlit("--stay-awake");
    reveal_strlit(" --max-size=");
    reveal_strlit("--stay-awake --max-size=");
    assert("--stay-awake"@ + " --max-size="@ =~= "--stay-awake --max-size="@);
}

/// A preset with a limit warns when the device cannot reach it: exactly when the longer side of
/// its screen, whichever that is, is below the limit.
pub proof fn small_screens_are_warned_of(p: StartPreset, args: Seq<char>, w: u32, h: u32)
    requires
        p.limit() is Some,
    ensures
        preset_notes(p, args, None).len() == 1,
        preset_notes(p, args, Some((w, h))).len() == (if w < p.limit()->0 && h < p.limit()->0 {
            2
        } else {
            1nat
        }),
        preset_notes(p, args, Some((w, h))) == preset_notes(p, args, Some((h, w))),
{
}

} // verus!
