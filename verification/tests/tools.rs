use scrcpy_pad::adb::{
    adb_bin, adb_bin_now, adb_exe_name, adb_version, device_info, display_size, exe_or_default,
    find_adb, find_adb_in_dir, find_scrcpy, find_scrcpy_portable, find_scrcpy_portable_under,
    find_server, first_existing, forward_args, is_scrcpy_dir_name, launch_args, list_devices,
    parse_display_size, push_args, screen_size, screencap_png, scrcpy_exe_name, scrcpy_version,
    serial_args, server_args, server_places, set_adb_bin, size_label, socket_name, step_args, step_error,
    unforward_args, AdbBin, Base, Candidate, DirTree, ServerStep, SizeError,
};
use scrcpy_pad::args::{
    add_flag, apply_start_preset, base_args, remove_flag, ArgHelp, StartPreset,
};
use scrcpy_pad::suite::{
    accepted, adb_changed, adb_note, effective_adb, startup_note, test_scrcpy, version_or,
    Connecting, Devices, FillStep, Suite, CONNECT_TRIES,
};

fn dir(name: &str, exe: Option<&str>, subs: Vec<DirTree>) -> DirTree {
    DirTree { name: name.to_string(), exe: exe.map(|f| f.to_string()), subs }
}

fn cand(path: &str, is_file: bool) -> Candidate {
    Candidate { path: path.to_string(), is_file }
}

fn strings(v: &[&str]) -> Vec<String> {
    v.iter().map(|s| s.to_string()).collect()
}

#[test]
fn find_scrcpy_portable_in_sibling_and_nested_dirs() {
    let nested = dir(
        "scrcpy-win64",
        None,
        vec![dir("bin", Some("/root/prog/scrcpy-win64/bin/scrcpy"), Vec::new())],
    );
    let sibling =
        dir("scrcpy-linux-x86_64-vX", Some("/root/scrcpy-linux-x86_64-vX/scrcpy"), Vec::new());
    let prog = dir("prog", None, Vec::new());
    assert_eq!(
        find_scrcpy_portable_under(&vec![prog, sibling]),
        Some("/root/scrcpy-linux-x86_64-vX/scrcpy".to_string())
    );
    assert_eq!(
        find_scrcpy_portable(&vec![vec![dir("prog", None, Vec::new())], vec![nested]]),
        Some("/root/prog/scrcpy-win64/bin/scrcpy".to_string())
    );
}

#[test]
fn ignore_dirs_not_starting_with_scrcpy() {
    let other = dir("some-tool", Some("/root/some-tool/scrcpy"), Vec::new());
    assert_eq!(find_scrcpy_portable_under(&vec![other]), None);
    assert!(is_scrcpy_dir_name("SCRCPY-win64"));
    assert!(!is_scrcpy_dir_name("my-scrcpy"));
}

#[test]
fn a_portable_scrcpy_too_deep_is_not_found() {
    let deep = dir(
        "scrcpy",
        None,
        vec![dir(
            "a",
            None,
            vec![dir("b", None, vec![dir("c", None, vec![dir("d", Some("/x/scrcpy"), Vec::new())])])],
        )],
    );
    assert_eq!(find_scrcpy_portable_under(&vec![deep]), None);
}

#[test]
fn parse_display_size_prefers_current_orientation() {
    let out = "  Display: mDisplayId=0\n\
             init=2772x1280 1dpi mMinSizeOfResizeableTaskDp=200 cur=2772x1280 app=2772x1280 rng=1280x1280-2772x2772\n\
             init=1280x2772 520dpi mMinSizeOfResizeableTaskDp=200 cur=2772x1280 app=2772x1280 rng=1280x1280-2772x2772\n";
    assert_eq!(parse_display_size(out), Some((2772, 1280)));
    assert_eq!(parse_display_size("no size here"), None);
}

#[test]
fn screen_size_is_read_from_wm() {
    assert_eq!(screen_size("Physical size: 1080x2400\n"), Ok((1080, 2400)));
    assert_eq!(
        screen_size("Physical size: 1080x2400\nOverride size: 720x1600\n"),
        Ok((1080, 2400))
    );
    assert_eq!(
        screen_size("Override size: 720x1600\r\nPhysical size: 1080x2400\r\n"),
        Ok((1080, 2400))
    );
    assert_eq!(screen_size("Override size: 720x1600\n"), Ok((720, 1600)));
    assert_eq!(
        screen_size("Physical size: none\nOverride size: 720x1600\n"),
        Err(SizeError::BadWidth)
    );
    assert_eq!(
        display_size(None, "Physical size: 1080x2400\nOverride size: 720x1600\n"),
        Ok((1080, 2400))
    );
    assert_eq!(screen_size("nothing"), Err(SizeError::BadWidth));
    assert_eq!(screen_size("size: 12"), Err(SizeError::NoHeight));
    assert_eq!(screen_size("size: 12xab"), Err(SizeError::BadHeight));
    assert!(screen_size("").is_err());
    assert_eq!(display_size(Some("cur=100x50"), "Physical size: 1x2"), Ok((100, 50)));
    assert_eq!(display_size(Some("nothing"), "Physical size: 1x2"), Ok((1, 2)));
    assert_eq!(display_size(None, "Physical size: 1x2"), Ok((1, 2)));
}

#[test]
fn devices_and_versions_are_read() {
    let out = "List of devices attached\nABC\tdevice\nDEF\tunauthorized\nGHI\tdevice\n\n";
    assert_eq!(list_devices(out), strings(&["ABC", "GHI"]));
    assert!(list_devices("").is_empty());
    assert_eq!(
        adb_version("Android Debug Bridge version 1.0.41\nVersion 35"),
        Some("Android Debug Bridge version 1.0.41".to_string())
    );
    assert_eq!(adb_version("nothing"), None);
    assert_eq!(scrcpy_version("scrcpy 3.1 <https://x>\n"), Some("3.1".to_string()));
    assert_eq!(scrcpy_version("scrcpy"), None);
}

#[test]
fn programs_are_found_in_order() {
    assert_eq!(adb_exe_name(true), "adb.exe");
    assert_eq!(adb_exe_name(false), "adb");
    assert_eq!(scrcpy_exe_name(true), "scrcpy.exe");
    assert_eq!(scrcpy_exe_name(false), "scrcpy");
    let installed = vec![cand("/a", false), cand("/b", true), cand("/c", true)];
    assert_eq!(first_existing(&installed), Some("/b".to_string()));
    assert_eq!(find_scrcpy(None, &installed, Some("/p".into())), Some("/b".to_string()));
    assert_eq!(find_scrcpy(Some("/path".into()), &installed, None), Some("/path".to_string()));
    assert_eq!(find_scrcpy(None, &Vec::new(), Some("/p".into())), Some("/p".to_string()));
    assert_eq!(find_adb_in_dir(cand("/d/adb", true)), Some("/d/adb".to_string()));
    assert_eq!(find_adb_in_dir(cand("/d/adb", false)), None);
    assert_eq!(
        find_adb(Some(cand("/d/adb", true)), Some("/path/adb".into()), &installed),
        Some("/d/adb".to_string())
    );
    assert_eq!(
        find_adb(Some(cand("/d/adb", false)), Some("/path/adb".into()), &installed),
        Some("/path/adb".to_string())
    );
    assert_eq!(find_adb(None, None, &installed), Some("/b".to_string()));
    let shared = vec![cand("/usr/share/scrcpy/scrcpy-server", true)];
    assert_eq!(
        find_server(Some(cand("/d/scrcpy-server", true)), true, &shared),
        Some("/d/scrcpy-server".to_string())
    );
    assert_eq!(
        find_server(None, true, &shared),
        Some("/usr/share/scrcpy/scrcpy-server".to_string())
    );
    assert_eq!(find_server(None, false, &shared), None);
    let places = server_places();
    assert!(places.iter().all(|p| p.base == Base::Fixed));
    assert_eq!(
        places.iter().map(|p| p.tail).collect::<Vec<_>>(),
        vec!["/usr/share/scrcpy/scrcpy-server", "/usr/local/share/scrcpy/scrcpy-server"]
    );
}

#[test]
fn the_chosen_adb_is_used() {
    let mut bin = AdbBin { path: None };
    assert_eq!(adb_bin(&bin), "adb");
    assert_eq!(adb_bin_now(&bin), None);
    set_adb_bin(&mut bin, Some("/x/adb".into()));
    assert_eq!(adb_bin(&bin), "/x/adb");
    assert_eq!(adb_bin_now(&bin), Some("/x/adb".to_string()));
}

#[test]
fn command_lines_name_the_device() {
    assert!(serial_args("").is_empty());
    assert_eq!(serial_args("S"), strings(&["-s", "S"]));
    assert_eq!(socket_name(0x1a2b3c4d), "scrcpy_1a2b3c4d");
    assert_eq!(
        push_args("S", "/srv"),
        strings(&["-s", "S", "push", "/srv", "/data/local/tmp/scrcpy-server-pad.jar"])
    );
    assert_eq!(
        forward_args("", 28383, 1),
        strings(&["forward", "tcp:28383", "localabstract:scrcpy_00000001"])
    );
    assert_eq!(unforward_args("S", 5), strings(&["-s", "S", "forward", "--remove", "tcp:5"]));
    let v = server_args("S", "3.1", 0x1a2b3c4d);
    assert_eq!(v[..3], strings(&["-s", "S", "shell"])[..]);
    assert!(v[3].contains("com.genymobile.scrcpy.Server 3.1 scid=1a2b3c4d"));
    assert_eq!(
        launch_args("S", "  --no-audio   -f "),
        strings(&["-s", "S", "--no-audio", "-f"])
    );
    assert_eq!(exe_or_default("  "), "scrcpy");
    assert_eq!(exe_or_default("/x/scrcpy"), "/x/scrcpy");
}

#[test]
fn a_screenshot_needs_bytes() {
    assert_eq!(screencap_png(true, vec![1, 2]), Some(vec![1, 2]));
    assert_eq!(screencap_png(false, vec![1, 2]), None);
    assert_eq!(screencap_png(true, Vec::new()), None);
    assert_eq!(size_label(Some((3, 4))), "3x4");
    assert_eq!(size_label(None), "未知");
    let info = device_info("S", "brand", "model", "14", Some((3, 4)), "linux", "x86_64", "3.1");
    assert_eq!(info.serial, "S");
    assert_eq!((info.screen.as_str(), info.host_os.as_str()), ("3x4", "linux x86_64"));
}

#[test]
fn presets_set_and_limit() {
    assert_eq!(base_args(), "--stay-awake");
    let (a, n) = apply_start_preset(StartPreset::Uhd4k, "anything", Some((1080, 2400)));
    assert_eq!(a, "--stay-awake --max-size=3840");
    assert_eq!(n.len(), 2);
    assert_eq!(n[0], "启动参数已设为分辨率预设(最长边上限 3840)");
    assert!(n[1].starts_with("提示: 设备当前最长边只有 2400px,而 scrcpy 不会放大,实际输出仍是 2400px 档;"));
    let (a, n) = apply_start_preset(StartPreset::Hd720, "", Some((1080, 2400)));
    assert_eq!((a.as_str(), n.len()), ("--stay-awake --max-size=720", 1));
    let (a, n) = apply_start_preset(StartPreset::Uhd2k, "", None);
    assert_eq!((a.as_str(), n.len()), ("--stay-awake --max-size=2560", 1));
    let (a, _) = apply_start_preset(StartPreset::Fhd1080, "", None);
    assert_eq!(a, "--stay-awake --max-size=1080");
    let (a, n) = apply_start_preset(StartPreset::Initial, "x y", None);
    assert_eq!((a.as_str(), n[0].as_str()), ("--stay-awake", "启动参数已重置: --stay-awake"));
    assert_eq!(StartPreset::NoAudio.label(), "不使用音频输出(--no-audio)");
}

#[test]
fn audio_presets_undo_each_other() {
    let (a, n) = apply_start_preset(StartPreset::NoAudio, " -f   --stay-awake ", None);
    assert_eq!(a, "-f --stay-awake --no-audio");
    assert_eq!(n, strings(&["已追加 --no-audio(不使用音频输出)"]));
    let (b, n) = apply_start_preset(StartPreset::NoAudio, &a, None);
    assert_eq!(b, a);
    assert_eq!(n, strings(&["参数已含 --no-audio,无需重复"]));
    let (c, n) = apply_start_preset(StartPreset::WithAudio, &a, None);
    assert_eq!(c, "-f --stay-awake");
    assert_eq!(n, strings(&["已移除 --no-audio(scrcpy 默认转发音频输出)"]));
    let (d, n) = apply_start_preset(StartPreset::WithAudio, &c, None);
    assert_eq!(d, c);
    assert_eq!(n, strings(&["本就未含 --no-audio:scrcpy 默认开启音频输出,无需额外参数"]));
}

#[test]
fn flags_are_added_and_taken_out() {
    assert_eq!(
        add_flag(" -f ", " --max-fps=60 "),
        ("-f --max-fps=60".to_string(), "已加入参数: --max-fps=60".to_string())
    );
    assert_eq!(add_flag("  ", "-w").0, "-w");
    assert_eq!(add_flag(" -f ", "  "), (" -f ".to_string(), "该参数文本为空,无法加入".to_string()));
    assert_eq!(
        remove_flag("-f -w -f", "-f"),
        ("-w".to_string(), Some("已从参数框移除: -f".to_string()))
    );
    assert_eq!(remove_flag("-f  -w", " "), ("-f  -w".to_string(), None));
}

#[test]
fn the_argument_list_opens_anew() {
    let mut h = ArgHelp::defaults();
    assert_eq!(h.entries.len(), 15);
    assert_eq!(h.entries[0].flag, "--max-size=1920");
    assert_eq!(h.entries[14].flag, "--orientation=90");
    assert_eq!(h.entries[7].name, "保持唤醒");
    assert_eq!(h.shown(), Some(0));
    h.click(3, false);
    assert_eq!((h.selected, h.editing), (3, None));
    h.click(4, true);
    assert_eq!((h.selected, h.editing), (4, Some(4)));
    h.stop_editing();
    assert_eq!(h.editing, None);
    h.selected = 99;
    assert_eq!(h.shown(), Some(14));
    h.entries.clear();
    assert_eq!(h.shown(), None);
}

#[test]
fn paths_complete_one_another() {
    let mut s = Suite::new(" /d/scrcpy ".into(), String::new(), String::new());
    assert!(s.begin());
    assert!(!s.begin(), "nothing changed since");
    let mut step = Some(FillStep::ServerByScrcpy);
    let mut notes = Vec::new();
    while let Some(st) = step {
        if let Some(from) = s.wants(st) {
            let found = match st {
                FillStep::ServerByScrcpy => Some(format!("{from}-server")),
                FillStep::AdbByScrcpy => None,
                FillStep::AdbByServer => Some("/d/adb".to_string()),
                _ => panic!("no other path is missing"),
            };
            notes.extend(s.fill(st, found));
        }
        step = st.next();
    }
    assert_eq!(notes, strings(&["server 已自动补齐: /d/scrcpy-server", "adb 已自动补齐: /d/adb"]));
    assert_eq!(s.scrcpy_path, " /d/scrcpy ", "what was entered stays");
    assert!(s.begin(), "the completed paths are looked at once more");
    assert_eq!(s.fill(FillStep::ServerByAdb, Some("/other".into())), None);
    assert_eq!(s.server_path, "/d/scrcpy-server");
    s.forget();
    assert!(s.begin());
    assert_eq!(s.manual_adb(), Some("/d/adb".to_string()));
    assert_eq!(s.given_scrcpy(), Some("/d/scrcpy".to_string()));
    let mut none = Suite::new(String::new(), String::new(), String::new());
    assert!(!none.begin());
    assert_eq!(none.wants(FillStep::ScrcpyByAdb), None);
}

#[test]
fn the_adb_in_use_is_reported() {
    let m = || Some("/m".to_string());
    let f = || Some("/f".to_string());
    assert_eq!(effective_adb(m(), true, f()), m());
    assert_eq!(effective_adb(m(), false, f()), f());
    assert_eq!(effective_adb(None, true, None), None);
    assert!(adb_changed(&m(), &f()));
    assert!(adb_changed(&m(), &None));
    assert!(!adb_changed(&None, &None));
    assert_eq!(adb_note(&m(), true), "adb: /m");
    assert_eq!(
        adb_note(&None, true),
        "未找到 adb(设备列表将为空): 请将 adb.exe 所在目录加入 PATH,或手动指定"
    );
    assert_eq!(
        adb_note(&None, false),
        "未找到 adb(设备列表将为空): 请将 adb.exe 所在目录加入 PATH,或在左栏手动指定"
    );
    assert_eq!(startup_note(&m()), "已自动找到 scrcpy: /m");
    assert_eq!(startup_note(&None), "未找到 scrcpy,请在左栏手动指定路径");
}

#[test]
fn the_selection_follows_the_list() {
    let mut d = Devices::new(strings(&["A", "B"]));
    d.selected = 1;
    assert_eq!(d.serial(), "B");
    assert_eq!(d.refresh(strings(&["C"])), "设备已刷新,共 1 台");
    assert_eq!((d.selected, d.serial().as_str()), (0, "C"));
    d.refresh(Vec::new());
    assert_eq!(d.serial(), "");
}

#[test]
fn a_test_of_scrcpy_is_judged() {
    let v = Some("3.1".to_string());
    let t = test_scrcpy(&v, true, "/srv");
    assert!(t.ok);
    assert_eq!(t.msg, "scrcpy 3.1 · server 就绪");
    assert_eq!(t.note, "scrcpy 测试通过: 版本 3.1,server: /srv");
    let t = test_scrcpy(&v, false, "/srv");
    assert!(!t.ok);
    assert_eq!(t.msg, "scrcpy 3.1 可用,但 scrcpy-server 不存在,请指定");
    assert_eq!(t.note, "scrcpy 测试: server 文件缺失");
    let t = test_scrcpy(&None, true, "/srv");
    assert!(!t.ok);
    assert_eq!(t.msg, "无法运行 scrcpy,请检查程序路径");
    assert_eq!(t.note, "scrcpy 测试失败: 无法执行(检查路径)");
    assert_eq!(version_or("2.0", None, "4.1"), "2.0");
    assert_eq!(version_or("", Some("3.1".into()), "4.1"), "3.1");
    assert_eq!(version_or("", None, "4.1"), "4.1");
}

#[test]
fn the_server_is_started_step_by_step() {
    let mut steps = Vec::new();
    let mut at = Some(ServerStep::Push);
    while let Some(s) = at {
        steps.push(step_args(s, "", "/srv", "3.1", 1, 5)[0].clone());
        at = s.next();
    }
    assert_eq!(steps, strings(&["push", "forward", "shell"]));
    assert_eq!(step_error(ServerStep::Push, true, "x"), "adb push 失败: x");
    assert_eq!(step_error(ServerStep::Push, false, "x"), "adb push scrcpy-server 失败: x");
    assert_eq!(step_error(ServerStep::Forward, true, "x"), "adb forward 失败: x");
    assert_eq!(step_error(ServerStep::Run, false, "x"), "启动 scrcpy-server 失败: x");
}

#[test]
fn connecting_is_tried_often_enough() {
    assert_eq!(accepted(&Ok(1)), Ok(()));
    assert_eq!(accepted(&Ok(0)), Err("设备侧 socket 未就绪(EOF)".to_string()));
    assert_eq!(accepted(&Err("x".into())), Err("等待 dummy 字节失败: x".to_string()));
    let mut c = Connecting::new();
    let mut n = 1;
    while c.failed(format!("e{n}")) {
        n += 1;
    }
    assert_eq!(n, CONNECT_TRIES);
    assert_eq!(c.timeout(), "连接控制通道超时: e20");
}
