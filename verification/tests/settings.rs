use scrcpy_pad::settings::{
    looked_at, nearest_existing_dir, stamped, without_bom, Looked, PathKind, Settings, SettingsCache,
};

fn looked(kind: PathKind, near: Option<&str>) -> Looked {
    Looked { kind, near: near.map(|s| s.to_string()) }
}

fn missing() -> Looked {
    looked(PathKind::Missing, None)
}

#[test]
fn sanitize_drops_nonexistent_paths_but_keeps_location_hint() {
    let dir = "/tmp";
    let mut s = Settings {
        scrcpy_path: "  /tmp/scrcpy-pad-这个文件不存在.exe  ".into(),
        server_path: String::new(),
        adb_path: String::new(),
        scrcpy_dir: String::new(),
        remember_paths: true,
        scrcpy_args: "--stay-awake".into(),
        selected_serial: " ABC123 ".into(),
        saved_at: 0,
    };
    assert_eq!(s.paths_to_look_at().1, "/tmp/scrcpy-pad-这个文件不存在.exe");
    let gone = looked(PathKind::Missing, Some(dir));
    assert!(
        s.sanitize(PathKind::Missing, &gone, &missing(), &missing()),
        "存在死路径时 sanitize 应报告改动"
    );
    assert_eq!(s.scrcpy_path, "", "不存在的文件必须清空");
    assert_eq!(s.selected_serial, "ABC123", "序列号应去掉首尾空白");
    assert_eq!(s.scrcpy_args, "--stay-awake", "启动参数不受影响");
    assert_eq!(
        s.scrcpy_dir, dir,
        "死路径的位置线索必须保留,否则无法在附近重新找到 scrcpy"
    );
    assert_eq!(s.search_dirs(), vec![dir.to_string()]);
    assert!(!s.sanitize(PathKind::Dir, &missing(), &missing(), &missing()));
}

#[test]
fn sanitize_accepts_a_directory_as_scrcpy_location() {
    let dir = "/tmp";
    let mut s = Settings {
        scrcpy_path: dir.to_string(),
        scrcpy_dir: String::new(),
        ..Settings::default()
    };
    let found = looked(PathKind::Dir, None);
    assert!(s.sanitize(PathKind::Missing, &found, &missing(), &missing()));
    assert_eq!(s.scrcpy_path, "", "目录不该留在可执行文件栏里");
    assert_eq!(
        s.scrcpy_dir, dir,
        "目录必须被记为 scrcpy 目录,启动时才好在里面找 scrcpy.exe"
    );
    assert!(s.has_any_path());
    assert_eq!(s.search_dirs(), vec![dir.to_string()]);
}

#[test]
fn sanitize_moves_a_file_out_of_the_directory_field() {
    let mut s = Settings { scrcpy_dir: " /opt/scrcpy/scrcpy ".into(), ..Settings::default() };
    assert!(s.sanitize(PathKind::File, &missing(), &missing(), &missing()));
    assert_eq!(s.scrcpy_path, "/opt/scrcpy/scrcpy");
    assert_eq!(s.scrcpy_dir, "");
    // with a program known already, a file in the directory field is only dropped
    let mut t = Settings {
        scrcpy_dir: "/opt/x".into(),
        scrcpy_path: "/usr/bin/scrcpy".into(),
        ..Settings::default()
    };
    assert!(t.sanitize(PathKind::File, &looked(PathKind::File, None), &missing(), &missing()));
    assert_eq!(t.scrcpy_path, "/usr/bin/scrcpy");
    assert_eq!(t.scrcpy_dir, "");
}

#[test]
fn sanitize_settles_after_one_run() {
    let mut s = Settings {
        scrcpy_path: "/a/b/scrcpy".into(),
        adb_path: " /a/adb ".into(),
        ..Settings::default()
    };
    let scrcpy = looked(PathKind::Missing, Some("/a"));
    let adb = looked(PathKind::File, None);
    assert!(s.sanitize(PathKind::Missing, &scrcpy, &missing(), &adb));
    let before = s.clone();
    assert!(!s.sanitize(PathKind::Dir, &missing(), &missing(), &adb));
    assert_eq!(s, before);
    assert_eq!(s.adb_path, "/a/adb");
    assert_eq!(s.scrcpy_dir, "/a");
}

#[test]
fn cache_skips_identical_content() {
    let mut base = Settings::default();
    base.saved_at = 1_789_821_325;
    let mut zeroed = base.clone();
    zeroed.saved_at = 0;
    let mut c = SettingsCache::new(base.clone());

    c.mark_dirty(base.clone());
    assert!(
        c.pending_for_test().as_ref() == Some(&zeroed),
        "登记的内容应原样保存(时间戳归零)"
    );
    assert!(
        base.content_eq(&zeroed),
        "只有时间戳不同时,必须判定为『内容没变』-> 不写盘"
    );
    let mut changed = zeroed.clone();
    changed.scrcpy_path = "/opt/scrcpy/scrcpy".into();
    assert!(!base.content_eq(&changed), "路径变了就必须写盘");
    let mut flag = zeroed.clone();
    flag.remember_paths = !base.remember_paths;
    assert!(
        !base.content_eq(&flag),
        "『记住路径』开关本身也必须能落盘(否则用户关了它下次又变回开着)"
    );
}

#[test]
fn path_helpers() {
    let mut s = Settings::default();
    assert!(!s.has_any_path());
    s.scrcpy_path = "/x".into();
    assert!(s.has_any_path());
    s.scrcpy_dir = "/y".into();
    s.clear_paths();
    assert!(!s.has_any_path());
    assert!(s.scrcpy_dir.is_empty(), "clear_paths 也必须清掉目录记忆");
}

#[test]
fn search_dirs_prefers_explicit_dir() {
    let s = Settings {
        scrcpy_path: "/opt/scrcpy/scrcpy".into(),
        scrcpy_dir: "/data/scrcpy".into(),
        ..Settings::default()
    };
    assert_eq!(s.search_dirs(), vec!["/data/scrcpy".to_string(), "/opt/scrcpy".to_string()]);
    let s2 = Settings { scrcpy_path: "/opt/scrcpy/scrcpy".into(), ..Settings::default() };
    assert_eq!(s2.search_dirs(), vec!["/opt/scrcpy".to_string()]);
    assert!(Settings::default().search_dirs().is_empty());
}

#[test]
fn search_dirs_names_each_directory_once() {
    let s = Settings {
        scrcpy_path: "/opt/scrcpy/scrcpy".into(),
        scrcpy_dir: " /opt/scrcpy ".into(),
        ..Settings::default()
    };
    assert_eq!(s.search_dirs(), vec!["/opt/scrcpy".to_string()]);
    assert_eq!(
        s.search_dirs_with(Some("/other".into()), false),
        vec!["/opt/scrcpy".to_string(), "/other".to_string()]
    );
    assert_eq!(s.search_dirs_with(Some(String::new()), false), vec!["/opt/scrcpy".to_string()]);
    assert_eq!(s.search_dirs_with(Some("/other".into()), true), vec!["/opt/scrcpy".to_string()]);
    // The same directory written in another way.
    let t = Settings {
        scrcpy_path: "/opt/scrcpy/scrcpy".into(),
        scrcpy_dir: "/opt//scrcpy/".into(),
        ..Settings::default()
    };
    assert_eq!(t.search_dirs(), vec!["/opt//scrcpy/".to_string()]);
}

#[test]
fn cache_writes_a_change_once_and_reports_a_missing_directory_once() {
    let mut c = SettingsCache::default();
    assert!(c.take_unsaved(5).is_none());
    let mut s = Settings::default();
    s.scrcpy_args = "--no-audio".into();
    c.mark_dirty(s.clone());
    let out = c.take_unsaved(99).expect("a change is written");
    assert_eq!(out.saved_at, 99);
    assert_eq!(out.scrcpy_args, "--no-audio");
    assert!(c.note_no_dir());
    assert!(!c.note_no_dir());
    c.note_saved(out);
    c.mark_dirty(s.clone());
    assert!(c.take_unsaved(100).is_none(), "the same content is not written again");
    assert!(c.note_no_dir(), "a failure after a success is reported again");
    s.selected_serial = "X".into();
    c.mark_dirty(s);
    assert_eq!(c.take_unsaved(101).map(|t| t.saved_at), Some(101));
    assert!(c.pending_for_test().is_none());
}

#[test]
fn nearest_directory_is_at_most_two_missing_ones_away() {
    let chain: Vec<(String, bool)> =
        vec![("/a/b/c".into(), false), ("/a/b".into(), false), ("/a".into(), true), ("/".into(), true)];
    assert_eq!(nearest_existing_dir(&chain, 2), Some("/a".to_string()));
    assert_eq!(nearest_existing_dir(&chain, 1), None);
    assert_eq!(nearest_existing_dir(&Vec::new(), 2), None);
    let seen = looked_at(PathKind::Missing, &chain);
    assert_eq!((seen.kind, seen.near), (PathKind::Missing, Some("/a".to_string())));
    let mut far = vec![("/a/b/c/d".to_string(), false)];
    far.extend(chain);
    assert_eq!(looked_at(PathKind::Missing, &far).near, None, "three missing levels are too many");
}

#[test]
fn stamp_sets_only_the_time() {
    let s = stamped(Settings { adb_path: "/adb".into(), ..Settings::default() }, 42);
    assert_eq!(s.saved_at, 42);
    assert_eq!(s.adb_path, "/adb");
}

#[test]
fn a_byte_order_mark_is_dropped() {
    assert_eq!(without_bom("\u{FEFF}{}"), "{}");
    assert_eq!(without_bom("{}"), "{}");
    assert_eq!(without_bom(""), "");
}
