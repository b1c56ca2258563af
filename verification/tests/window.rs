use scrcpy_pad::capture::{
    grab_step, is_keyboard, is_mouse, plan_device, sort_batch, Capture, CaptureEvent, CursorTrack,
    DevicePlan, RawEvent,
};
use scrcpy_pad::clock::{civil_from_days, fmt_timestamp, seconds_east, timestamp_compact};
use scrcpy_pad::control::{ControlClient, ControlCmd};
use scrcpy_pad::engine::{AimLive, EngineLive, Shared};
use scrcpy_pad::filedialog::{pick_file, save_file};
use scrcpy_pad::help::{index_label, HelpWindow, Ink, Piece};
use scrcpy_pad::journal::{build_log_content, Journal, MAX_LINES};
use scrcpy_pad::adb::device_info;
use scrcpy_pad::keycodes::{
    egui_key_code, key_with_code, map_win_button, map_win_key, win_key_name, WinButton, WinKey,
};
use scrcpy_pad::keymap::{CoordUnit, Profile, StartNumbers, TempMode};
use scrcpy_pad::panel::{
    background_note, capture_note, done_note, failed_note, key_label, mode_label, push_counts,
    shortcut, space_label, toggle_label, watch, wheel_title, zoom_key, AimChecks, BgCache, BgStep,
    DialogPurpose, LookCache, Pressed, Seen, Shortcut, Watch, Zoom,
};
use scrcpy_pad::picture::{
    app_icon, icon_from, raster_from, read_background, read_screenshot, ICON_SIDE,
};
use scrcpy_pad::selftest::{
    devices_detail, evdev_detail, hook_detail, hover_probe, mice_detail, Check, SelfTest,
};
use scrcpy_pad::space::{
    display_mapper, off_screen, screen_size, stamp_profile_meta, sync_display_space, sync_notes,
    Synced,
};
use scrcpy_pad::theme::{with_alpha, BgFit, Density, Look, Preset, Rgba, Theme};

fn fresh() -> Profile<f32> {
    Profile::standard(StartNumbers {
        cx: 0.278,
        cy: 0.375,
        radius: 0.111,
        scope: 1.0,
        sensitivity: 2.0,
        tone: 0.0,
    })
}

#[test]
fn dates_of_the_calendar() {
    assert_eq!(civil_from_days(0), (1970, 1, 1));
    assert_eq!(civil_from_days(-1), (1969, 12, 31));
    assert_eq!(civil_from_days(11_016), (2000, 2, 29));
    assert_eq!(civil_from_days(11_017), (2000, 3, 1));
    assert_eq!(civil_from_days(20_701), (2026, 9, 5));
    assert_eq!(civil_from_days(-719_468), (0, 3, 1));
    assert_eq!(civil_from_days(-25_509), (1900, 2, 28));
    assert_eq!(civil_from_days(-25_508), (1900, 3, 1));
}

#[test]
fn moments_in_words() {
    let secs = 20_701 * 86_400 + 14 * 3_600 + 25 * 60 + 30;
    assert_eq!(fmt_timestamp(secs, 0), "2026-09-05 14:25:30");
    assert_eq!(timestamp_compact(secs, 0), "20260905-142530");
    assert_eq!(fmt_timestamp(secs, 8 * 3_600), "2026-09-05 22:25:30");
    assert_eq!(fmt_timestamp(7_200, -3 * 3_600), "1969-12-31 23:00:00");
    assert_eq!(timestamp_compact(0, -1), "19691231-235959");
    assert_eq!(fmt_timestamp(0, i32::MIN), "1901-12-13 20:45:52");
}

#[test]
fn the_log_keeps_the_newest_lines() {
    let mut j = Journal::default();
    for i in 0..250 {
        j.log(&format!("line {i}"));
    }
    assert_eq!(j.lines.len(), MAX_LINES);
    assert_eq!(j.lines[0], "line 50");
    assert_eq!(j.lines[199], "line 249");
    j.log_all(&vec!["a".to_string(), "b".to_string()]);
    assert_eq!(j.lines[0], "line 52");
    assert_eq!(j.lines[199], "b");
}

#[test]
fn the_report_holds_everything() {
    let mut j = Journal::default();
    j.log("one");
    j.log("two");
    let info = device_info("S", "brand", "model", "14", Some((3, 4)), "linux", "x86_64", "3.1");
    let r = build_log_content(&j, &info, "NOW", "0.1.0", "", "/srv");
    assert_eq!(
        r,
        "scrcpy-pad 运行日志\n保存时间: NOW\n程序版本: 0.1.0\n主机环境: linux x86_64\nscrcpy: 3.1 (PATH)\nserver: /srv\n\n设备: S\n品牌/型号: brand model\nAndroid: 14\n分辨率: 3x4\n\n===== 运行日志 =====\none\ntwo\n"
    );
    assert!(build_log_content(&j, &info, "", "", "/x/scrcpy", "").contains("scrcpy: 3.1 (/x/scrcpy)\n"));
}

#[test]
fn batches_of_a_device_are_sorted() {
    let key = |code, value| RawEvent::Key { code, value };
    let v = vec![
        key(30, 1),
        RawEvent::Rel { axis: 0, value: 5 },
        key(30, 2),
        RawEvent::Rel { axis: 1, value: -2 },
        RawEvent::Rel { axis: 8, value: 1 },
        RawEvent::Rel { axis: 0, value: -1 },
        RawEvent::Other,
        key(30, 0),
    ];
    let b = sort_batch(&v, true);
    assert_eq!(b.buttons, vec![(30, true), (30, false)]);
    assert_eq!(b.motion, Some((4, -2)));
    assert_eq!(sort_batch(&v, false).motion, None);
    let still = vec![RawEvent::Rel { axis: 0, value: 3 }, RawEvent::Rel { axis: 0, value: -3 }];
    assert_eq!(sort_batch(&still, true).motion, None);
}

#[test]
fn devices_are_told_apart() {
    assert!(is_keyboard(&vec![28, 30, 44]));
    assert!(!is_keyboard(&vec![28, 30]));
    assert!(is_mouse(&vec![1, 0]));
    assert!(!is_mouse(&vec![0, 8]));
    assert_eq!(plan_device(false, false), None);
    assert_eq!(
        plan_device(true, true),
        Some(DevicePlan { with_keyboards: true, motion: true })
    );
    let c = Capture::start(2, 1, 0).unwrap();
    assert!(c.mouse_found && !c.grab && !c.stop);
    assert_eq!(Capture::start(0, 0, 0), Err("未找到键盘设备"));
    assert!(Capture::start(0, 0, 3).unwrap_err().starts_with("无权限读取输入设备"));
    assert_eq!(grab_step(true, false), Some(true));
    assert_eq!(grab_step(true, true), None);
    let press: CaptureEvent<f32> = CaptureEvent::Button { code: 5, pressed: true };
    let lift: CaptureEvent<f32> = CaptureEvent::Button { code: 5, pressed: false };
    let motion = CaptureEvent::Motion { dx: 1.0f32, dy: 0.0 };
    assert_eq!(press.pressed_code(), Some(5));
    assert_eq!(lift.pressed_code(), None);
    assert_eq!(motion.pressed_code(), None);
}

#[test]
fn our_own_moving_of_the_cursor_is_not_reported() {
    let mut t = CursorTrack::<i32>::new();
    assert!(!t.moved_to((5, 5), true, false, false, (0, 0)).report, "there is no way yet");
    assert!(t.moved_to((6, 5), true, false, false, (0, 0)).report);
    assert!(t.follow(true, (50, 50)));
    assert!(!t.follow(true, (50, 50)));
    assert!(!t.moved_to((50, 50), false, false, true, (50, 50)).report);
    let s = t.moved_to((120, 50), true, true, true, (50, 50));
    assert!(s.report && s.recenter);
    assert_eq!(t.last, Some((50, 50)));
    assert!(!t.moved_to((50, 50), true, false, true, (50, 50)).report);
    assert!(t.follow(false, (50, 50)));
    assert!(!t.hiding);
}

#[test]
fn key_tables() {
    assert_eq!(map_win_key(Some(WinKey::KeyA)), Some(30));
    assert_eq!(map_win_key(None), None);
    assert_eq!(key_with_code(30), Some(WinKey::KeyA));
    assert_eq!(key_with_code(9999), None);
    assert_eq!(win_key_name(30), "KeyA");
    assert_eq!(win_key_name(273), "BTN_RIGHT");
    assert_eq!(win_key_name(9999), "Key(9999)");
    assert_eq!(map_win_button(WinButton::Middle), 274);
    assert_eq!(map_win_button(WinButton::Unknown(2)), 277);
    assert_eq!(egui_key_code("A"), Some(30));
    assert_eq!(egui_key_code("Num0"), Some(11));
    assert_eq!(egui_key_code("F13"), Some(183));
    assert_eq!(egui_key_code("F24"), Some(194));
    assert_eq!(egui_key_code("Colon"), Some(39));
    assert_eq!(egui_key_code("Semicolon"), Some(39));
    assert_eq!(egui_key_code("Copy"), None);
    assert_eq!(egui_key_code(&format!("{:?}", egui::Key::ArrowUp)), Some(103));
    assert_eq!(egui_key_code(&format!("{:?}", egui::Key::Num7)), Some(8));
}

fn pressed(ctrl: bool, shift: bool, key: char) -> Pressed {
    Pressed { ctrl, shift, z: key == 'z', y: key == 'y', s: key == 's', f5: key == '5' }
}

#[test]
fn shortcuts_and_zoom() {
    assert_eq!(shortcut(false, false, pressed(true, false, 'z')), Some(Shortcut::Undo));
    assert_eq!(shortcut(false, false, pressed(true, false, 'y')), Some(Shortcut::Redo));
    assert_eq!(shortcut(false, false, pressed(true, false, 's')), Some(Shortcut::Save));
    assert_eq!(shortcut(false, false, pressed(true, true, 's')), Some(Shortcut::SaveAs));
    assert_eq!(shortcut(false, false, pressed(false, false, '5')), Some(Shortcut::Refresh));
    assert_eq!(shortcut(false, false, pressed(true, true, 'z')), None);
    assert_eq!(shortcut(true, false, pressed(true, false, 'z')), None);
    assert_eq!(shortcut(false, true, pressed(true, false, 'z')), None);
    assert_eq!(zoom_key(true, false, true, true), Some(Zoom::In));
    assert_eq!(zoom_key(true, false, false, true), Some(Zoom::Out));
    assert_eq!(zoom_key(false, true, true, true), None);
}

#[test]
fn frames_look_after_changes() {
    let mut w = Watch { enabled_prev: false, captured_prev: false };
    let mut seen = Seen {
        enabled: true,
        connected: true,
        captured: true,
        grab_enabled: true,
        has_server: true,
        connecting: false,
    };
    let c = watch(&mut w, seen);
    assert!(c.grab && c.ask_size && !c.lost);
    assert_eq!(c.captured_note, Some(true));
    let c = watch(&mut w, seen);
    assert!(!c.ask_size);
    assert_eq!(c.captured_note, None);
    seen.connected = false;
    seen.captured = false;
    let c = watch(&mut w, seen);
    assert!(c.lost);
    assert_eq!(c.captured_note, Some(false));
    assert_eq!(capture_note(false), "鼠标已交还给系统(按 Ctrl+Alt 可收回)");
}

#[test]
fn labels_of_the_window() {
    assert_eq!(key_label(true, Some(30), false), "按任意键...");
    assert_eq!(key_label(false, Some(30), false), "KEY_A");
    assert_eq!(key_label(false, None, false), "未绑定");
    assert_eq!(key_label(false, Some(30), true), "KeyA");
    assert_eq!(toggle_label(true, 66, false), "映射: 开 (F8)");
    assert_eq!(toggle_label(false, 66, false), "映射: 关 (F8)");
    let p = fresh();
    assert_eq!(wheel_title(0, &p.wheels[0]), "轮盘1");
    assert_eq!(mode_label(TempMode::Toggle), "模式:再按切换");
    assert_eq!(space_label(3, 2), "触摸坐标空间: 3x2(横屏)");
    assert_eq!(space_label(2, 3), "触摸坐标空间: 2x3(竖屏)");
    assert_eq!(done_note(DialogPurpose::SaveProfileAs, "/p"), "配置已另存到 /p(可直接分享该文件)");
    assert_eq!(failed_note(DialogPurpose::NewProfile, "no"), "新建失败: no");
    let mut s = "x".to_string();
    push_counts(&mut s, 3, 1);
    assert_eq!(s, "x (3 按键 / 1 轮盘)");
}

#[test]
fn aiming_says_why_it_does_nothing() {
    let all = AimChecks {
        aim_on: true,
        mouse_found: true,
        anchor_ok: true,
        map_on: true,
        connected: true,
    };
    assert_eq!(all.verdict(true, 0, false), (true, "→ 已就绪,移动鼠标即可转动视角".to_string()));
    assert_eq!(
        all.verdict(true, 273, false).1,
        "→ 已就绪,但绑定了[按住才瞄准]:需按住 BTN_RIGHT 时才会转动视角"
    );
    assert!(!all.verdict(false, 0, false).0);
    let some = AimChecks { mouse_found: false, map_on: false, ..all };
    assert_eq!(some.verdict(true, 0, false), (false, "→ 现在没反应,因为: 检测到鼠标设备".to_string()));
    let lines = some.lines();
    assert_eq!(lines.len(), 5);
    assert_eq!(lines[0], (true, "✓ 已勾选 [启用鼠标瞄准]".to_string()));
    assert_eq!(lines[3], (false, "✗ 映射已开启(按总开关键才生效)".to_string()));
}

#[test]
fn backgrounds_are_tried_once() {
    let mut look = Look::standard(0.0f32);
    let mut c = BgCache { loaded: None, failed: None };
    assert_eq!(c.step(&look), BgStep::Forget);
    look.panel_alpha = 250;
    look.bg_dim = 200;
    assert_eq!(look.set_bg("/a".into()), (Some(250), Some(200)));
    assert_eq!((look.panel_alpha, look.bg_dim), (150, 120));
    assert_eq!(
        background_note("/a", (Some(250), Some(200))),
        "背景图已设为: /a(自动调整 面板不透明度 250 → 150、背景图压暗 200 → 120;可在[外观]调整)"
    );
    assert_eq!(background_note("/a", (None, None)), "背景图已设为: /a");
    assert_eq!(c.step(&look), BgStep::Load);
    c.note_loaded("/a", false);
    assert_eq!(c.step(&look), BgStep::Leave);
    c.reset();
    c.note_loaded("/a", true);
    assert_eq!(c.step(&look), BgStep::Show);
    look.clear_bg();
    assert_eq!(c.step(&look), BgStep::Forget);
    c.forget();
    assert_eq!(c.loaded, None);
}

#[test]
fn the_appearance_is_written_when_it_changes() {
    let same = |a: f32, b: f32| a == b;
    let mut c = LookCache::new();
    let mut look = Look::standard(0.0f32);
    assert!(c.take_change(&look, &same));
    assert!(!c.take_change(&look, &same));
    look.overlay_tone = 0.5;
    assert!(c.take_change(&look, &same));
    look.preset = Preset::Nord;
    assert!(c.take_change(&look, &same));
    assert!(!c.take_change(&look, &same));
    assert!(c.note_failed());
    assert!(!c.note_failed());
}

#[test]
fn colours_and_labels() {
    assert_eq!(Preset::Nord.label(), "Nord");
    assert!(Preset::Dark.is_dark() && !Preset::Light.is_dark());
    assert_eq!(Density::Compact.label(), "紧凑");
    assert_eq!(BgFit::Tile.label(), "平铺");
    let c = Rgba { r: 200, g: 100, b: 50, a: 255 };
    assert_eq!(with_alpha(c, 255), c);
    assert_eq!(with_alpha(c, 0), Rgba { r: 0, g: 0, b: 0, a: 0 });
    let e = egui::Color32::from_rgba_unmultiplied(200, 100, 50, 130);
    let w = with_alpha(c, 130);
    assert_eq!((w.r, w.g, w.b, w.a), (e.r(), e.g(), e.b(), e.a()));
    assert_eq!(Look::standard(0.0f32).theme(), Theme::dark());
    let rgb = |r, g, b| Rgba { r, g, b, a: 255 };
    for (theme, perm, temp) in [
        (Theme::dark(), rgb(0, 200, 255), rgb(255, 90, 220)),
        (Theme::light(), rgb(0, 140, 180), rgb(180, 30, 150)),
        (Theme::nord(), rgb(143, 188, 187), rgb(180, 142, 173)),
        (Theme::catppuccin(), rgb(137, 220, 235), rgb(245, 194, 231)),
    ] {
        assert_eq!((theme.wheel_perm, theme.wheel_temp), (perm, temp));
    }
}

#[test]
fn dialogs_are_answered_once() {
    let mut d = pick_file();
    assert!(!d.save);
    assert_eq!(d.try_result(), None);
    d.put_answer(Some("/p".into()));
    assert_eq!(d.try_result(), Some(Some("/p".to_string())));
    assert_eq!(d.try_result(), None);
    let mut s = save_file("x.json");
    assert!(s.save);
    assert_eq!(s.default_name, Some("x.json".to_string()));
    s.put_answer(None);
    assert_eq!(s.try_result(), Some(None));
}

#[test]
fn the_self_test_stops_at_vital_failures() {
    let mut t = SelfTest::new();
    assert_eq!(t.record(Check::FindScrcpy, true, ""), ("[PASS] 自动寻找 scrcpy ".to_string(), false));
    assert_eq!(t.finish(), ("全部通过", 0));
    assert_eq!(t.record(Check::Mouse, false, "x"), ("[FAIL] 鼠标设备(REL_X/REL_Y) x".to_string(), false));
    assert!(t.record(Check::Devices, false, "").1);
    assert_eq!(t.finish(), ("存在失败项", 1));
    assert_eq!(
        SelfTest::new().record(Check::Hook, true, hook_detail()),
        ("[PASS] 键盘捕获(rdev) (Windows 无需特殊权限)".to_string(), false)
    );
    assert_eq!(evdev_detail(true), "");
    assert_eq!(mice_detail(0), "0 个 → FPS 瞄准不可用");
    assert_eq!(mice_detail(2), "2 个");
    assert_eq!(devices_detail(3), "(3 台)");
    assert_eq!(
        hover_probe()[1],
        ControlCmd::Touch { action: 7, pointer_id: u64::MAX, x: 700, y: 1400 }
    );
}

fn shared(profile: Profile<f32>, control: Option<ControlClient>) -> Shared<f32> {
    Shared {
        profile,
        enabled: false,
        control,
        aim_live: AimLive { motions: 0, last: None, offset: None, down: false, active: false, sent: 0 },
        live: EngineLive::default(),
        toolbar_release: false,
    }
}

fn sync(s: &mut Shared<f32>, w: u32, h: u32) -> Synced {
    let (fw, fh) = (w as f32, h as f32);
    let fits = |x: f32, y: f32| x <= fw && y <= fh;
    sync_display_space(s, w, h, &fits, &|v: f32| v / fw, &|v: f32| v / fh, &|a: (f32, f32)| Some(a))
}

#[test]
fn the_screen_is_followed() {
    let mut s = shared(fresh(), Some(ControlClient::new(1080, 2400)));
    s.profile.aim.anchor = Some((0.9, 0.1));
    assert_eq!(sync(&mut s, 0, 5), Synced { moved: false, upgraded: false });
    assert_eq!(sync(&mut s, 2400, 1080), Synced { moved: true, upgraded: false });
    assert_eq!(s.profile.aim.anchor, Some((0.9, 0.1)), "turning the screen moves no anchor");
    assert_eq!(screen_size(&s.control, None), Some((2400, 1080)));
    assert_eq!(sync(&mut s, 2400, 1080), Synced { moved: false, upgraded: false });
    let mut old = shared(fresh(), None);
    old.profile.format_version = 1;
    assert_eq!(sync(&mut old, 100, 100), Synced { moved: false, upgraded: true });
    assert_eq!(old.profile.screen, Some((100, 100)));
    assert_eq!(
        sync_notes(Synced { moved: true, upgraded: true }, 3, 4),
        vec![
            "触摸坐标空间已更新为 3x4".to_string(),
            "配置已升级为相对坐标(按 3x4 换算),换分辨率/换手机后键位不再错位".to_string()
        ]
    );
    assert_eq!(screen_size(&Some(ControlClient::new(0, 5)), Some((7, 8))), Some((7, 8)));
    assert_eq!(display_mapper(CoordUnit::Rel, None).h, 2400);
    assert!(off_screen((5, -1), 10, 10) && off_screen((10, 0), 10, 10) && !off_screen((9, 9), 10, 10));
    let mut p = fresh();
    stamp_profile_meta(&mut p, Some((3, 4)));
    assert_eq!(p.screen, Some((3, 4)));
    p.format_version = 1;
    stamp_profile_meta(&mut p, Some((5, 6)));
    assert_eq!(p.screen, Some((3, 4)));
}

const MANUAL: &str = "# One\n\nText with **bold** and `code` and [link](http://x).\n\n## Two\n\n1. first\n2. second\n   - nested\n\n> quoted\n\n---\n\n# Three\n";

#[test]
fn the_manual_has_sections() {
    let w = HelpWindow::new(MANUAL);
    let got: Vec<(u8, String, usize)> =
        w.sections.iter().map(|s| (s.level, s.title.clone(), s.anchor)).collect();
    assert_eq!(
        got,
        vec![(1, "One".to_string(), 1), (2, "Two".to_string(), 2), (1, "Three".to_string(), 3)]
    );
    assert_eq!(w.headings, 3);
    assert_eq!(index_label(&w.sections[1]), "　Two");
    assert_eq!(w.current, 1);
}

#[test]
fn the_manual_is_laid_out() {
    let w = HelpWindow::new(MANUAL);
    let mut blocks: Vec<(String, Option<usize>)> = Vec::new();
    let mut rules = 0;
    for p in &w.body {
        match p {
            Piece::Block { spans, heading } => {
                blocks.push((spans.iter().map(|s| s.text.as_str()).collect(), *heading))
            }
            Piece::Rule => rules += 1,
            Piece::Gap(_) => {}
        }
    }
    assert_eq!(rules, 1);
    assert_eq!(blocks[0], ("One".to_string(), Some(1)));
    assert_eq!(blocks[1].0, "Text with bold and code and link (http://x).");
    assert_eq!(blocks[2], ("Two".to_string(), Some(2)));
    assert!(blocks.iter().any(|b| b.0.starts_with("1. first")));
    assert!(blocks.iter().any(|b| b.0.contains("2. second")));
    assert!(blocks.iter().any(|b| b.0.contains("    • nested")));
    assert!(blocks.iter().any(|b| b.0 == "▏ quoted"));
    assert_eq!(blocks.last().unwrap(), &("Three".to_string(), Some(3)));
    let styles: Vec<(Ink, bool, bool)> = match &w.body[3] {
        Piece::Block { spans, .. } => {
            spans.iter().map(|s| (s.style.ink, s.style.strong, s.style.code)).collect()
        }
        _ => panic!("the text follows the heading and its gaps"),
    };
    assert!(styles.contains(&(Ink::Body, true, false)));
    assert!(styles.contains(&(Ink::Code, false, true)));
    assert!(styles.contains(&(Ink::Link, false, false)));
}

#[test]
fn the_manual_goes_where_it_is_told() {
    let mut w = HelpWindow::new(MANUAL);
    w.go_to(3);
    w.begin_frame();
    assert!(!w.heading_drawn(1, false));
    assert!(!w.heading_drawn(2, true));
    assert_eq!(w.current, 2);
    assert!(w.heading_drawn(3, true));
    assert_eq!((w.current, w.jump), (3, None));
    w.end_frame();
    w.go_to(9);
    w.end_frame();
    assert_eq!(w.jump, None);
}

fn png(w: u32, h: u32) -> Vec<u8> {
    let img = image::RgbaImage::from_pixel(w, h, image::Rgba([10, 20, 30, 255]));
    let mut out = std::io::Cursor::new(Vec::new());
    image::DynamicImage::ImageRgba8(img).write_to(&mut out, image::ImageFormat::Png).unwrap();
    out.into_inner()
}

fn jpeg(w: u32, h: u32) -> Vec<u8> {
    let img = image::RgbImage::from_pixel(w, h, image::Rgb([10, 20, 30]));
    let mut out = std::io::Cursor::new(Vec::new());
    image::DynamicImage::ImageRgb8(img).write_to(&mut out, image::ImageFormat::Jpeg).unwrap();
    out.into_inner()
}

#[test]
fn jpeg_pictures_have_their_size() {
    let r = read_background(&jpeg(5, 4)).ok().expect("a picture");
    assert_eq!((r.w, r.h, r.rgba.len()), (5, 4, 80));
    let r = read_screenshot(&jpeg(2, 3)).ok().expect("a picture");
    assert_eq!((r.w, r.h, r.rgba.len()), (2, 3, 24));
    let r = app_icon(&jpeg(7, 6)).expect("an icon");
    assert_eq!((r.w, r.h, r.rgba.len()), (7, 6, 168));
    let cut = &jpeg(5, 4)[..8];
    assert!(read_screenshot(cut).err().unwrap().starts_with("解码截图失败: "));
    assert!(app_icon(cut).is_none());
}

#[test]
fn pictures_are_decoded() {
    let r = read_screenshot(&png(3, 2)).ok().expect("a picture");
    assert_eq!((r.w, r.h, r.rgba.len()), (3, 2, 24));
    assert_eq!(r.rgba[..4], [10, 20, 30, 255]);
    assert!(read_screenshot(&[1, 2, 3]).err().unwrap().starts_with("解码截图失败: "));
    let e = read_background(&[1, 2, 3]).err().unwrap();
    assert!(e.starts_with("背景图解码失败(") && e.ends_with("):仅支持 png / jpg"));
    assert_eq!(read_background(&png(1, 1)).ok().unwrap().rgba, vec![10, 20, 30, 255]);
    assert!(raster_from(Ok((vec![0; 3], 1, 1)), "a", "b").is_err());
    assert_eq!(raster_from(Err("x".into()), "a", "b").err(), Some("axb".to_string()));
}

#[test]
fn icons_are_scaled_down() {
    let r = app_icon(&png(512, 300)).expect("an icon");
    assert_eq!((r.w, r.h), (ICON_SIDE, 150));
    assert_eq!(r.rgba.len(), 256 * 150 * 4);
    let r = app_icon(&png(64, 32)).expect("an icon");
    assert_eq!((r.w, r.h), (64, 32));
    assert!(app_icon(&[0]).is_none());
    assert!(icon_from(Err("x".into())).is_none());
}

#[test]
fn offsets_from_utc_are_read() {
    assert_eq!(seconds_east("+0800\n"), 8 * 3600);
    assert_eq!(seconds_east("-0330\r\n"), -(3 * 3600 + 30 * 60));
    assert_eq!(seconds_east("+0000"), 0);
    for bad in ["", "0800", "+080", "+08000", "+08:00", "x0800", "+0 00", "UTC"] {
        assert_eq!(seconds_east(bad), 0, "{bad}");
    }
}
