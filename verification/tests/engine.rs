use scrcpy_pad::aim::{aim_active, aim_anchor, drag_base, threshold_px, wants_mouse, Drag};
use scrcpy_pad::buttons::on_button;
use scrcpy_pad::control::{ControlClient, ControlCmd, ACTION_DOWN, ACTION_MOVE, ACTION_UP};
use scrcpy_pad::engine::{
    bind_pid, ctrl_alt_chord, wheel_pid, AimLive, AimState, Engine, EngineLive, SchedAct, Shared,
    WheelState, AIM_PID, KEY_LEFTALT, KEY_LEFTCTRL, KEY_RIGHTALT, KEY_RIGHTCTRL, MS,
};
use scrcpy_pad::fingers::{Fingers, Held, DEVICE_MAX_POINTERS, MAX_CONCURRENT_KEYS};
use scrcpy_pad::keymap::{
    Action, Aim, CoordUnit, Easing, KeyBind, Mapper, Profile, StartNumbers, Swipe, SwipePath,
    TempMode, TempWheel, Wheel,
};
use scrcpy_pad::layout::{resolve, Layout};
use scrcpy_pad::reconcile::{binds_signature, key_owned_by_wheel, wheel_signature};
use scrcpy_pad::session::{on_motion, run_due, toolbar, upkeep, wait_for};

fn fresh() -> Profile<f32> {
    Profile::standard(StartNumbers {
        cx: 0.278,
        cy: 0.375,
        radius: 0.111,
        scope: 1.0,
        sensitivity: 2.0,
        tone: 0.0,
    })
}

fn aim_at(x: f32, y: f32) -> Aim<f32> {
    let mut a = Aim::standard(2.0);
    a.enabled = true;
    a.anchor = Some((x, y));
    a
}

fn hold(key: u16, x: f32, y: f32) -> KeyBind<f32> {
    KeyBind { key, action: Action::Hold { x, y, radius: 0.03 } }
}

fn shared_with(profile: Profile<f32>) -> Shared<f32> {
    Shared {
        profile,
        enabled: true,
        control: Some(ControlClient::new(1000, 1000)),
        aim_live: AimLive {
            motions: 0,
            last: None,
            offset: None,
            down: false,
            active: false,
            sent: 0,
        },
        live: EngineLive::default(),
        toolbar_release: false,
    }
}

/// A screen of 1000 by 1000 pixels; swipes are spread evenly.
fn layout_of(p: &Profile<f32>) -> Layout {
    let point = |x: f32, y: f32| ((x * 1000.0) as i32, (y * 1000.0) as i32);
    let reach = |r: f32, s: f32| ((r * s * 1000.0) as i32, (r * s * 700.0) as i32);
    let circle = |_d: bool, _a: f32, s: (i32, i32), e: (i32, i32), _n: usize| vec![s, e];
    let eased = |v: &Vec<(i32, i32)>, _e: Easing<f32>, k: usize| v[k];
    resolve(p, (500, 500), &point, &reach, &circle, &eased)
}

fn sent(s: &mut Shared<f32>) -> Vec<ControlCmd> {
    s.control.as_mut().unwrap().take_queue()
}

fn touch(action: u8, pointer_id: u64, x: u32, y: u32) -> ControlCmd {
    ControlCmd::Touch { action, pointer_id, x, y }
}

#[test]
fn aim_active_needs_anchor_and_gate() {
    let mut st = AimState::<f32>::default();

    let mut aim = aim_at(0.1, 0.1);
    assert!(aim_active(&aim, &st));

    aim.anchor = None;
    assert!(!aim_active(&aim, &st));

    let mut aim = aim_at(0.1, 0.1);
    aim.hold_key = 273;
    assert!(!aim_active(&aim, &st));
    st.gate_down = true;
    assert!(aim_active(&aim, &st));
}

#[test]
fn ctrl_alt_chord_fires_once_per_press() {
    assert!(!ctrl_alt_chord(KEY_LEFTCTRL, true, true, false));
    assert!(ctrl_alt_chord(KEY_LEFTALT, true, true, true));
    assert!(ctrl_alt_chord(KEY_LEFTALT, true, true, true));
    assert!(!ctrl_alt_chord(KEY_LEFTALT, false, true, false));

    assert!(!ctrl_alt_chord(30, true, true, true));
    assert!(ctrl_alt_chord(KEY_RIGHTCTRL, true, true, true));
    assert!(ctrl_alt_chord(KEY_RIGHTALT, true, true, true));
}

#[test]
fn released_blocks_aim() {
    let aim = aim_at(0.1, 0.1);
    let mut st = AimState::<f32>::default();
    assert!(aim_active(&aim, &st));
    st.released = true;
    assert!(!aim_active(&aim, &st));
}

#[test]
fn fingers_enforces_concurrency_and_pairing() {
    let mut f = Fingers::default();
    f.align(4);
    assert!(f.try_down(0, 0), "首次按下应成功");
    assert!(!f.try_down(0, 0), "未抬起的重复按下必须被忽略(防钩子自动重复)");
    assert!(f.release(0), "抬起应有记录");
    assert!(!f.release(0), "无按下记录的抬起不得误抬其它键");

    f.align(MAX_CONCURRENT_KEYS + 2);
    for i in 0..MAX_CONCURRENT_KEYS {
        assert!(f.try_down(i, 0), "第 {i} 个键应在额度内");
    }
    assert!(
        !f.try_down(MAX_CONCURRENT_KEYS, 0),
        "超出额度必须拒绝,否则设备端指针池会被撑爆"
    );
    assert!(f.release(3));
    assert!(f.try_down(MAX_CONCURRENT_KEYS, 0), "腾出额度后应可再按下");
}

#[test]
fn fingers_respects_shared_device_pointer_pool() {
    let mut f = Fingers::default();
    f.align(MAX_CONCURRENT_KEYS);
    let others = 4;
    for i in 0..(DEVICE_MAX_POINTERS - others) {
        assert!(f.try_down(i, others), "第 {i} 个键仍在设备额度内");
    }
    assert_eq!(f.count, DEVICE_MAX_POINTERS - others);
    assert!(
        !f.try_down(DEVICE_MAX_POINTERS - others, others),
        "再按下去就会超过设备端的 10 个触点,必须在这里挡住"
    );
    assert!(f.try_down(DEVICE_MAX_POINTERS - others, others - 1));
}

#[test]
fn fingers_align_grows_only() {
    let mut f = Fingers::default();
    f.align(2);
    assert!(f.try_down(1, 0));
    f.align(5);
    assert!(f.is_down(1), "补长不得丢失已按下状态");
    assert!(!f.is_down(4), "新槽位应为未按下");
    f.free_all();
    assert!(!f.is_down(1) && f.count == 0, "free_all 必须清空计数");
}

#[test]
fn signatures_track_structure_not_geometry() {
    let mut p = fresh();
    p.binds = vec![hold(37, 0.5, 0.5), hold(36, 0.5, 0.5)];
    let b0 = binds_signature(&p.binds);
    p.binds[0].action = Action::Hold { x: 0.1, y: 0.9, radius: 0.09 };
    assert_eq!(binds_signature(&p.binds), b0, "只改坐标不算结构变化");
    p.binds[0].key = 38;
    assert_ne!(binds_signature(&p.binds), b0, "换键码必须触发重建");
    let b1 = binds_signature(&p.binds);
    p.binds.pop();
    assert_ne!(binds_signature(&p.binds), b1, "增删键位必须触发重建");

    let w0 = wheel_signature(&p.wheels);
    p.wheels[0].cx = 0.9;
    p.wheels[0].radius = 0.02;
    assert_eq!(wheel_signature(&p.wheels), w0, "只改圆心/半径不算结构变化");
    p.wheels[0].up = 30;
    assert_ne!(wheel_signature(&p.wheels), w0, "换方向键必须触发重建");
    let w1 = wheel_signature(&p.wheels);
    p.wheels[0].temp = Some(TempWheel { key: 18, mode: TempMode::Hold });
    assert_ne!(wheel_signature(&p.wheels), w1, "设置启用键必须触发重建");
    let w2 = wheel_signature(&p.wheels);
    p.wheels.push(Wheel {
        up: 1,
        down: 2,
        left: 3,
        right: 4,
        cx: 0.5,
        cy: 0.5,
        radius: 0.05,
        scope: 1.0,
        temp: None,
    });
    assert_ne!(wheel_signature(&p.wheels), w2, "增删轮盘必须触发重建");
}

#[test]
fn wheel_ownership_follows_engagement() {
    let mut p = fresh();
    p.binds = Vec::new();
    p.wheels = vec![
        Wheel {
            up: 17,
            down: 31,
            left: 30,
            right: 32,
            cx: 0.3,
            cy: 0.4,
            radius: 0.05,
            scope: 1.0,
            temp: None,
        },
        Wheel {
            up: 23,
            down: 37,
            left: 36,
            right: 22,
            cx: 0.7,
            cy: 0.4,
            radius: 0.05,
            scope: 1.0,
            temp: Some(TempWheel { key: 18, mode: TempMode::Hold }),
        },
    ];
    let mut st = vec![WheelState::default(); 2];

    assert!(key_owned_by_wheel(&p, &st, 17));
    assert!(!key_owned_by_wheel(&p, &st, 37), "未启用的临时摇杆不占方向键");
    assert!(key_owned_by_wheel(&p, &st, 18), "启用键永远归临时摇杆");
    st[1].active = true;
    assert!(key_owned_by_wheel(&p, &st, 37));
    assert!(key_owned_by_wheel(&p, &st, 23));
    assert!(!key_owned_by_wheel(&p, &st, 24));
}

fn contested() -> Profile<f32> {
    let mut p = fresh();
    p.binds = vec![hold(37, 0.9, 0.8)];
    p.wheels = vec![Wheel {
        up: 23,
        down: 37,
        left: 36,
        right: 22,
        cx: 0.8,
        cy: 0.7,
        radius: 0.05,
        scope: 1.0,
        temp: Some(TempWheel { key: 18, mode: TempMode::Hold }),
    }];
    p
}

#[test]
fn held_key_resumes_its_normal_bind_the_moment_the_wheel_deactivates() {
    let p = contested();
    let mut st = vec![WheelState::default(); 1];
    let held = {
        let mut h = Held::default();
        h.set(37, true);
        h
    };
    let want = |held: &Held, st: &Vec<WheelState>| held.has(37) && !key_owned_by_wheel(&p, st, 37);

    assert!(want(&held, &st));

    st[0].active = true;
    assert!(!want(&held, &st), "启用期间 K 归摇杆,普通绑定必须让位");

    st[0].active = false;
    assert!(
        want(&held, &st),
        "松开启用键的瞬间,仍按着的 K 必须马上回到普通绑定(不必松手重按)"
    );

    let released = Held::default();
    assert!(!want(&released, &st));
}

#[test]
fn the_engine_hands_a_held_key_over_and_back() {
    let p = contested();
    let ly = layout_of(&p);
    let mut s = shared_with(p);
    let mut e = Engine::new();
    let bind = bind_pid(0);
    let wheel = wheel_pid(0);

    on_button(&mut e, &mut s, &ly, 37, true, 0);
    assert_eq!(sent(&mut s), vec![touch(ACTION_DOWN, bind, 900, 800)]);

    on_button(&mut e, &mut s, &ly, 18, true, MS);
    let out = sent(&mut s);
    assert!(out.contains(&touch(ACTION_UP, bind, 900, 800)));
    assert!(out.contains(&touch(ACTION_DOWN, wheel, 800, 700)));
    assert_eq!(out.last(), Some(&touch(ACTION_MOVE, wheel, 800, 750)));

    on_button(&mut e, &mut s, &ly, 18, false, 2 * MS);
    let out = sent(&mut s);
    assert!(out.iter().any(|c| matches!(c, ControlCmd::Touch { action: 1, pointer_id, .. } if *pointer_id == wheel)));
    assert_eq!(out.last(), Some(&touch(ACTION_DOWN, bind, 900, 800)));

    on_button(&mut e, &mut s, &ly, 37, false, 3 * MS);
    assert_eq!(sent(&mut s), vec![touch(ACTION_UP, bind, 900, 800)]);
}

#[test]
fn a_tap_ends_after_its_time() {
    let mut p = fresh();
    p.binds = vec![KeyBind {
        key: 30,
        action: Action::Tap { x: 0.2, y: 0.3, duration_ms: 40, radius: 0.03 },
    }];
    p.wheels = Vec::new();
    let ly = layout_of(&p);
    let mut s = shared_with(p);
    let mut e = Engine::new();
    assert!(on_button(&mut e, &mut s, &ly, 30, true, 0));
    assert_eq!(sent(&mut s), vec![touch(ACTION_DOWN, bind_pid(0), 200, 300)]);
    assert!(!on_button(&mut e, &mut s, &ly, 30, false, MS));
    assert!(sent(&mut s).is_empty());
    run_due(&mut e, &mut s, 39 * MS);
    assert!(sent(&mut s).is_empty());
    run_due(&mut e, &mut s, 40 * MS);
    assert_eq!(sent(&mut s), vec![touch(ACTION_UP, bind_pid(0), 200, 300)]);
    assert!(e.scheduled.is_empty());
}

#[test]
fn a_tap_without_duration_toggles() {
    let mut p = fresh();
    p.binds = vec![KeyBind {
        key: 30,
        action: Action::Tap { x: 0.2, y: 0.3, duration_ms: 0, radius: 0.03 },
    }];
    p.wheels = Vec::new();
    let ly = layout_of(&p);
    let mut s = shared_with(p);
    let mut e = Engine::new();
    on_button(&mut e, &mut s, &ly, 30, true, 0);
    on_button(&mut e, &mut s, &ly, 30, false, MS);
    assert_eq!(sent(&mut s), vec![touch(ACTION_DOWN, bind_pid(0), 200, 300)]);
    on_button(&mut e, &mut s, &ly, 30, true, 2 * MS);
    assert_eq!(sent(&mut s), vec![touch(ACTION_UP, bind_pid(0), 200, 300)]);
}

#[test]
fn a_swipe_runs_along_its_points_and_ends() {
    let mut p = fresh();
    p.binds = vec![KeyBind {
        key: 30,
        action: Action::Swipe(Swipe {
            start: (0.1, 0.1),
            end: (0.5, 0.1),
            duration_ms: 100,
            easing: Easing::Linear,
            path: SwipePath::Rect,
        }),
    }];
    p.wheels = Vec::new();
    let ly = layout_of(&p);
    let mut s = shared_with(p);
    let mut e = Engine::new();
    on_button(&mut e, &mut s, &ly, 30, true, 0);
    assert_eq!(sent(&mut s), vec![touch(ACTION_DOWN, bind_pid(0), 100, 100)]);
    let mut out = Vec::new();
    for ms in 1..200 {
        run_due(&mut e, &mut s, ms * MS);
        out.extend(sent(&mut s));
    }
    assert_eq!(out[0], touch(ACTION_MOVE, bind_pid(0), 500, 100));
    assert_eq!(out.last(), Some(&touch(ACTION_UP, bind_pid(0), 100, 100)));
    assert_eq!(out.iter().filter(|c| matches!(c, ControlCmd::Touch { action: 1, .. })).count(), 1);
    assert!(e.scheduled.is_empty());
}

#[test]
fn switching_mapping_off_lifts_everything() {
    let p = contested();
    let ly = layout_of(&p);
    let toggle = p.toggle_key;
    let mut s = shared_with(p);
    let mut e = Engine::new();
    on_button(&mut e, &mut s, &ly, 37, true, 0);
    sent(&mut s);
    on_button(&mut e, &mut s, &ly, toggle, true, MS);
    assert!(!s.enabled);
    assert_eq!(sent(&mut s), vec![touch(ACTION_UP, bind_pid(0), 900, 800)]);
    assert_eq!(e.fingers.count, 0);
    // while mapping is off no key touches anything
    on_button(&mut e, &mut s, &ly, 37, true, 2 * MS);
    assert!(sent(&mut s).is_empty());
}

#[test]
fn the_toolbar_switches_off_once() {
    let p = contested();
    let ly = layout_of(&p);
    let mut s = shared_with(p);
    let mut e = Engine::new();
    on_button(&mut e, &mut s, &ly, 37, true, 0);
    sent(&mut s);
    s.toolbar_release = true;
    toolbar(&mut e, &mut s, &ly);
    assert!(!s.enabled);
    assert_eq!(sent(&mut s), vec![touch(ACTION_UP, bind_pid(0), 900, 800)]);
    s.enabled = true;
    toolbar(&mut e, &mut s, &ly);
    assert!(s.enabled, "the same request counts once");
}

#[test]
fn mouse_motion_drags_the_aim_finger() {
    let mut p = fresh();
    p.aim = aim_at(0.5, 0.5);
    let mut s = shared_with(p);
    let mut e = Engine::<f32>::new();
    assert!(wants_mouse(&s.profile.aim, &e.aim, true, true));
    assert_eq!(drag_base(&e.aim, (500, 500)), None);
    let drag = Drag { offset: (10.0, -4.0), target: (510, 496), hit_edge: false, over_threshold: false };
    on_motion(&mut e, &mut s, (500, 500), (5.0, -2.0), &drag, MS);
    assert_eq!(sent(&mut s), vec![touch(ACTION_DOWN, AIM_PID, 510, 496)]);
    assert_eq!(s.aim_live.motions, 1);
    assert!(s.aim_live.down);
    assert_eq!(drag_base(&e.aim, (500, 500)), Some((10.0, -4.0)));
    let drag = Drag { offset: (12.0, -4.0), target: (512, 496), hit_edge: false, over_threshold: false };
    on_motion(&mut e, &mut s, (500, 500), (1.0, 0.0), &drag, 2 * MS);
    assert_eq!(sent(&mut s), vec![touch(ACTION_MOVE, AIM_PID, 512, 496)]);
    // resting long enough lifts the finger
    let up = upkeep(&mut e, &mut s, (500, 500), true, 500 * MS);
    assert!(up.fast);
    let out = sent(&mut s);
    assert!(out.iter().any(|c| matches!(c, ControlCmd::Touch { action: 1, pointer_id: 3000, .. })));
}

#[test]
fn the_anchor_is_kept_on_the_screen() {
    let m = Mapper::new(CoordUnit::Rel, (100, 50));
    assert_eq!(aim_anchor(&m, (-3, 70)), (0, 49));
    assert_eq!(aim_anchor(&m, (10, 20)), (10, 20));
    let wide = Mapper { w: i32::MAX as u32, h: 0, legacy: true };
    assert_eq!(aim_anchor(&wide, (i32::MAX, 7)), (i32::MAX - 1, 0));
    let mut a = Aim::standard(1.0f32);
    a.recenter_threshold = -7;
    assert_eq!(threshold_px(&a), 1);
    a.recenter_threshold = 90;
    assert_eq!(threshold_px(&a), 90);
}

#[test]
fn waiting_ends_with_the_next_due_action() {
    let s: Vec<(u64, SchedAct)> = vec![(3 * MS, SchedAct::Up { pid: 1, x: 0, y: 0 })];
    assert_eq!(wait_for(&s, false, 0), 3 * MS);
    assert_eq!(wait_for(&s, false, 5 * MS), 0);
    assert_eq!(wait_for(&Vec::new(), true, 0), 4 * MS);
    assert_eq!(wait_for(&Vec::new(), false, 0), 16 * MS);
}

#[test]
fn a_layout_is_held_against_its_profile() {
    let p = contested();
    let ly = layout_of(&p);
    assert!(ly.check(&p));
    assert_eq!(ly.bind_point(0), (900, 800));
    let mut q = contested();
    q.binds.push(hold(1, 0.0, 0.0));
    assert!(!ly.check(&q));
}

#[test]
fn a_hold_lasts_as_long_as_its_key() {
    let mut p = fresh();
    p.wheels.clear();
    p.binds.push(hold(33, 0.5, 0.25));
    let ly = layout_of(&p);
    let mut eng = Engine::new();
    let mut s = shared_with(p);
    on_button(&mut eng, &mut s, &ly, 33, true, 0);
    assert_eq!(sent(&mut s), vec![touch(ACTION_DOWN, 1000, 500, 250)]);
    on_button(&mut eng, &mut s, &ly, 33, true, MS);
    assert_eq!(sent(&mut s), vec![]);
    on_button(&mut eng, &mut s, &ly, 33, false, 9 * MS);
    assert_eq!(sent(&mut s), vec![touch(ACTION_UP, 1000, 500, 250)]);
    assert!(eng.scheduled.is_empty());
}

#[test]
fn a_wheel_pushes_eight_ways_and_returns() {
    let mut p = fresh();
    p.wheels[0].cx = 0.5;
    p.wheels[0].cy = 0.5;
    p.wheels[0].radius = 0.1;
    let ly = layout_of(&p);
    assert_eq!((ly.wheels[0].push, ly.wheels[0].diagonal), (100, 70));
    let mut eng = Engine::new();
    let mut s = shared_with(p);
    // W, then D as well, then W is let go, then D.
    on_button(&mut eng, &mut s, &ly, 17, true, 0);
    assert_eq!(
        sent(&mut s),
        vec![touch(ACTION_DOWN, 2000, 500, 500), touch(ACTION_MOVE, 2000, 500, 400)]
    );
    on_button(&mut eng, &mut s, &ly, 32, true, 0);
    assert_eq!(sent(&mut s), vec![touch(ACTION_MOVE, 2000, 570, 430)]);
    on_button(&mut eng, &mut s, &ly, 17, false, 0);
    assert_eq!(sent(&mut s), vec![touch(ACTION_MOVE, 2000, 600, 500)]);
    on_button(&mut eng, &mut s, &ly, 32, false, 0);
    assert_eq!(
        sent(&mut s),
        vec![touch(ACTION_MOVE, 2000, 500, 500), touch(ACTION_UP, 2000, 500, 500)]
    );
}

#[test]
fn pointers_do_not_collide() {
    for i in 0..1000usize {
        assert!(bind_pid(i) < wheel_pid(0));
        assert!(wheel_pid(i) < AIM_PID);
    }
    assert_eq!(bind_pid(1000), wheel_pid(0));
}
