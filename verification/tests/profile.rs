use scrcpy_pad::editor::{
    add_wheel, bind_place, bind_radius, choose_easing, choose_path, convert_bind, delete_wheel,
    direction_key, flip_diameter, flip_temp_mode, is_draft_slot, make_permanent, place_anchor,
    set_radius, Clicked, CoordSlot, DraftKind, DraftRel, EasingChoice, EasingEditTarget,
    EasingNumbers, Editor, Ends, KeySlot, PathChoice, Prompt,
};
use scrcpy_pad::history::{History, MAX_STEPS};
use scrcpy_pad::keymap::{
    key_name, rect_points, swipe_points, upgrade_profile, Action, Aim, CoordUnit, Easing, KeyBind,
    Mapper, Profile, RecenterMode, StartNumbers, Swipe, SwipePath, TempMode, TempWheel, Wheel,
    DEFAULT_TAP_DURATION_MS, PROFILE_VERSION,
};
use scrcpy_pad::overlay::{marks, short_name, Mark, OverlayFilter};

fn fresh() -> Profile<f32> {
    Profile::standard(StartNumbers {
        cx: 0.278,
        cy: 0.375,
        radius: 0.111,
        scope: 1.0,
        sensitivity: 2.0,
        tone: 0.0,
    })
}

fn upgrade(p: &mut Profile<f32>, space: (u32, u32)) -> bool {
    let (w, h) = (space.0 as f32, space.1 as f32);
    let fits = |x: f32, y: f32| {
        x >= -1.0 && x <= w + 1.0 && y >= -1.0 && y <= h + 1.0
    };
    let rx = |v: f32| v / w;
    let ry = |v: f32| v / h;
    let ra = |a: (f32, f32)| {
        let b = (a.0 / w, a.1 / h);
        if b == (0.0, 0.0) { None } else { Some(b) }
    };
    upgrade_profile(p, space, &fits, &rx, &ry, &ra)
}

/// The pixel of a stored point.
fn px(m: &Mapper, x: f32, y: f32) -> (i32, i32) {
    if m.legacy {
        (x.round() as i32, y.round() as i32)
    } else {
        ((x * m.w as f32).round() as i32, (y * m.h as f32).round() as i32)
    }
}

fn px_len(m: &Mapper, r: f32) -> f32 {
    if m.legacy { r } else { r * m.w as f32 }
}

#[test]
fn upgrade_refuses_mismatched_orientation() {
    let mut p = fresh();
    p.format_version = 1;
    p.binds = vec![KeyBind {
        key: 37,
        action: Action::Hold { x: 2462.0, y: 1038.0, radius: 35.2 },
    }];
    assert!(!upgrade(&mut p, (1280, 2772)));
    assert_eq!(p.format_version, 1, "不匹配时不得升级");
    assert_eq!(p.binds[0].action, Action::Hold { x: 2462.0, y: 1038.0, radius: 35.2 });
    assert!(upgrade(&mut p, (2772, 1280)));
    assert_eq!(p.format_version, PROFILE_VERSION);
    let m = p.mapper((2772, 1280));
    match &p.binds[0].action {
        Action::Hold { x, y, .. } => {
            assert!((*x - 2462.0 / 2772.0).abs() < 1e-6);
            assert_eq!(px(&m, *x, *y), (2462, 1038));
        }
        _ => unreachable!(),
    }
}

#[test]
fn every_pixel_is_shown_where_it_was() {
    for (w, h) in [(1, 1), (7, 1280), (1080, 2400), (2772, 1280), (3, 4_000_000)] {
        let mut p = fresh();
        p.format_version = 1;
        let last = w.max(h) as i32 + 1;
        let step = (last / 3000).max(1) as usize;
        let places: Vec<(i32, i32)> = (-1..=last)
            .step_by(step)
            .map(|n| (n.min(w as i32 + 1), n.min(h as i32 + 1)))
            .collect();
        p.binds = places
            .iter()
            .map(|&(x, y)| KeyBind {
                key: 30,
                action: Action::Hold { x: x as f32, y: y as f32, radius: 1.0 },
            })
            .collect();
        assert!(upgrade(&mut p, (w, h)));
        let m = p.mapper((w, h));
        for (b, place) in p.binds.iter().zip(&places) {
            match b.action {
                Action::Hold { x, y, .. } => assert_eq!(px(&m, x, y), *place),
                _ => unreachable!(),
            }
        }
        assert!(!upgrade(&mut p, (w, h)));
    }
}

#[test]
fn upgrade_profile_keeps_pixel_positions() {
    let mut p = fresh();
    p.format_version = 1;
    p.binds = vec![KeyBind {
        key: 17,
        action: Action::Tap {
            x: 540.0,
            y: 1200.0,
            duration_ms: DEFAULT_TAP_DURATION_MS,
            radius: 35.2,
        },
    }];
    p.wheels = vec![Wheel {
        up: 17,
        down: 31,
        left: 30,
        right: 32,
        cx: 300.0,
        cy: 900.0,
        radius: 120.0,
        scope: 1.0,
        temp: None,
    }];
    p.aim.anchor = Some((810.0, 1200.0));

    assert_eq!(p.coord_unit(), CoordUnit::Pixel);
    assert!(upgrade(&mut p, (1080, 2400)));
    assert_eq!(p.format_version, PROFILE_VERSION);
    assert!(!upgrade(&mut p, (1080, 2400)), "不应重复升级");

    let m = p.mapper((1080, 2400));
    match &p.binds[0].action {
        Action::Tap { x, y, radius, .. } => {
            assert_eq!(px(&m, *x, *y), (540, 1200));
            assert!((px_len(&m, *radius) - 35.2).abs() < 0.01);
        }
        _ => unreachable!(),
    }
    let w = &p.wheels[0];
    assert_eq!(px(&m, w.cx, w.cy), (300, 900));
    assert!((px_len(&m, w.radius) - 120.0).abs() < 0.01);
    let a = p.aim.anchor.unwrap();
    assert_eq!(px(&m, a.0, a.1), (810, 1200));

    let m2 = p.mapper((720, 1600));
    match &p.binds[0].action {
        Action::Tap { x, y, .. } => assert_eq!(px(&m2, *x, *y), (360, 800)),
        _ => unreachable!(),
    }
}

#[test]
fn a_profile_is_upgraded_once() {
    let mut p = fresh();
    p.format_version = 1;
    p.wheels.clear();
    p.binds.push(KeyBind { key: 30, action: Action::Hold { x: 540.0, y: 1200.0, radius: 36.0 } });
    assert!(upgrade(&mut p, (1080, 2400)));
    let once = p.binds[0].action;
    assert_eq!(once, Action::Hold { x: 0.5, y: 0.5, radius: 36.0 / 1080.0 });
    assert!(!upgrade(&mut p, (2400, 1080)));
    assert_eq!(p.binds[0].action, once);
    assert_eq!(p.screen, Some((1080, 2400)));
}

#[test]
fn a_screen_without_area_upgrades_nothing() {
    let mut p = fresh();
    p.format_version = 1;
    assert!(!upgrade(&mut p, (0, 100)));
    assert!(!upgrade(&mut p, (100, 0)));
    assert_eq!(p.format_version, 1);
}

#[test]
fn mappers_never_have_an_empty_side() {
    let m = Mapper::new(CoordUnit::Pixel, (0, 7));
    assert_eq!((m.w, m.h, m.legacy), (1, 7, true));
    assert!(!Mapper::new(CoordUnit::Rel, (3, 7)).legacy);
}

#[test]
fn paths_of_swipes() {
    let circle = |d: bool, a: f32, s: (i32, i32), e: (i32, i32), n: usize| {
        assert!(d);
        vec![s, e, (a as i32, n as i32)]
    };
    let rect = vec![(0, 0), (4, 0), (4, 3), (0, 3), (0, 0)];
    assert_eq!(rect_points((0, 0), (4, 3)), rect);
    assert_eq!(swipe_points(SwipePath::Line, (0, 0), (4, 3), 9, &circle), vec![(0, 0), (4, 3)]);
    assert_eq!(swipe_points(SwipePath::Rect, (0, 0), (4, 3), 9, &circle), rect);
    let c = SwipePath::Circle { as_diameter: true, start_angle: 5.0 };
    assert_eq!(
        swipe_points(c, (0, 0), (4, 3), 1, &circle),
        vec![(0, 0), (4, 3), (5, 2)],
        "a circle has at least two points"
    );
}

#[test]
fn swipes_from_older_files() {
    let points = Some(vec![(1.0f32, 2.0), (5.0, 6.0), (3.0, 4.0)]);
    let s = Swipe::from_parts(None, None, points.clone(), None, None, None, (0.0, 0.0));
    assert_eq!((s.start, s.end, s.duration_ms), ((1.0, 2.0), (3.0, 4.0), 300));
    assert_eq!((s.easing, s.path), (Easing::Linear, SwipePath::Line));
    let s = Swipe::from_parts(Some((9.0, 9.0)), Some((8.0, 8.0)), points, Some(7), None, None, (0.0, 0.0));
    assert_eq!((s.start, s.end, s.duration_ms), ((9.0, 9.0), (8.0, 8.0), 7));
    let s = Swipe::from_parts(Some((9.0f32, 9.0)), None, None, None, None, None, (0.5, 0.5));
    assert_eq!((s.start, s.end), ((0.5, 0.5), (0.5, 0.5)));
}

#[test]
fn actions_describe_themselves() {
    let pct = |v: f32| format!("{:.0}%", v * 100.0);
    let tap = |d| Action::Tap { x: 0.5f32, y: 0.25, duration_ms: d, radius: 0.1 };
    assert_eq!(tap(40).describe(&pct), "点按 50%,25% / 40ms");
    assert_eq!(tap(0).describe(&pct), "点按 50%,25% / 按住切换");
    assert_eq!(Action::Hold { x: 0.5f32, y: 0.25, radius: 0.1 }.describe(&pct), "长按 50%,25%");
    assert_eq!(Action::<f32>::AndroidKey { keycode: 4 }.describe(&pct), "系统键 keycode=4");
    let s = Action::Swipe(Swipe {
        start: (0.0f32, 0.1),
        end: (1.0, 0.2),
        duration_ms: 300,
        easing: Easing::Linear,
        path: SwipePath::Rect,
    });
    assert_eq!(s.describe(&pct), "滑动 (0%,10%)→(100%,20%) / 300ms / 默认(匀速) / 方形");
    assert_eq!(s.kind_name(), "滑动");
}

#[test]
fn keys_have_names() {
    assert_eq!(key_name(30, false), "KEY_A");
    assert_eq!(key_name(273, false), "BTN_RIGHT");
    assert_eq!(key_name(30, true), "KeyA");
    assert_eq!(key_name(273, true), "BTN_RIGHT");
    assert_eq!(key_name(9999, true), "Key(9999)");
    assert_eq!(short_name(30, false), "A");
    assert_eq!(short_name(273, false), "BTN_RIGHT");
    assert_eq!(short_name(30, true), "KeyA");
    assert_eq!(RecenterMode::Threshold.label(), "阈值归中");
}

#[test]
fn a_fresh_profile_has_one_wheel() {
    let p = fresh();
    assert_eq!(p.format_version, PROFILE_VERSION);
    assert_eq!(p.toggle_key, 66);
    assert!(p.binds.is_empty());
    assert_eq!(p.wheels.len(), 1);
    assert!(!p.aim.anchor_set());
    assert_eq!(p.aim, Aim::standard(2.0));
    let q = p.clone();
    assert_eq!((q.name.as_str(), q.wheels.len()), ("默认配置", 1));
}

fn rel() -> DraftRel<f32> {
    DraftRel { at: (0.1, 0.2), radius: 0.03, start: (0.3, 0.4), end: (0.5, 0.6) }
}

#[test]
fn a_new_binding_from_place_to_key() {
    let mut p = fresh();
    let mut e = Editor::new(35.0f32);
    assert_eq!(e.prompt(), Prompt::Idle);
    assert!(!e.add_bind(&mut p, rel()), "a binding needs a key");
    e.begin_pick(CoordSlot::NewBind);
    assert_eq!(e.prompt(), Prompt::Pick { draft: true });
    assert_eq!(e.click(&mut p, (7, 8), (0.1, 0.2), Some((0.1, 0.2)), 0.0), Clicked::TakenNeedsKey);
    assert_eq!((e.draft.x, e.draft.y), (7, 8));
    assert_eq!(e.prompt(), Prompt::PressKey);
    assert!(e.take_key(&mut p, 30));
    assert!(!e.take_key(&mut p, 31), "a key is taken once");
    assert_eq!(e.prompt(), Prompt::FinishDraft);
    assert!(e.add_bind(&mut p, rel()));
    assert_eq!(
        p.binds,
        vec![KeyBind {
            key: 30,
            action: Action::Tap { x: 0.1, y: 0.2, duration_ms: 40, radius: 0.03 },
        }]
    );
    assert_eq!(e.prompt(), Prompt::Idle);
    assert_eq!(e.click(&mut p, (1, 1), (0.0, 0.0), Some((0.0, 0.0)), 0.0), Clicked::Shown);
}

#[test]
fn drafts_of_every_kind() {
    let mut p = fresh();
    let mut e = Editor::new(35.0f32);
    for kind in [DraftKind::Hold, DraftKind::Swipe, DraftKind::Key] {
        e.choose_kind(kind);
        assert!(e.draft_active);
        e.begin_key(KeySlot::NewBind);
        assert!(e.take_key(&mut p, 30));
        assert!(e.add_bind(&mut p, rel()));
    }
    assert_eq!(p.binds[0].action, Action::Hold { x: 0.1, y: 0.2, radius: 0.03 });
    assert_eq!(
        p.binds[1].action,
        Action::Swipe(Swipe {
            start: (0.3, 0.4),
            end: (0.5, 0.6),
            duration_ms: 300,
            easing: Easing::Linear,
            path: SwipePath::Line,
        })
    );
    assert_eq!(p.binds[2].action, Action::AndroidKey { keycode: 4 });
    e.choose_kind(DraftKind::Key);
    assert!(!e.draft_active, "the same choice opens no draft");
    assert_eq!(DraftKind::Hold.label(), "长按");
}

#[test]
fn the_latest_interaction_wins() {
    let mut e = Editor::new(35.0f32);
    e.begin_resize(2);
    assert_eq!(e.prompt(), Prompt::Resize(2));
    e.begin_pick(CoordSlot::Bind(1));
    assert_eq!((e.resizing, e.picks(CoordSlot::Bind(1))), (None, true));
    e.begin_key(KeySlot::Toggle);
    assert_eq!(e.picking, None);
    assert!(e.waits_for(KeySlot::Toggle));
    e.begin_resize(0);
    assert_eq!((e.waiting_key, e.picking), (None, None));
    e.end_resize();
    assert_eq!(e.prompt(), Prompt::Idle);
}

#[test]
fn giving_up_a_draft() {
    let mut e = Editor::new(35.0f32);
    e.begin_pick(CoordSlot::NewSwipeEnd);
    assert!(is_draft_slot(CoordSlot::NewSwipeEnd));
    e.cancel_pick();
    assert!(!e.draft_active && e.picking.is_none());
    e.begin_pick(CoordSlot::WheelCenter(0));
    e.draft_active = true;
    e.cancel_pick();
    assert!(e.draft_active && e.picking.is_none());
    e.begin_key(KeySlot::NewBind);
    e.draft.key = Some(3);
    e.cancel_draft();
    assert_eq!((e.waiting_key, e.draft.key, e.draft_active), (None, None, false));
    assert_eq!(Prompt::PressKey.label(), "已取点: 请按下要绑定的按键");
}

#[test]
fn keys_go_where_they_are_asked_for() {
    let mut p = fresh();
    p.binds = vec![KeyBind { key: 1, action: Action::AndroidKey { keycode: 4 } }];
    let mut e = Editor::new(35.0f32);
    e.assign_key(&mut p, KeySlot::Bind(0), 50);
    e.assign_key(&mut p, KeySlot::Bind(9), 51);
    assert_eq!(p.binds[0].key, 50);
    for dir in 0..4 {
        e.assign_key(&mut p, KeySlot::WheelDir { wheel: 0, dir }, 60 + dir as u16);
        assert_eq!(direction_key(&p.wheels[0], dir), 60 + dir as u16);
    }
    e.assign_key(&mut p, KeySlot::WheelEnable(0), 18);
    assert_eq!(p.wheels[0].temp, Some(TempWheel { key: 18, mode: TempMode::Hold }));
    flip_temp_mode(&mut p, 0);
    e.assign_key(&mut p, KeySlot::WheelEnable(0), 19);
    assert_eq!(p.wheels[0].temp, Some(TempWheel { key: 19, mode: TempMode::Toggle }));
    make_permanent(&mut p, 0);
    assert_eq!(p.wheels[0].temp, None);
    e.assign_key(&mut p, KeySlot::Toggle, 70);
    e.assign_key(&mut p, KeySlot::AimHold, 273);
    assert_eq!((p.toggle_key, p.aim.hold_key), (70, 273));
}

#[test]
fn places_go_where_they_are_asked_for() {
    let mut p = fresh();
    let circle = SwipePath::Circle { as_diameter: false, start_angle: 0.0 };
    p.binds = vec![
        KeyBind { key: 1, action: Action::Tap { x: 0.0, y: 0.0, duration_ms: 9, radius: 0.5 } },
        KeyBind {
            key: 2,
            action: Action::Swipe(Swipe {
                start: (0.0, 0.0),
                end: (0.0, 0.0),
                duration_ms: 100,
                easing: Easing::Linear,
                path: circle,
            }),
        },
    ];
    let mut e = Editor::new(35.0f32);
    e.assign_coord(&mut p, CoordSlot::Bind(0), (1, 2), (0.1, 0.2), Some((0.1, 0.2)), 9.0);
    assert_eq!(
        p.binds[0].action,
        Action::Tap { x: 0.1, y: 0.2, duration_ms: 9, radius: 0.5 }
    );
    e.assign_coord(&mut p, CoordSlot::SwipeStart(1), (1, 2), (0.3, 0.4), Some((0.3, 0.4)), 9.0);
    e.assign_coord(&mut p, CoordSlot::SwipeEnd(1), (1, 2), (0.5, 0.6), Some((0.5, 0.6)), 9.0);
    assert_eq!(
        e.circle_of(&p, CoordSlot::CircleAngle(1)),
        Some((false, Ends::Stored((0.3, 0.4), (0.5, 0.6))))
    );
    e.assign_coord(&mut p, CoordSlot::CircleAngle(1), (1, 2), (0.7, 0.8), Some((0.7, 0.8)), 1.5);
    match p.binds[1].action {
        Action::Swipe(s) => {
            assert_eq!((s.start, s.end), ((0.3, 0.4), (0.5, 0.6)));
            assert_eq!(s.path, SwipePath::Circle { as_diameter: false, start_angle: 1.5 });
        }
        _ => unreachable!(),
    }
    e.assign_coord(&mut p, CoordSlot::WheelCenter(0), (1, 2), (0.7, 0.8), Some((0.7, 0.8)), 9.0);
    assert_eq!((p.wheels[0].cx, p.wheels[0].cy), (0.7, 0.8));
    e.assign_coord(&mut p, CoordSlot::AimAnchor, (1, 2), (0.9, 0.8), Some((0.9, 0.8)), 9.0);
    assert_eq!(p.aim.anchor, Some((0.9, 0.8)));
    e.begin_pick(CoordSlot::AimAnchor);
    assert_eq!(e.click(&mut p, (0, 0), (0.0, 0.0), None, 9.0), Clicked::Taken);
    assert_eq!(p.aim.anchor, None, "the origin is no anchor");
    e.assign_coord(&mut p, CoordSlot::SwipeStart(0), (1, 2), (0.0, 0.0), Some((0.0, 0.0)), 9.0);
    e.assign_coord(&mut p, CoordSlot::Bind(77), (1, 2), (0.0, 0.0), Some((0.0, 0.0)), 9.0);
    assert_eq!(p.binds.len(), 2);
    e.draft.swipe_path = circle;
    e.assign_coord(&mut p, CoordSlot::NewSwipeStart, (11, 12), (0.0, 0.0), Some((0.0, 0.0)), 9.0);
    e.assign_coord(&mut p, CoordSlot::NewSwipeEnd, (13, 14), (0.0, 0.0), Some((0.0, 0.0)), 9.0);
    assert_eq!(
        e.circle_of(&p, CoordSlot::NewCircleAngle),
        Some((false, Ends::Pixels((11, 12), (13, 14))))
    );
    e.assign_coord(&mut p, CoordSlot::NewCircleAngle, (1, 1), (0.0, 0.0), Some((0.0, 0.0)), 2.5);
    assert_eq!(e.draft.swipe_path, SwipePath::Circle { as_diameter: false, start_angle: 2.5 });
    assert_eq!(e.circle_of(&p, CoordSlot::AimAnchor), None);
}

#[test]
fn deleting_a_binding_ends_what_concerned_it() {
    let mut p = fresh();
    let bind = KeyBind { key: 1, action: Action::Hold { x: 0.0, y: 0.0, radius: 0.1 } };
    p.binds = vec![bind, bind];
    let mut e = Editor::new(35.0f32);
    e.begin_resize(1);
    e.easing_edit = Some(EasingEditTarget::Bind(1));
    e.delete_bind(&mut p, 1);
    assert_eq!((p.binds.len(), e.resizing, e.easing_edit), (1, None, None));
    e.begin_pick(CoordSlot::AimAnchor);
    e.delete_bind(&mut p, 0);
    assert!(p.binds.is_empty());
    assert!(e.picks(CoordSlot::AimAnchor), "what concerned something else goes on");
}

#[test]
fn taps_and_holds_turn_into_each_other() {
    let mut p = fresh();
    p.binds = vec![
        KeyBind { key: 1, action: Action::Tap { x: 0.1, y: 0.2, duration_ms: 9, radius: 0.5 } },
        KeyBind { key: 1, action: Action::AndroidKey { keycode: 3 } },
    ];
    convert_bind(&mut p, 0);
    assert_eq!(p.binds[0].action, Action::Hold { x: 0.1, y: 0.2, radius: 0.5 });
    convert_bind(&mut p, 0);
    assert_eq!(p.binds[0].action, Action::Tap { x: 0.1, y: 0.2, duration_ms: 40, radius: 0.5 });
    convert_bind(&mut p, 1);
    assert_eq!(p.binds[1].action, Action::AndroidKey { keycode: 3 });
    set_radius(&mut p, 0, 0.7);
    set_radius(&mut p, 1, 0.7);
    assert_eq!((bind_radius(&p, 0), bind_radius(&p, 1), bind_radius(&p, 2)), (Some(0.7), None, None));
    assert_eq!((bind_place(&p, 0), bind_place(&p, 1)), (Some((0.1, 0.2)), None));
}

#[test]
fn wheels_and_anchor() {
    let mut p = fresh();
    add_wheel(&mut p, (0.1, 0.2), 0.3, 1.0);
    assert_eq!((p.wheels.len(), p.wheels[1].up, p.wheels[1].cy), (2, 17, 0.2));
    delete_wheel(&mut p, 0);
    assert_eq!((p.wheels.len(), p.wheels[0].cx), (1, 0.1));
    assert!(!place_anchor(&mut p.aim, (0.75, 0.5)));
    p.aim.enabled = true;
    assert!(place_anchor(&mut p.aim, (0.75, 0.5)));
    assert!(!place_anchor(&mut p.aim, (0.1, 0.1)));
    assert_eq!(p.aim.anchor, Some((0.75, 0.5)));
}

#[test]
fn curves_and_shapes_of_swipes() {
    let n = EasingNumbers { power: 2.0f32, smooth: 3.0, bezier: (0.42, 0.0, 0.58, 1.0) };
    let mut s = Swipe {
        start: (0.0f32, 0.0),
        end: (1.0, 1.0),
        duration_ms: 5,
        easing: Easing::Linear,
        path: SwipePath::Line,
    };
    choose_easing(&mut s, EasingChoice::EaseOut, &n);
    assert_eq!(s.easing, Easing::EaseOut { power: 2.0 });
    choose_easing(&mut s, EasingChoice::Smooth, &n);
    assert_eq!(s.easing, Easing::Smooth { power: 3.0 });
    choose_easing(&mut s, EasingChoice::Bezier, &n);
    assert_eq!(s.easing, Easing::Bezier { x1: 0.42, y1: 0.0, x2: 0.58, y2: 1.0 });
    assert_eq!(s.easing.label(), "贝塞尔曲线");
    choose_path(&mut s, PathChoice::Circle, 0.0);
    flip_diameter(&mut s);
    assert_eq!(s.path, SwipePath::Circle { as_diameter: false, start_angle: 0.0 });
    choose_path(&mut s, PathChoice::Rect, 0.0);
    flip_diameter(&mut s);
    assert_eq!(s.path, SwipePath::Rect);

    let mut p = fresh();
    p.binds = vec![KeyBind { key: 1, action: Action::Swipe(s) }];
    let mut e = Editor::new(35.0f32);
    assert_eq!(e.edited_easing(&p), None);
    e.easing_edit = Some(EasingEditTarget::Bind(0));
    assert_eq!(e.edited_easing(&p), Some(s.easing));
    e.store_easing(&mut p, Easing::Linear);
    assert_eq!(e.edited_easing(&p), Some(Easing::Linear));
    e.easing_edit = Some(EasingEditTarget::New);
    e.store_easing(&mut p, Easing::EaseIn { power: 4.0 });
    assert_eq!(e.draft.swipe_easing, Easing::EaseIn { power: 4.0 });
    e.easing_edit = Some(EasingEditTarget::Bind(5));
    assert_eq!(e.edited_easing(&p), None);
    assert_eq!(e.easing_edit, None);
    e.reset_draft((1081, 2400), 20.0, 1800, 600);
    assert_eq!((e.draft.x, e.draft.y, e.draft.radius), (540, 1200, 20.0));
    assert_eq!((e.draft.swipe_start, e.draft.swipe_end), ((540, 1800), (540, 600)));
}

#[test]
fn steps_are_taken_back_and_forth() {
    let mut h = History::default();
    let mut now = 0;
    for i in 1..=3 {
        h.push(now);
        now = i;
    }
    assert!(h.undo(&mut now));
    assert!(h.undo(&mut now));
    assert_eq!(now, 1);
    assert!(h.redo(&mut now));
    assert_eq!(now, 2);
    h.push(now);
    now = 9;
    assert!(!h.redo(&mut now), "a new step leaves nothing to return to");
    assert!(h.undo(&mut now));
    assert_eq!(now, 2);
    h.clear();
    assert!(!h.undo(&mut now));
}

#[test]
fn only_so_many_steps_are_kept() {
    let mut h = History::default();
    let mut now = 0;
    for i in 1..=60 {
        h.push(now);
        now = i;
    }
    let mut n = 0;
    while h.undo(&mut now) {
        n += 1;
    }
    assert_eq!((n, now), (MAX_STEPS, 10));
}

#[test]
fn a_frame_makes_one_step() {
    let mut h = History::default();
    h.hold(1);
    h.push(2);
    h.end_frame();
    assert_eq!(h.undo_stack, vec![2]);
    h.hold(3);
    h.end_frame();
    h.end_frame();
    assert_eq!(h.undo_stack, vec![2, 3]);
}

fn kinds(v: &Vec<Mark>) -> Vec<String> {
    v.iter()
        .map(|m| match m {
            Mark::Key { bind, label, .. } => format!("key{bind}:{label}"),
            Mark::Track { bind, label } => format!("track{bind}:{label}"),
            Mark::DraftTrack => "draft track".to_string(),
            Mark::DraftRing => "draft ring".to_string(),
            Mark::Anchor { threshold, label } => format!("anchor{threshold:?}:{label}"),
            Mark::Stick { wheel, temporary, label, .. } => format!("stick{wheel}{temporary}:{label}"),
        })
        .collect()
}

#[test]
fn marks_follow_the_filter() {
    let mut p = fresh();
    p.binds = vec![
        KeyBind { key: 30, action: Action::Tap { x: 0.0, y: 0.0, duration_ms: 1, radius: 0.1 } },
        KeyBind { key: 48, action: Action::AndroidKey { keycode: 4 } },
        KeyBind {
            key: 46,
            action: Action::Swipe(Swipe {
                start: (0.0, 0.0),
                end: (0.0, 0.0),
                duration_ms: 1,
                easing: Easing::Linear,
                path: SwipePath::Line,
            }),
        },
    ];
    let mut temp = p.wheels[0];
    temp.temp = Some(TempWheel { key: 18, mode: TempMode::Toggle });
    p.wheels.push(temp);
    p.aim.anchor = Some((0.5, 0.5));
    p.aim.hold_key = 273;
    p.aim.recenter = RecenterMode::Threshold;
    let mut e = Editor::new(35.0f32);
    let anchor = "anchorSome(400):瞄准锚点 [BTN_RIGHT]";
    let perm = "stick0false:摇杆 W/A/S/D";
    let tempo = "stick1true:临时摇杆[E·切换] W/A/S/D";
    assert_eq!(
        kinds(&marks(&p, &e, OverlayFilter::All, false)),
        vec!["key0:A", "track2:C", anchor, perm, tempo]
    );
    e.draft_active = true;
    assert_eq!(
        kinds(&marks(&p, &e, OverlayFilter::Keys, false)),
        vec!["key0:A", "track2:C", "draft ring"]
    );
    assert_eq!(kinds(&marks(&p, &e, OverlayFilter::Wheels, false)), vec![perm, tempo]);
    assert_eq!(kinds(&marks(&p, &e, OverlayFilter::PermWheels, false)), vec![perm]);
    assert_eq!(kinds(&marks(&p, &e, OverlayFilter::TempWheels, false)), vec![tempo]);
    assert_eq!(kinds(&marks(&p, &e, OverlayFilter::Aim, false)), vec![anchor]);
    assert_eq!(OverlayFilter::Aim.label(), "锚点(FPS)");

    e.resizing = Some(0);
    let th = p.look.theme();
    match &marks(&p, &e, OverlayFilter::Keys, false)[0] {
        Mark::Key { ring, fill, .. } => {
            assert_eq!((*ring, *fill), (th.key_resize, th.key_resize_fill))
        }
        _ => unreachable!(),
    }
    let sticks = marks(&p, &e, OverlayFilter::Wheels, false);
    for (mark, colour) in sticks.iter().zip([th.wheel_perm, th.wheel_temp]) {
        match mark {
            Mark::Stick { ring, ink, .. } => assert_eq!((*ring, *ink), (colour, colour)),
            _ => unreachable!(),
        }
    }
}
