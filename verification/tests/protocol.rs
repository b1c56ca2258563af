use scrcpy_pad::control::{
    serialize, ControlClient, ControlCmd, ACTION_DOWN, ACTION_MOVE, ACTION_UP,
    TYPE_INJECT_KEYCODE, TYPE_INJECT_TOUCH,
};

#[test]
fn touch_message_layout_matches_scrcpy() {
    let buf = serialize(
        ControlCmd::Touch {
            action: ACTION_DOWN,
            pointer_id: 0x0102_0304_0506_0708,
            x: 0x1122_3344,
            y: 0x5566_7788,
        },
        0x0A0B,
        0x0C0D,
    );
    assert_eq!(buf.len(), 32, "触控消息固定 32 字节");
    assert_eq!(buf[0], TYPE_INJECT_TOUCH);
    assert_eq!(buf[1], ACTION_DOWN);
    assert_eq!(&buf[2..10], &0x0102_0304_0506_0708u64.to_be_bytes());
    assert_eq!(&buf[10..14], &0x1122_3344u32.to_be_bytes());
    assert_eq!(&buf[14..18], &0x5566_7788u32.to_be_bytes());
    assert_eq!(&buf[18..20], &0x0A0Bu16.to_be_bytes());
    assert_eq!(&buf[20..22], &0x0C0Du16.to_be_bytes());
    assert_eq!(&buf[22..24], &0xFFFFu16.to_be_bytes(), "按下时压力满值");
    assert_eq!(&buf[24..32], &[0u8; 8], "action_button 与 buttons 恒为 0");
}

#[test]
fn touch_message_clamps_negative_coords_and_release_pressure() {
    let buf = serialize(
        ControlCmd::Touch {
            action: ACTION_UP,
            pointer_id: 1,
            x: (-5i32).max(0) as u32,
            y: (-1i32).max(0) as u32,
        },
        100,
        200,
    );
    assert_eq!(&buf[22..24], &0u16.to_be_bytes(), "抬起时压力为 0");
    assert_eq!(&buf[10..14], &0u32.to_be_bytes());
    assert_eq!(&buf[14..18], &0u32.to_be_bytes());
}

#[test]
fn key_message_layout_matches_scrcpy() {
    let buf = serialize(ControlCmd::Key { action: ACTION_DOWN, keycode: 4 }, 0, 0);
    assert_eq!(buf.len(), 14);
    assert_eq!(buf[0], TYPE_INJECT_KEYCODE);
    assert_eq!(buf[1], ACTION_DOWN);
    assert_eq!(&buf[2..6], &4u32.to_be_bytes());
    assert_eq!(&buf[6..14], &[0u8; 8]);
}

#[test]
fn client_queues_touches_with_clamped_places() {
    let mut c = ControlClient::new(1080, 2400);
    assert!(c.is_connected());
    c.touch_down(7, -5, 12);
    c.touch_move(7, 3, -1);
    c.touch_up(7, 4, 5);
    c.key(true, 4);
    c.key(false, 4);
    assert_eq!(
        c.take_queue(),
        vec![
            ControlCmd::Touch { action: ACTION_DOWN, pointer_id: 7, x: 0, y: 12 },
            ControlCmd::Touch { action: ACTION_MOVE, pointer_id: 7, x: 3, y: 0 },
            ControlCmd::Touch { action: ACTION_UP, pointer_id: 7, x: 4, y: 5 },
            ControlCmd::Key { action: ACTION_DOWN, keycode: 4 },
            ControlCmd::Key { action: ACTION_UP, keycode: 4 },
        ]
    );
    assert!(c.take_queue().is_empty());
}

#[test]
fn different_commands_have_different_bytes() {
    let a = serialize(ControlCmd::Touch { action: ACTION_DOWN, pointer_id: 1, x: 2, y: 3 }, 9, 9);
    let b = serialize(ControlCmd::Touch { action: ACTION_DOWN, pointer_id: 1, x: 2, y: 4 }, 9, 9);
    let c = serialize(ControlCmd::Key { action: ACTION_DOWN, keycode: 3 }, 9, 9);
    assert_ne!(a, b);
    assert_ne!(a, c);
}
