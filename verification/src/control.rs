//! The scrcpy control channel: commands, their wire format and the outgoing queue.

use vstd::prelude::*;

verus! {

/// A pointer or key goes down.
pub const ACTION_DOWN: u8 = 0;

/// A pointer or key goes up.
pub const ACTION_UP: u8 = 1;

/// A pointer that is down moves.
pub const ACTION_MOVE: u8 = 2;

pub const TYPE_INJECT_KEYCODE: u8 = 0;

pub const TYPE_INJECT_TOUCH: u8 = 2;

/// One message to the device.
#[derive(Debug, Clone, Copy, PartialEq, Eq, Structural)]
pub enum ControlCmd {
    Touch { action: u8, pointer_id: u64, x: u32, y: u32 },
    Key { action: u8, keycode: u32 },
}

/// Big-endian bytes of a 16-bit number.
pub open spec fn be16(v: u16) -> Seq<u8> {
    seq![(v / 256) as u8, (v % 256) as u8]
}

/// Big-endian bytes of a 32-bit number.
pub open spec fn be32(v: u32) -> Seq<u8> {
    be16((v / 65536) as u16) + be16((v % 65536) as u16)
}

/// Big-endian bytes of a 64-bit number.
pub open spec fn be64(v: u64) -> Seq<u8> {
    be32((v / 4294967296) as u32) + be32((v % 4294967296) as u32)
}

/// `n` zero bytes.
pub open spec fn zeros(n: nat) -> Seq<u8> {
    Seq::new(n, |i: int| 0u8)
}

/// The pressure field: full while the pointer is down, zero when it goes up.
pub open spec fn pressure_of(action: u8) -> u16 {
    if action == ACTION_UP {
        0u16
    } else {
        0xFFFFu16
    }
}

/// The wire form of a command on a screen of `w` by `h` pixels: 32 bytes for a touch
/// (type, action, pointer id, x, y, width, height, pressure, and two 32-bit button
/// fields that stay zero), 14 bytes for a key (type, action, key code, and the repeat
/// count and meta state that stay zero).
pub open spec fn wire(cmd: ControlCmd, w: u16, h: u16) -> Seq<u8> {
    match cmd {
        ControlCmd::Touch { action, pointer_id, x, y } => seq![TYPE_INJECT_TOUCH, action]
            + be64(pointer_id) + be32(x) + be32(y) + be16(w) + be16(h) + be16(pressure_of(action))
            + zeros(8),
        ControlCmd::Key { action, keycode } => seq![TYPE_INJECT_KEYCODE, action] + be32(keycode)
            + zeros(8),
    }
}

fn push_be16(buf: &mut Vec<u8>, v: u16)
    ensures
        final(buf)@ == old(buf)@ + be16(v),
{
    buf.push((v / 256) as u8);
    buf.push((v % 256) as u8);
}

fn push_be32(buf: &mut Vec<u8>, v: u32)
    ensures
        final(buf)@ == old(buf)@ + be32(v),
{
    push_be16(buf, (v / 65536) as u16);
    push_be16(buf, (v % 65536) as u16);
}

fn push_be64(buf: &mut Vec<u8>, v: u64)
    ensures
        final(buf)@ == old(buf)@ + be64(v),
{
    push_be32(buf, (v / 4294967296) as u32);
    push_be32(buf, (v % 4294967296) as u32);
}

fn push_zeros(buf: &mut Vec<u8>, n: usize)
    ensures
        final(buf)@ == old(buf)@ + zeros(n as nat),
{
    let ghost before = buf@;
    for i in 0..n
        invariant
            buf@ == before + zeros(i as nat),
    {
        buf.push(0u8);
    }
}

/// Serialises a command for a screen of `w` by `h` pixels.
pub fn serialize(cmd: ControlCmd, w: u16, h: u16) -> (buf: Vec<u8>)
    ensures
        buf@ == wire(cmd, w, h),
{
    let mut buf: Vec<u8> = Vec::new();
    match cmd {
        ControlCmd::Touch { action, pointer_id, x, y } => {
            buf.push(TYPE_INJECT_TOUCH);
            buf.push(action);
            push_be64(&mut buf, pointer_id);
            push_be32(&mut buf, x);
            push_be32(&mut buf, y);
            push_be16(&mut buf, w);
            push_be16(&mut buf, h);
            let pressure: u16 = if action == ACTION_UP {
                0
            } else {
                0xFFFF
            };
            push_be16(&mut buf, pressure);
            push_zeros(&mut buf, 8);
        },
        ControlCmd::Key { action, keycode } => {
            buf.push(TYPE_INJECT_KEYCODE);
            buf.push(action);
            push_be32(&mut buf, keycode);
            push_zeros(&mut buf, 8);
        },
    }
    buf
}

/// A coordinate as the protocol carries it: what lies left of or above the screen is 0.
pub open spec fn on_wire(v: i32) -> u32 {
    if v < 0 {
        0u32
    } else {
        v as u32
    }
}

fn to_wire(v: i32) -> (r: u32)
    ensures
        r == on_wire(v),
{
    if v < 0 {
        0
    } else {
        v as u32
    }
}

/// The touch command with the given action at a pixel position.
pub open spec fn touch(action: u8, pointer_id: u64, at: (i32, i32)) -> ControlCmd {
    ControlCmd::Touch { action, pointer_id, x: on_wire(at.0), y: on_wire(at.1) }
}

/// The key command that presses (`down`) or releases an Android key.
pub open spec fn key_cmd(down: bool, keycode: u32) -> ControlCmd {
    ControlCmd::Key {
        action: if down {
            ACTION_DOWN
        } else {
            ACTION_UP
        },
        keycode,
    }
}

/// The sending side of the control channel: commands queue up here in order until the
/// writer takes them.
pub struct ControlClient {
    /// Commands not yet handed to the writer, oldest first.
    pub queue: Vec<ControlCmd>,
    /// Whether the socket was alive when last looked at.
    pub connected: bool,
    /// Device screen width in logical pixels.
    pub screen_w: u32,
    /// Device screen height in logical pixels.
    pub screen_h: u32,
}

impl View for ControlClient {
    type V = Seq<ControlCmd>;

    open spec fn view(&self) -> Seq<ControlCmd> {
        self.queue@
    }
}

impl ControlClient {
    /// Two clients that differ at most in what they have queued.
    pub open spec fn same_link(self, other: ControlClient) -> bool {
        &&& self.connected == other.connected
        &&& self.screen_w == other.screen_w
        &&& self.screen_h == other.screen_h
    }

    /// A live channel to a screen of the given size with nothing queued.
    pub fn new(screen_w: u32, screen_h: u32) -> (c: Self)
        ensures
            c@ == Seq::<ControlCmd>::empty(),
            c.connected,
            c.screen_w == screen_w,
            c.screen_h == screen_h,
    {
        ControlClient { queue: Vec::new(), connected: true, screen_w, screen_h }
    }

    pub fn is_connected(&self) -> (r: bool)
        ensures
            r == self.connected,
    {
        self.connected
    }

    /// Queues one command behind all earlier ones.
    pub fn send(&mut self, cmd: ControlCmd)
        ensures
            final(self)@ == old(self)@.push(cmd),
            final(self).same_link(*old(self)),
    {
        self.queue.push(cmd);
    }

    pub fn touch_down(&mut self, pointer_id: u64, x: i32, y: i32)
        ensures
            final(self)@ == old(self)@.push(touch(ACTION_DOWN, pointer_id, (x, y))),
            final(self).same_link(*old(self)),
    {
        self.send(
            ControlCmd::Touch { action: ACTION_DOWN, pointer_id, x: to_wire(x), y: to_wire(y) },
        );
    }

    pub fn touch_move(&mut self, pointer_id: u64, x: i32, y: i32)
        ensures
            final(self)@ == old(self)@.push(touch(ACTION_MOVE, pointer_id, (x, y))),
            final(self).same_link(*old(self)),
    {
        self.send(
            ControlCmd::Touch { action: ACTION_MOVE, pointer_id, x: to_wire(x), y: to_wire(y) },
        );
    }

    pub fn touch_up(&mut self, pointer_id: u64, x: i32, y: i32)
        ensures
            final(self)@ == old(self)@.push(touch(ACTION_UP, pointer_id, (x, y))),
            final(self).same_link(*old(self)),
    {
        self.send(
            ControlCmd::Touch { action: ACTION_UP, pointer_id, x: to_wire(x), y: to_wire(y) },
        );
    }

    pub fn key(&mut self, down: bool, keycode: u32)
        ensures
            final(self)@ == old(self)@.push(key_cmd(down, keycode)),
            final(self).same_link(*old(self)),
    {
        let action: u8 = if down {
            ACTION_DOWN
        } else {
            ACTION_UP
        };
        self.send(ControlCmd::Key { action, keycode });
    }

    /// Hands over everything queued so far and leaves the queue empty.
    pub fn take_queue(&mut self) -> (cmds: Vec<ControlCmd>)
        ensures
            cmds@ == old(self)@,
            final(self)@ == Seq::<ControlCmd>::empty(),
            final(self).same_link(*old(self)),
    {
        let mut cmds: Vec<ControlCmd> = Vec::new();
        std::mem::swap(&mut cmds, &mut self.queue);
        cmds
    }
}

/// A touch message is always 32 bytes long and a key message 14.
pub proof fn wire_length(cmd: ControlCmd, w: u16, h: u16)
    ensures
        cmd is Touch ==> wire(cmd, w, h).len() == 32,
        cmd is Key ==> wire(cmd, w, h).len() == 14,
{
}

proof fn be16_injective(a: u16, b: u16)
    requires
        be16(a) == be16(b),
    ensures
        a == b,
{
    assert(be16(a)[0] == be16(b)[0]);
    assert(be16(a)[1] == be16(b)[1]);
}

proof fn be32_injective(a: u32, b: u32)
    requires
        be32(a) == be32(b),
    ensures
        a == b,
{
    assert(be32(a).subrange(0, 2) =~= be16((a / 65536) as u16));
    assert(be32(b).subrange(0, 2) =~= be16((b / 65536) as u16));
    assert(be32(a).subrange(2, 4) =~= be16((a % 65536) as u16));
    assert(be32(b).subrange(2, 4) =~= be16((b % 65536) as u16));
    be16_injective((a / 65536) as u16, (b / 65536) as u16);
    be16_injective((a % 65536) as u16, (b % 65536) as u16);
}

proof fn be64_injective(a: u64, b: u64)
    requires
        be64(a) == be64(b),
    ensures
        a == b,
{
    assert(be64(a).subrange(0, 4) =~= be32((a / 4294967296) as u32));
    assert(be64(b).subrange(0, 4) =~= be32((b / 4294967296) as u32));
    assert(be64(a).subrange(4, 8) =~= be32((a % 4294967296) as u32));
    assert(be64(b).subrange(4, 8) =~= be32((b % 4294967296) as u32));
    be32_injective((a / 4294967296) as u32, (b / 4294967296) as u32);
    be32_injective((a % 4294967296) as u32, (b % 4294967296) as u32);
}

/// What stands where in a touch message.
#[verifier::spinoff_prover]
proof fn touch_fields(cmd: ControlCmd, w: u16, h: u16)
    requires
        cmd is Touch,
    ensures
        wire(cmd, w, h)[0] == TYPE_INJECT_TOUCH,
        wire(cmd, w, h)[1] == cmd->Touch_action,
        wire(cmd, w, h).subrange(2, 10) == be64(cmd->pointer_id),
        wire(cmd, w, h).subrange(10, 14) == be32(cmd->x),
        wire(cmd, w, h).subrange(14, 18) == be32(cmd->y),
        wire(cmd, w, h).subrange(18, 20) == be16(w),
        wire(cmd, w, h).subrange(20, 22) == be16(h),
{
    let s = wire(cmd, w, h);
    assert(s.subrange(2, 10) =~= be64(cmd->pointer_id));
    assert(s.subrange(10, 14) =~= be32(cmd->x));
    assert(s.subrange(14, 18) =~= be32(cmd->y));
    assert(s.subrange(18, 20) =~= be16(w));
    assert(s.subrange(20, 22) =~= be16(h));
}

/// What stands where in a key message.
#[verifier::spinoff_prover]
proof fn key_fields(cmd: ControlCmd, w: u16, h: u16)
    requires
        cmd is Key,
    ensures
        wire(cmd, w, h)[0] == TYPE_INJECT_KEYCODE,
        wire(cmd, w, h)[1] == cmd->Key_action,
        wire(cmd, w, h).subrange(2, 6) == be32(cmd->keycode),
{
    assert(wire(cmd, w, h).subrange(2, 6) =~= be32(cmd->keycode));
}

/// Which of the two messages it is stands in the first byte.
#[verifier::spinoff_prover]
proof fn first_byte(cmd: ControlCmd, w: u16, h: u16)
    ensures
        cmd is Touch <==> wire(cmd, w, h)[0] == TYPE_INJECT_TOUCH,
{
    match cmd {
        ControlCmd::Touch { .. } => {
            touch_fields(cmd, w, h);
        },
        ControlCmd::Key { .. } => {
            key_fields(cmd, w, h);
        },
    }
}

/// The wire form loses nothing: two commands with the same bytes are the same command,
/// and a touch also fixes the screen size it was sent for.
#[verifier::spinoff_prover]
pub proof fn wire_is_unambiguous(a: ControlCmd, b: ControlCmd, wa: u16, ha: u16, wb: u16, hb: u16)
    requires
        wire(a, wa, ha) == wire(b, wb, hb),
    ensures
        a == b,
        a is Touch ==> wa == wb && ha == hb,
{
    first_byte(a, wa, ha);
    first_byte(b, wb, hb);
    if a is Touch {
        touch_fields(a, wa, ha);
        touch_fields(b, wb, hb);
        be64_injective(a->pointer_id, b->pointer_id);
        be32_injective(a->x, b->x);
        be32_injective(a->y, b->y);
        be16_injective(wa, wb);
        be16_injective(ha, hb);
    } else {
        key_fields(a, wa, ha);
        key_fields(b, wb, hb);
        be32_injective(a->keycode, b->keycode);
    }
}

/// The number that bytes write, the highest first.
pub open spec fn big_endian(s: Seq<u8>) -> int
    decreases s.len(),
{
    if s.len() == 0 {
        0
    } else {
        256 * big_endian(s.drop_last()) + s.last()
    }
}

proof fn be16_reads_back(v: u16)
    ensures
        be16(v).len() == 2,
        big_endian(be16(v)) == v,
{
    let s = be16(v);
    assert(s.drop_last() =~= seq![s[0]]);
    assert(s.drop_last().drop_last() =~= Seq::<u8>::empty());
    reveal_with_fuel(big_endian, 3);
}

proof fn be32_reads_back(v: u32)
    ensures
        be32(v).len() == 4,
        big_endian(be32(v)) == v,
{
    let s = be32(v);
    let (a, b) = ((v / 65536) as u16, (v % 65536) as u16);
    be16_reads_back(a);
    be16_reads_back(b);
    let t = s.drop_last();
    assert(t.drop_last() =~= be16(a));
    assert(be16(b).drop_last() =~= seq![be16(b)[0]]);
    assert(be16(b).drop_last().drop_last() =~= Seq::<u8>::empty());
    assert(s.last() == be16(b)[1]);
    assert(t.last() == be16(b)[0]);
    reveal_with_fuel(big_endian, 3);
}

proof fn be64_reads_back(v: u64)
    ensures
        be64(v).len() == 8,
        big_endian(be64(v)) == v,
{
    let s = be64(v);
    let (a, b) = ((v / 4294967296) as u32, (v % 4294967296) as u32);
    be32_reads_back(a);
    be32_reads_back(b);
    let q = be32(b);
    let (s1, q1) = (s.drop_last(), q.drop_last());
    let (s2, q2) = (s1.drop_last(), q1.drop_last());
    let (s3, q3) = (s2.drop_last(), q2.drop_last());
    assert(s3.drop_last() =~= be32(a));
    assert(q3.drop_last() =~= Seq::<u8>::empty());
    assert(s.last() == q.last() && s1.last() == q1.last() && s2.last() == q2.last() && s3.last()
        == q3.last());
    reveal_with_fuel(big_endian, 5);
}

/// What the device reads in a touch message, field by field: 32 bytes, and in them a 2, what
/// happens (0 the pointer goes down, 1 up, 2 it moves), the pointer, the column, the row, the
/// screen's width and height, the pressure (none when the pointer goes up, full otherwise), and
/// eight bytes of nothing.
#[verifier::spinoff_prover]
pub proof fn a_touch_on_the_wire(action: u8, pointer_id: u64, at: (i32, i32), w: u16, h: u16)
    ensures
        ({
            let s = wire(touch(action, pointer_id, at), w, h);
            &&& s.len() == 32
            &&& s[0] == 2
            &&& s[1] == action
            &&& big_endian(s.subrange(2, 10)) == pointer_id
            &&& big_endian(s.subrange(10, 14)) == (if at.0 < 0 {
                0
            } else {
                at.0 as int
            })
            &&& big_endian(s.subrange(14, 18)) == (if at.1 < 0 {
                0
            } else {
                at.1 as int
            })
            &&& big_endian(s.subrange(18, 20)) == w
            &&& big_endian(s.subrange(20, 22)) == h
            &&& big_endian(s.subrange(22, 24)) == (if action == 1 {
                0
            } else {
                65535int
            })
            &&& forall|i: int| 24 <= i < 32 ==> #[trigger] s[i] == 0
            &&& (ACTION_DOWN, ACTION_UP, ACTION_MOVE) == (0u8, 1u8, 2u8)
        }),
{
    let cmd = touch(action, pointer_id, at);
    let s = wire(cmd, w, h);
    wire_length(cmd, w, h);
    touch_fields(cmd, w, h);
    be64_reads_back(pointer_id);
    be32_reads_back(on_wire(at.0));
    be32_reads_back(on_wire(at.1));
    be16_reads_back(w);
    be16_reads_back(h);
    be16_reads_back(pressure_of(action));
    assert(s.subrange(22, 24) =~= be16(pressure_of(action)));
}

/// What the device reads in a key message: 14 bytes, and in them a 0, what happens (0 down, 1
/// up), the key's code, and eight bytes of nothing.
#[verifier::spinoff_prover]
pub proof fn a_key_on_the_wire(down: bool, keycode: u32, w: u16, h: u16)
    ensures
        ({
            let s = wire(key_cmd(down, keycode), w, h);
            &&& s.len() == 14
            &&& s[0] == 0
            &&& s[1] == (if down {
                0u8
            } else {
                1u8
            })
            &&& big_endian(s.subrange(2, 6)) == keycode
            &&& forall|i: int| 6 <= i < 14 ==> #[trigger] s[i] == 0
        }),
{
    let cmd = key_cmd(down, keycode);
    wire_length(cmd, w, h);
    key_fields(cmd, w, h);
    be32_reads_back(keycode);
}

} // verus!
