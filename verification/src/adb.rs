//! adb and scrcpy: which arguments they get, what their output says, where they are found.
//!
//! Running programs and looking at files is the caller's part; outputs and findings come in
//! as plain values.

use vstd::prelude::*;
use vstd::string::*;
use crate::text::{self, text_of};

verus! {

/// Which adb is used: a chosen one, or whichever the search path holds.
pub struct AdbBin {
    pub path: Option<String>,
}

/// Chooses an adb; `None` returns to the search path.
pub fn set_adb_bin(bin: &mut AdbBin, path: Option<String>)
    ensures
        final(bin).path == path,
{
    bin.path = path;
}

/// The chosen adb, if one is.
pub fn adb_bin_now(bin: &AdbBin) -> (r: Option<String>)
    ensures
        match bin.path {
            Some(p) => r is Some && r->0@ == p@,
            None => r is None,
        },
{
    match &bin.path {
        Some(p) => Some(p.clone()),
        None => None,
    }
}

/// The adb to run.
pub fn adb_bin(bin: &AdbBin) -> (r: String)
    ensures
        r@ == (match bin.path {
            Some(p) => p@,
            None => "adb"@,
        }),
{
    match &bin.path {
        Some(p) => p.clone(),
        None => "adb".to_owned(),
    }
}

/// File name of adb.
pub fn adb_exe_name(windows: bool) -> (r: &'static str)
    ensures
        r@ == if windows {
            "adb.exe"@
        } else {
            "adb"@
        },
{
    if windows {
        "adb.exe"
    } else {
        "adb"
    }
}

/// File name of scrcpy.
pub fn scrcpy_exe_name(windows: bool) -> (r: &'static str)
    ensures
        r@ == if windows {
            "scrcpy.exe"@
        } else {
            "scrcpy"@
        },
{
    if windows {
        "scrcpy.exe"
    } else {
        "scrcpy"
    }
}

/// The arguments that pick a device; none for an empty serial number.
pub open spec fn device_args(serial: Seq<char>) -> Seq<Seq<char>> {
    if serial.len() == 0 {
        Seq::empty()
    } else {
        seq!["-s"@, serial]
    }
}

pub fn serial_args(serial: &str) -> (r: Vec<String>)
    ensures
        text::texts(r@) == device_args(serial@),
{
    let mut v: Vec<String> = Vec::new();
    if !serial.is_empty() {
        v.push("-s".to_owned());
        v.push(serial.to_owned());
    }
    assert(text::texts(v@) =~= device_args(serial@));
    v
}

// ---- reading outputs -------------------------------------------------------------------

/// Whether a line of `adb devices` names a device that is ready.
pub open spec fn names_device(line: Seq<char>) -> bool {
    text::words(line).len() >= 2 && text::words(line)[1] == "device"@
}

/// The serial numbers in the first `n` lines.
pub open spec fn serials(lines: Seq<Seq<char>>, n: int) -> Seq<Seq<char>>
    decreases n,
{
    if n <= 0 {
        Seq::empty()
    } else if names_device(lines[n - 1]) {
        serials(lines, n - 1).push(text::words(lines[n - 1])[0])
    } else {
        serials(lines, n - 1)
    }
}

/// The devices that an output of `adb devices` lists: all lines but the first are looked at.
pub open spec fn devices_in(out: Seq<char>) -> Seq<Seq<char>> {
    let l = text::lines(out);
    if l.len() == 0 {
        Seq::empty()
    } else {
        serials(l.skip(1), l.len() - 1)
    }
}

/// Reads the output of `adb devices`.
pub fn list_devices(stdout: &str) -> (r: Vec<String>)
    ensures
        text::texts(r@) == devices_in(stdout@),
{
    let lines = text::split_lines(stdout);
    let ghost all = text::lines(stdout@);
    let ghost l = all.skip(1);
    let n: usize = lines.len();
    let mut r: Vec<String> = Vec::new();
    assert(text::texts(r@) =~= Seq::<Seq<char>>::empty());
    let mut i: usize = 1;
    while i < n
        invariant
            1 <= i,
            n == lines.len(),
            n >= 1 ==> i <= n,
            n == 0 ==> i == 1,
            text::texts(lines@) == all,
            l == all.skip(1),
            text::texts(r@) == serials(l, i - 1),
        decreases n - i,
    {
        let w = text::split_words(lines[i].as_str());
        proof {
            assert(all[i as int] == lines@[i as int]@);
            assert(l[i - 1] == all[i as int]);
            assert(text::texts(w@) == text::words(l[i - 1]));
            assert(text::texts(w@).len() == w@.len());
        }
        if w.len() >= 2 {
            proof {
                assert(text::texts(w@)[1] == w@[1]@);
                assert(text::texts(w@)[0] == w@[0]@);
            }
            if text::same_text(w[1].as_str(), "device") {
                let id = w[0].clone();
                proof {
                    assert(text::texts(r@.push(id)) =~= text::texts(r@).push(id@));
                }
                r.push(id);
            }
        }
        i = i + 1;
    }
    proof {
        assert(text::texts(lines@).len() == lines@.len());
        assert(n == all.len());
        if n == 0 {
            assert(serials(l, 0) =~= Seq::<Seq<char>>::empty());
        } else {
            assert(i == n);
            assert(devices_in(stdout@) == serials(l, n - 1));
        }
    }
    r
}

/// Index of the first line that holds `needle`, or the number of lines.
pub open spec fn first_holding(lines: Seq<Seq<char>>, needle: Seq<char>) -> nat
    decreases lines.len(),
{
    if lines.len() == 0 || text::holds(lines[0], needle) {
        0
    } else {
        1 + first_holding(lines.skip(1), needle)
    }
}

/// The version line in the output of `adb version`: the first line that says "version".
pub fn adb_version(stdout: &str) -> (r: Option<String>)
    ensures
        ({
            let l = text::lines(stdout@);
            let i = first_holding(l, "version"@);
            if i < l.len() {
                r is Some && r->0@ == text::trim(l[i as int])
            } else {
                r is None
            }
        }),
{
    let lines = text::split_lines(stdout);
    let ghost l = text::lines(stdout@);
    let n: usize = lines.len();
    assert(text::texts(lines@).len() == n);
    assert(l.skip(0) =~= l);
    for i in 0..n
        invariant
            n == lines.len(),
            n == l.len(),
            l == text::lines(stdout@),
            text::texts(lines@) == l,
            first_holding(l, "version"@) == i + first_holding(l.skip(i as int), "version"@),
    {
        assert(l[i as int] == lines@[i as int]@);
        assert(l.skip(i as int)[0] == l[i as int]);
        assert(l.skip(i as int).skip(1) =~= l.skip(i + 1));
        if text::contains_text(lines[i].as_str(), "version") {
            return Some(text::trimmed(lines[i].as_str()));
        }
    }
    assert(l.skip(n as int).len() == 0);
    None
}

/// The version in the output of `scrcpy --version`: the second word of the first line.
pub fn scrcpy_version(stdout: &str) -> (r: Option<String>)
    ensures
        ({
            let l = text::lines(stdout@);
            if l.len() > 0 && text::words(l[0]).len() >= 2 {
                r is Some && r->0@ == text::words(l[0])[1]
            } else {
                r is None
            }
        }),
{
    let lines = text::split_lines(stdout);
    assert(text::texts(lines@).len() == lines.len());
    if lines.len() == 0 {
        return None;
    }
    assert(text::lines(stdout@)[0] == lines@[0]@);
    let w = text::split_words(lines[0].as_str());
    assert(text::texts(w@).len() == w.len());
    if w.len() < 2 {
        return None;
    }
    assert(text::texts(w@)[1] == w@[1]@);
    Some(w[1].clone())
}

/// The program to run: the given one, or the default name when it is blank.
pub fn exe_or_default(exe: &str) -> (r: String)
    ensures
        r@ == if text::trim(exe@).len() == 0 {
            "scrcpy"@
        } else {
            exe@
        },
{
    if text::is_blank(exe) {
        "scrcpy".to_owned()
    } else {
        exe.to_owned()
    }
}

/// What is wrong with an output of `wm size`.
#[derive(Debug, Clone, Copy, PartialEq, Eq, Structural)]
pub enum SizeError {
    BadWidth,
    NoHeight,
    BadHeight,
}

/// Where the last piece begins when a text is cut at spaces and colons.
pub open spec fn last_piece(s: Seq<char>) -> nat
    decreases s.len(),
{
    if s.len() == 0 || s.last() == ' ' || s.last() == ':' {
        s.len()
    } else {
        last_piece(s.drop_last())
    }
}

/// The size that `WxH` says. The two numbers may have white space around them, and a further
/// `x` ends the second.
pub open spec fn size_said(piece: Seq<char>) -> Result<(u32, u32), SizeError> {
    let i = text::find_char(piece, 'x');
    let w = text::as_u32(text::trim(piece.take(i as int)));
    if w is None {
        Err(SizeError::BadWidth)
    } else if i >= piece.len() {
        Err(SizeError::NoHeight)
    } else {
        let rest = piece.skip(i as int + 1);
        let h = text::as_u32(text::trim(rest.take(text::find_char(rest, 'x') as int)));
        if h is None {
            Err(SizeError::BadHeight)
        } else {
            Ok((w->0, h->0))
        }
    }
}

/// The size at the end of a text: what stands behind the last space or colon.
pub open spec fn size_at_end(s: Seq<char>) -> Result<(u32, u32), SizeError> {
    let t = text::trim(s);
    size_said(t.skip(last_piece(t) as int))
}

/// Index of the first line that begins with `start`, or the number of lines.
pub open spec fn first_beginning(lines: Seq<Seq<char>>, start: Seq<char>) -> nat
    decreases lines.len(),
{
    if lines.len() == 0 || text::stands_at(lines[0], start, 0) {
        0
    } else {
        1 + first_beginning(lines.skip(1), start)
    }
}

/// The physical size in an output of `wm size`, such as `Physical size: 1080x2400`: that of the
/// line which says so, since a line for an override may follow it. In an output without such a
/// line it is the size at the end.
pub open spec fn wm_size(out: Seq<char>) -> Result<(u32, u32), SizeError> {
    let l = text::lines(out);
    let i = first_beginning(l, "Physical size:"@);
    if i < l.len() {
        size_at_end(l[i as int])
    } else {
        size_at_end(out)
    }
}

fn parse_trimmed(v: &Vec<char>, from: usize, to: usize) -> (r: Option<u32>)
    requires
        from <= to <= v.len(),
    ensures
        r == text::as_u32(text::trim(v@.subrange(from as int, to as int))),
{
    let part = text_of(v, from, to);
    let t = text::trimmed(part.as_str());
    let c = text::chars_of(t.as_str());
    assert(c@.subrange(0, c.len() as int) =~= c@);
    text::parse_u32_in(&c, 0, c.len())
}

fn read_size(v: &Vec<char>, a: usize) -> (r: Result<(u32, u32), SizeError>)
    requires
        a <= v.len(),
    ensures
        r == size_said(v@.skip(a as int)),
{
    let n: usize = v.len();
    let ghost piece = v@.skip(a as int);
    assert(v@.subrange(a as int, n as int) =~= piece);
    let i: usize = text::find_from(v, a, 'x');
    proof {
        text::find_char_props(piece, 'x');
        assert(v@.subrange(a as int, i as int) =~= piece.take(i - a));
    }
    let w: u32 = match parse_trimmed(v, a, i) {
        Some(w) => w,
        None => {
            return Err(SizeError::BadWidth);
        },
    };
    if i >= n {
        return Err(SizeError::NoHeight);
    }
    let k: usize = text::find_from(v, i + 1, 'x');
    proof {
        let rest = piece.skip(i - a + 1);
        assert(v@.subrange(i + 1, n as int) =~= rest);
        text::find_char_props(rest, 'x');
        assert(v@.subrange(i + 1, k as int) =~= rest.take(k - (i + 1)));
    }
    match parse_trimmed(v, i + 1, k) {
        Some(h) => Ok((w, h)),
        None => Err(SizeError::BadHeight),
    }
}

/// Reads the physical size of the screen from the output of `wm size`.
pub fn screen_size(stdout: &str) -> (r: Result<(u32, u32), SizeError>)
    ensures
        r == wm_size(stdout@),
{
    let lines = text::split_lines(stdout);
    let ghost l = text::lines(stdout@);
    let n: usize = lines.len();
    assert(text::texts(lines@).len() == n);
    assert(l.skip(0) =~= l);
    for i in 0..n
        invariant
            n == lines.len(),
            n == l.len(),
            l == text::lines(stdout@),
            text::texts(lines@) == l,
            first_beginning(l, "Physical size:"@) == i + first_beginning(
                l.skip(i as int),
                "Physical size:"@,
            ),
    {
        assert(l[i as int] == lines@[i as int]@);
        assert(l.skip(i as int)[0] == l[i as int]);
        if text::begins_with(lines[i].as_str(), "Physical size:") {
            return last_size(lines[i].as_str());
        }
        assert(l.skip(i as int).skip(1) =~= l.skip(i + 1));
    }
    assert(l.skip(n as int).len() == 0);
    last_size(stdout)
}

/// Reads the size at the end of a text.
fn last_size(said: &str) -> (r: Result<(u32, u32), SizeError>)
    ensures
        r == size_at_end(said@),
{
    let trimmed = text::trimmed(said);
    let v = text::chars_of(trimmed.as_str());
    let n: usize = v.len();
    let ghost t = text::trim(said@);
    let mut a: usize = n;
    assert(t.take(n as int) =~= t);
    while a > 0 && v[a - 1] != ' ' && v[a - 1] != ':'
        invariant
            a <= n,
            n == v.len(),
            v@ == t,
            last_piece(t) == last_piece(t.take(a as int)),
        decreases a,
    {
        assert(t.take(a as int).drop_last() =~= t.take(a - 1));
        assert(t.take(a as int).last() == t[a - 1]);
        a = a - 1;
    }
    proof {
        if a > 0 {
            assert(t.take(a as int).last() == t[a - 1]);
        }
        assert(last_piece(t) == a);
    }
    read_size(&v, a)
}

/// Length of the run of digits and `x` at the front.
pub open spec fn size_run(s: Seq<char>) -> nat
    decreases s.len(),
{
    if s.len() > 0 && (text::is_digit(s[0]) || s[0] == 'x') {
        1 + size_run(s.skip(1))
    } else {
        0
    }
}

/// The size at the front of a text such as `2772x1280 rest`; both sides must be above zero.
pub open spec fn size_at_front(s: Seq<char>) -> Option<(u32, u32)> {
    let t = s.take(size_run(s) as int);
    let i = text::find_char(t, 'x');
    let w = text::as_u32(t.take(i as int));
    let rest = t.skip(i as int + 1);
    let h = text::as_u32(rest.take(text::find_char(rest, 'x') as int));
    if i < t.len() && w is Some && h is Some && w->0 > 0 && h->0 > 0 {
        Some((w->0, h->0))
    } else {
        None
    }
}

proof fn size_run_bound(s: Seq<char>)
    ensures
        size_run(s) <= s.len(),
    decreases s.len(),
{
    if s.len() > 0 {
        size_run_bound(s.skip(1));
    }
}

fn parse_size_token(v: &Vec<char>, from: usize) -> (r: Option<(u32, u32)>)
    requires
        from <= v.len(),
    ensures
        r == size_at_front(v@.skip(from as int)),
{
    let n: usize = v.len();
    let ghost s = v@.skip(from as int);
    let mut to: usize = from;
    assert(v@.skip(from as int) == s);
    while to < n && ((v[to] >= '0' && v[to] <= '9') || v[to] == 'x')
        invariant
            from <= to <= n,
            n == v.len(),
            s == v@.skip(from as int),
            size_run(s) == (to - from) + size_run(v@.skip(to as int)),
        decreases n - to,
    {
        assert(v@.skip(to as int).skip(1) =~= v@.skip(to + 1));
        to = to + 1;
    }
    proof {
        size_run_bound(s);
        assert(size_run(v@.skip(to as int)) == 0);
    }
    let tok = text_of(v, from, to);
    let t = text::chars_of(tok.as_str());
    assert(t@ =~= s.take(size_run(s) as int));
    let m: usize = t.len();
    assert(t@.subrange(0, m as int) =~= t@);
    let i: usize = text::find_from(&t, 0, 'x');
    proof {
        text::find_char_props(t@, 'x');
    }
    if i >= m {
        return None;
    }
    assert(t@.subrange(0, i as int) =~= t@.take(i as int));
    let k: usize = text::find_from(&t, i + 1, 'x');
    proof {
        let rest = t@.skip(i + 1);
        assert(t@.subrange(i + 1, m as int) =~= rest);
        text::find_char_props(rest, 'x');
        assert(t@.subrange(i + 1, k as int) =~= rest.take(k - (i + 1)));
    }
    let w: Option<u32> = text::parse_u32_in(&t, 0, i);
    let h: Option<u32> = text::parse_u32_in(&t, i + 1, k);
    match (w, h) {
        (Some(w), Some(h)) => {
            if w > 0 && h > 0 {
                Some((w, h))
            } else {
                None
            }
        },
        _ => None,
    }
}

/// The size behind the last `cur=` before position `n` that is followed by one.
pub open spec fn last_current(s: Seq<char>, n: int) -> Option<(u32, u32)>
    decreases n,
{
    if n <= 0 {
        None
    } else if text::stands_at(s, "cur="@, n - 1) && size_at_front(s.skip(n - 1 + 4)) is Some {
        size_at_front(s.skip(n - 1 + 4))
    } else {
        last_current(s, n - 1)
    }
}

/// Reads the current display size from an output of `dumpsys window displays`: the last
/// `cur=WxH`. Unlike `wm size` it follows the orientation of the screen.
pub fn parse_display_size(dumpsys: &str) -> (r: Option<(u32, u32)>)
    ensures
        r == last_current(dumpsys@, dumpsys@.len() as int),
{
    let v = text::chars_of(dumpsys);
    let key = text::chars_of("cur=");
    proof {
        reveal_strlit("cur=");
    }
    let mut n: usize = v.len();
    while n > 0
        invariant
            n <= v.len(),
            v@ == dumpsys@,
            key@ == "cur="@,
            key@.len() == 4,
            last_current(dumpsys@, dumpsys@.len() as int) == last_current(dumpsys@, n as int),
        decreases n,
    {
        if text::text_at(&v, &key, n - 1) {
            let size: Option<(u32, u32)> = parse_size_token(&v, n - 1 + 4);
            if size.is_some() {
                return size;
            }
        }
        n = n - 1;
    }
    None
}

/// The display size: from `dumpsys` if it ran and said one, otherwise from `wm size`.
pub fn display_size(dumpsys: Option<&str>, wm: &str) -> (r: Result<(u32, u32), SizeError>)
    ensures
        r == (match dumpsys {
            Some(d) => match last_current(d@, d@.len() as int) {
                Some(wh) => Ok(wh),
                None => wm_size(wm@),
            },
            None => wm_size(wm@),
        }),
{
    if let Some(d) = dumpsys {
        if let Some(wh) = parse_display_size(d) {
            return Ok(wh);
        }
    }
    screen_size(wm)
}

/// The picture in an output of `screencap -p`; `None` when it failed or said nothing.
pub fn screencap_png(success: bool, stdout: Vec<u8>) -> (r: Option<Vec<u8>>)
    ensures
        r == (if success && stdout@.len() > 0 {
            Some(stdout)
        } else {
            None
        }),
{
    if !success || stdout.is_empty() {
        None
    } else {
        Some(stdout)
    }
}

// ---- finding programs ------------------------------------------------------------------

/// A directory as it was found: its name, the program in it if there is one, and its
/// subdirectories in order.
pub struct DirTree {
    pub name: String,
    pub exe: Option<String>,
    pub subs: Vec<DirTree>,
}

/// The program in a directory or at most `depth` levels below: its own first, then those of
/// its subdirectories in order.
pub open spec fn found_in(t: DirTree, depth: nat) -> Option<Seq<char>>
    decreases depth, 0nat,
{
    match t.exe {
        Some(e) => Some(e@),
        None => if depth == 0 {
            None
        } else {
            found_among(t.subs@, (depth - 1) as nat, 0)
        },
    }
}

/// The first program found in the directories from `i` on.
pub open spec fn found_among(ts: Seq<DirTree>, depth: nat, i: int) -> Option<Seq<char>>
    decreases depth, 1 + (ts.len() - i),
{
    if i < 0 || i >= ts.len() {
        None
    } else {
        match found_in(ts[i], depth) {
            Some(e) => Some(e),
            None => found_among(ts, depth, i + 1),
        }
    }
}

/// The view of an optional text.
pub open spec fn opt_text(s: Option<String>) -> Option<Seq<char>> {
    match s {
        Some(s) => Some(s@),
        None => None,
    }
}

fn find_file_recursive(t: &DirTree, depth: usize) -> (r: Option<String>)
    ensures
        opt_text(r) == found_in(*t, depth as nat),
    decreases depth,
{
    if let Some(e) = &t.exe {
        return Some(e.clone());
    }
    if depth == 0 {
        return None;
    }
    let n: usize = t.subs.len();
    for i in 0..n
        invariant
            n == t.subs.len(),
            t.exe is None,
            depth > 0,
            found_among(t.subs@, (depth - 1) as nat, 0) == found_among(
                t.subs@,
                (depth - 1) as nat,
                i as int,
            ),
    {
        let found = find_file_recursive(&t.subs[i], depth - 1);
        if found.is_some() {
            return found;
        }
    }
    None
}

/// Whether a directory is named like an unpacked scrcpy.
pub fn is_scrcpy_dir_name(name: &str) -> (r: bool)
    ensures
        r == text::starts_with_lower(name@, "scrcpy"@),
{
    text::begins_with_lower(name, "scrcpy")
}

/// How deep below an unpacked scrcpy its program is looked for.
pub const PORTABLE_DEPTH: usize = 3;

/// The first program in the directories from `i` on that are named like an unpacked scrcpy.
pub open spec fn portable_among(ts: Seq<DirTree>, i: int) -> Option<Seq<char>>
    decreases ts.len() - i,
{
    if i < 0 || i >= ts.len() {
        None
    } else if text::starts_with_lower(ts[i].name@, "scrcpy"@) && found_in(
        ts[i],
        PORTABLE_DEPTH as nat,
    ) is Some {
        found_in(ts[i], PORTABLE_DEPTH as nat)
    } else {
        portable_among(ts, i + 1)
    }
}

/// The first program found in the places from `i` on.
pub open spec fn portable_in(places: Seq<Vec<DirTree>>, i: int) -> Option<Seq<char>>
    decreases places.len() - i,
{
    if i < 0 || i >= places.len() {
        None
    } else if portable_among(places[i]@, 0) is Some {
        portable_among(places[i]@, 0)
    } else {
        portable_in(places, i + 1)
    }
}

/// Looks for an unpacked scrcpy in one place: among the directories there that are named
/// like one.
pub fn find_scrcpy_portable_under(dirs: &Vec<DirTree>) -> (r: Option<String>)
    ensures
        opt_text(r) == portable_among(dirs@, 0),
{
    let n: usize = dirs.len();
    for i in 0..n
        invariant
            n == dirs.len(),
            portable_among(dirs@, 0) == portable_among(dirs@, i as int),
    {
        if is_scrcpy_dir_name(dirs[i].name.as_str()) {
            let found = find_file_recursive(&dirs[i], PORTABLE_DEPTH);
            if found.is_some() {
                return found;
            }
        }
    }
    None
}

/// Looks for an unpacked scrcpy next to the program: in each place in order, which are the
/// program's directory, the one above it, and the same of the working directory.
pub fn find_scrcpy_portable(places: &Vec<Vec<DirTree>>) -> (r: Option<String>)
    ensures
        opt_text(r) == portable_in(places@, 0),
{
    let n: usize = places.len();
    for i in 0..n
        invariant
            n == places.len(),
            portable_in(places@, 0) == portable_in(places@, i as int),
    {
        let found = find_scrcpy_portable_under(&places[i]);
        if found.is_some() {
            return found;
        }
    }
    None
}

/// A file that may be there.
pub struct Candidate {
    pub path: String,
    pub is_file: bool,
}

/// The first candidate from `i` on that is a file.
pub open spec fn first_file(v: Seq<Candidate>, i: int) -> Option<Seq<char>>
    decreases v.len() - i,
{
    if i < 0 || i >= v.len() {
        None
    } else if v[i].is_file {
        Some(v[i].path@)
    } else {
        first_file(v, i + 1)
    }
}

pub fn first_existing(v: &Vec<Candidate>) -> (r: Option<String>)
    ensures
        opt_text(r) == first_file(v@, 0),
{
    let n: usize = v.len();
    for i in 0..n
        invariant
            n == v.len(),
            first_file(v@, 0) == first_file(v@, i as int),
    {
        if v[i].is_file {
            return Some(v[i].path.clone());
        }
    }
    None
}

/// Where programs are commonly installed.
#[derive(Debug, Clone, Copy, PartialEq, Eq, Structural)]
pub enum Base {
    /// The path stands as it is.
    Fixed,
    /// Below the user's local application data.
    LocalAppData,
    /// Below the user's profile.
    UserProfile,
    /// Below the user's home.
    Home,
}

/// A common place of installation.
pub struct Place {
    pub base: Base,
    pub tail: &'static str,
}

pub open spec fn place_view(p: Place) -> (Base, Seq<char>) {
    (p.base, p.tail@)
}

pub open spec fn places_view(v: Seq<Place>) -> Seq<(Base, Seq<char>)> {
    v.map_values(|p: Place| place_view(p))
}

/// The common places of scrcpy, in the order in which they are tried.
pub open spec fn scrcpy_places_spec(windows: bool) -> Seq<(Base, Seq<char>)> {
    if windows {
        seq![
            (Base::Fixed, "C:\\Program Files\\scrcpy\\scrcpy.exe"@),
            (Base::Fixed, "C:\\Program Files (x86)\\scrcpy\\scrcpy.exe"@),
            (Base::LocalAppData, "Programs\\scrcpy\\scrcpy.exe"@),
            (Base::UserProfile, "scoop\\shims\\scrcpy.exe"@),
            (Base::Fixed, "C:\\ProgramData\\chocolatey\\bin\\scrcpy.exe"@),
        ]
    } else {
        seq![
            (Base::Fixed, "/usr/bin/scrcpy"@),
            (Base::Fixed, "/usr/local/bin/scrcpy"@),
            (Base::Fixed, "/opt/scrcpy/scrcpy"@),
            (Base::Fixed, "/snap/bin/scrcpy"@),
            (Base::Home, ".local/bin/scrcpy"@),
        ]
    }
}

pub fn scrcpy_places(windows: bool) -> (v: Vec<Place>)
    ensures
        places_view(v@) == scrcpy_places_spec(windows),
{
    let mut v: Vec<Place> = Vec::new();
    if windows {
        v.push(Place { base: Base::Fixed, tail: "C:\\Program Files\\scrcpy\\scrcpy.exe" });
        v.push(Place { base: Base::Fixed, tail: "C:\\Program Files (x86)\\scrcpy\\scrcpy.exe" });
        v.push(Place { base: Base::LocalAppData, tail: "Programs\\scrcpy\\scrcpy.exe" });
        v.push(Place { base: Base::UserProfile, tail: "scoop\\shims\\scrcpy.exe" });
        v.push(Place { base: Base::Fixed, tail: "C:\\ProgramData\\chocolatey\\bin\\scrcpy.exe" });
    } else {
        v.push(Place { base: Base::Fixed, tail: "/usr/bin/scrcpy" });
        v.push(Place { base: Base::Fixed, tail: "/usr/local/bin/scrcpy" });
        v.push(Place { base: Base::Fixed, tail: "/opt/scrcpy/scrcpy" });
        v.push(Place { base: Base::Fixed, tail: "/snap/bin/scrcpy" });
        v.push(Place { base: Base::Home, tail: ".local/bin/scrcpy" });
    }
    assert(places_view(v@) =~= scrcpy_places_spec(windows));
    v
}

/// The common places of adb.
pub open spec fn adb_places_spec(windows: bool) -> Seq<(Base, Seq<char>)> {
    if windows {
        seq![
            (Base::LocalAppData, "Android\\Sdk\\platform-tools\\adb.exe"@),
            (Base::UserProfile, "AppData\\Local\\Android\\Sdk\\platform-tools\\adb.exe"@),
        ]
    } else {
        Seq::empty()
    }
}

pub fn adb_places(windows: bool) -> (v: Vec<Place>)
    ensures
        places_view(v@) == adb_places_spec(windows),
{
    let mut v: Vec<Place> = Vec::new();
    if windows {
        v.push(Place { base: Base::LocalAppData, tail: "Android\\Sdk\\platform-tools\\adb.exe" });
        v.push(
            Place {
                base: Base::UserProfile,
                tail: "AppData\\Local\\Android\\Sdk\\platform-tools\\adb.exe",
            },
        );
    }
    assert(places_view(v@) =~= adb_places_spec(windows));
    v
}

/// The first of two findings.
pub open spec fn or_else(a: Option<Seq<char>>, b: Option<Seq<char>>) -> Option<Seq<char>> {
    if a is Some {
        a
    } else {
        b
    }
}

/// Settles on a scrcpy: the one on the search path, one installed in a common place, or one
/// unpacked next to the program.
pub fn find_scrcpy(
    on_path: Option<String>,
    installed: &Vec<Candidate>,
    portable: Option<String>,
) -> (r: Option<String>)
    ensures
        opt_text(r) == or_else(
            opt_text(on_path),
            or_else(first_file(installed@, 0), opt_text(portable)),
        ),
{
    if on_path.is_some() {
        return on_path;
    }
    let found = first_existing(installed);
    if found.is_some() {
        return found;
    }
    portable
}

/// The adb in a directory, if it is a file.
pub fn find_adb_in_dir(adb: Candidate) -> (r: Option<String>)
    ensures
        opt_text(r) == (if adb.is_file {
            Some(adb.path@)
        } else {
            None
        }),
{
    if adb.is_file {
        Some(adb.path)
    } else {
        None
    }
}

/// Settles on an adb: the one beside scrcpy, the one on the search path, or one installed in a
/// common place.
pub fn find_adb(
    beside: Option<Candidate>,
    on_path: Option<String>,
    installed: &Vec<Candidate>,
) -> (r: Option<String>)
    ensures
        opt_text(r) == or_else(
            if beside is Some && beside->0.is_file {
                Some(beside->0.path@)
            } else {
                None
            },
            or_else(opt_text(on_path), first_file(installed@, 0)),
        ),
{
    if let Some(c) = beside {
        let found = find_adb_in_dir(c);
        if found.is_some() {
            return found;
        }
    }
    if on_path.is_some() {
        return on_path;
    }
    first_existing(installed)
}

/// The shared directories' places of scrcpy-server, in the order in which they are tried.
pub open spec fn server_places_spec() -> Seq<(Base, Seq<char>)> {
    seq![
        (Base::Fixed, "/usr/share/scrcpy/scrcpy-server"@),
        (Base::Fixed, "/usr/local/share/scrcpy/scrcpy-server"@),
    ]
}

/// The places of scrcpy-server that [`find_server`] tries on Linux.
pub fn server_places() -> (v: Vec<Place>)
    ensures
        places_view(v@) == server_places_spec(),
{
    let mut v: Vec<Place> = Vec::new();
    v.push(Place { base: Base::Fixed, tail: "/usr/share/scrcpy/scrcpy-server" });
    v.push(Place { base: Base::Fixed, tail: "/usr/local/share/scrcpy/scrcpy-server" });
    assert(places_view(v@) =~= server_places_spec());
    v
}

/// Settles on a scrcpy-server: the one beside scrcpy, or on Linux one in a shared directory.
pub fn find_server(beside: Option<Candidate>, linux: bool, shared: &Vec<Candidate>) -> (r: Option<
    String,
>)
    ensures
        opt_text(r) == or_else(
            if beside is Some && beside->0.is_file {
                Some(beside->0.path@)
            } else {
                None
            },
            if linux {
                first_file(shared@, 0)
            } else {
                None
            },
        ),
{
    if let Some(c) = beside {
        if c.is_file {
            return Some(c.path);
        }
    }
    if linux {
        return first_existing(shared);
    }
    None
}

// ---- arguments -------------------------------------------------------------------------

/// Where the server is put on the device.
pub open spec fn device_jar() -> Seq<char> {
    "/data/local/tmp/scrcpy-server-pad.jar"@
}

/// The socket of a session.
pub open spec fn socket_text(scid: u32) -> Seq<char> {
    "scrcpy_"@ + text::hex(scid as nat, 8)
}

pub fn socket_name(scid: u32) -> (r: String)
    ensures
        r@ == socket_text(scid),
{
    let mut s = "scrcpy_".to_owned();
    text::push_hex8(&mut s, scid);
    s
}

/// The arguments that put the server onto the device.
pub fn push_args(serial: &str, server_path: &str) -> (r: Vec<String>)
    ensures
        text::texts(r@) == device_args(serial@) + seq!["push"@, server_path@, device_jar()],
{
    let mut v = serial_args(serial);
    let ghost a = text::texts(v@);
    v.push("push".to_owned());
    v.push(server_path.to_owned());
    v.push("/data/local/tmp/scrcpy-server-pad.jar".to_owned());
    assert(text::texts(v@) =~= a + seq!["push"@, server_path@, device_jar()]);
    v
}

fn tcp_name(port: u16) -> (r: String)
    ensures
        r@ == "tcp:"@ + text::dec(port as nat),
{
    let mut s = "tcp:".to_owned();
    text::push_dec(&mut s, port as u64);
    s
}

/// The arguments that forward a local port to the session's socket.
pub fn forward_args(serial: &str, port: u16, scid: u32) -> (r: Vec<String>)
    ensures
        text::texts(r@) == device_args(serial@) + seq![
            "forward"@,
            "tcp:"@ + text::dec(port as nat),
            "localabstract:"@ + socket_text(scid),
        ],
{
    let mut v = serial_args(serial);
    let ghost a = text::texts(v@);
    v.push("forward".to_owned());
    v.push(tcp_name(port));
    let mut s = "localabstract:".to_owned();
    let name = socket_name(scid);
    s.append(name.as_str());
    v.push(s);
    assert(text::texts(v@) =~= a + seq![
        "forward"@,
        "tcp:"@ + text::dec(port as nat),
        "localabstract:"@ + socket_text(scid),
    ]);
    v
}

/// The arguments that end the forwarding again.
pub fn unforward_args(serial: &str, port: u16) -> (r: Vec<String>)
    ensures
        text::texts(r@) == device_args(serial@) + seq![
            "forward"@,
            "--remove"@,
            "tcp:"@ + text::dec(port as nat),
        ],
{
    let mut v = serial_args(serial);
    let ghost a = text::texts(v@);
    v.push("forward".to_owned());
    v.push("--remove".to_owned());
    v.push(tcp_name(port));
    assert(text::texts(v@) =~= a + seq![
        "forward"@,
        "--remove"@,
        "tcp:"@ + text::dec(port as nat),
    ]);
    v
}

/// The command line that runs the server on the device for control alone.
pub open spec fn server_command(version: Seq<char>, scid: u32) -> Seq<char> {
    "CLASSPATH=/data/local/tmp/scrcpy-server-pad.jar app_process / com.genymobile.scrcpy.Server "@
        + version + " scid="@ + text::hex(scid as nat, 8)
        + " tunnel_forward=true video=false audio=false control=true send_device_meta=false send_frame_meta=false send_stream_meta=false send_dummy_byte=true cleanup=false power_on=false log_level=warn"@
}

/// The arguments that start the server on the device.
pub fn server_args(serial: &str, version: &str, scid: u32) -> (r: Vec<String>)
    ensures
        text::texts(r@) == device_args(serial@) + seq!["shell"@, server_command(version@, scid)],
{
    let mut v = serial_args(serial);
    let ghost a = text::texts(v@);
    v.push("shell".to_owned());
    let mut s =
        "CLASSPATH=/data/local/tmp/scrcpy-server-pad.jar app_process / com.genymobile.scrcpy.Server ".to_owned();
    s.append(version);
    s.append(" scid=");
    text::push_hex8(&mut s, scid);
    s.append(
        " tunnel_forward=true video=false audio=false control=true send_device_meta=false send_frame_meta=false send_stream_meta=false send_dummy_byte=true cleanup=false power_on=false log_level=warn",
    );
    v.push(s);
    assert(text::texts(v@) =~= a + seq!["shell"@, server_command(version@, scid)]);
    v
}

/// The steps of starting the server, in order.
#[derive(Debug, Clone, Copy, PartialEq, Eq, Structural)]
pub enum ServerStep {
    /// Put the server onto the device.
    Push,
    /// Forward a local port to it, before it runs: it waits for a connection.
    Forward,
    /// Run it.
    Run,
}

impl ServerStep {
    /// The step that follows.
    pub fn next(self) -> (r: Option<ServerStep>)
        ensures
            r == (match self {
                ServerStep::Push => Some(ServerStep::Forward),
                ServerStep::Forward => Some(ServerStep::Run),
                ServerStep::Run => None,
            }),
    {
        match self {
            ServerStep::Push => Some(ServerStep::Forward),
            ServerStep::Forward => Some(ServerStep::Run),
            ServerStep::Run => None,
        }
    }
}

/// The arguments that adb is run with for a step.
pub fn step_args(
    step: ServerStep,
    serial: &str,
    server_path: &str,
    version: &str,
    scid: u32,
    port: u16,
) -> (r: Vec<String>)
    ensures
        text::texts(r@) == device_args(serial@) + (match step {
            ServerStep::Push => seq!["push"@, server_path@, device_jar()],
            ServerStep::Forward => seq![
                "forward"@,
                "tcp:"@ + text::dec(port as nat),
                "localabstract:"@ + socket_text(scid),
            ],
            ServerStep::Run => seq!["shell"@, server_command(version@, scid)],
        }),
{
    match step {
        ServerStep::Push => push_args(serial, server_path),
        ServerStep::Forward => forward_args(serial, port, scid),
        ServerStep::Run => server_args(serial, version, scid),
    }
}

/// What is reported of a step that adb refused, or that could not be tried at all (`refused`
/// false).
pub open spec fn step_error_text(step: ServerStep, refused: bool, error: Seq<char>) -> Seq<char> {
    match step {
        ServerStep::Push => if refused {
            "adb push 失败: "@ + error
        } else {
            "adb push scrcpy-server 失败: "@ + error
        },
        ServerStep::Forward => "adb forward 失败: "@ + error,
        ServerStep::Run => "启动 scrcpy-server 失败: "@ + error,
    }
}

/// The line to report of a step that failed.
pub fn step_error(step: ServerStep, refused: bool, error: &str) -> (r: String)
    ensures
        r@ == step_error_text(step, refused, error@),
{
    let mut s = String::new();
    s.append(
        match step {
            ServerStep::Push => if refused {
                "adb push 失败: "
            } else {
                "adb push scrcpy-server 失败: "
            },
            ServerStep::Forward => "adb forward 失败: ",
            ServerStep::Run => "启动 scrcpy-server 失败: ",
        },
    );
    s.append(error);
    assert(s@ =~= step_error_text(step, refused, error@));
    s
}

/// The arguments that show the screen of a device: its serial number and the extra arguments,
/// cut at white space.
pub fn launch_args(serial: &str, extra: &str) -> (r: Vec<String>)
    ensures
        text::texts(r@) == device_args(serial@) + text::words(extra@),
{
    let mut v = serial_args(serial);
    let ghost a = text::texts(v@);
    let mut more = text::split_words(extra);
    let ghost b = text::texts(more@);
    let ghost va = v@;
    let ghost vb = more@;
    v.append(&mut more);
    assert(text::texts(v@) =~= a + b);
    v
}

// ---- device information ----------------------------------------------------------------

/// What is known of a device, for the log.
pub struct DeviceInfo {
    pub serial: String,
    pub brand: String,
    pub model: String,
    pub android: String,
    pub screen: String,
    pub host_os: String,
    pub scrcpy: String,
}

/// A screen size as text: `WxH`, or that it is unknown.
pub open spec fn size_text(size: Option<(u32, u32)>) -> Seq<char> {
    match size {
        Some((w, h)) => text::dec(w as nat) + "x"@ + text::dec(h as nat),
        None => "未知"@,
    }
}

pub fn size_label(size: Option<(u32, u32)>) -> (r: String)
    ensures
        r@ == size_text(size),
{
    match size {
        Some((w, h)) => {
            let mut s = String::new();
            text::push_dec(&mut s, w as u64);
            s.append("x");
            text::push_dec(&mut s, h as u64);
            assert(s@ =~= size_text(size));
            s
        },
        None => "未知".to_owned(),
    }
}

/// Puts together what the queries said; a property that could not be read comes in empty.
pub fn device_info(
    serial: &str,
    brand: &str,
    model: &str,
    android: &str,
    screen: Option<(u32, u32)>,
    os: &str,
    arch: &str,
    scrcpy: &str,
) -> (d: DeviceInfo)
    ensures
        d.serial@ == serial@,
        d.brand@ == text::trim(brand@),
        d.model@ == text::trim(model@),
        d.android@ == text::trim(android@),
        d.screen@ == size_text(screen),
        d.host_os@ == os@ + " "@ + arch@,
        d.scrcpy@ == scrcpy@,
{
    let mut host = os.to_owned();
    host.append(" ");
    host.append(arch);
    DeviceInfo {
        serial: serial.to_owned(),
        brand: text::trimmed(brand),
        model: text::trimmed(model),
        android: text::trimmed(android),
        screen: size_label(screen),
        host_os: host,
        scrcpy: scrcpy.to_owned(),
    }
}

proof fn serials_each(lines: Seq<Seq<char>>, n: int, k: int, i: int)
    requires
        0 <= n <= lines.len(),
    ensures
        0 <= i < n && names_device(lines[i]) ==> serials(lines, n).contains(
            text::words(lines[i])[0],
        ),
        0 <= k < serials(lines, n).len() ==> exists|j: int|
            0 <= j < n && names_device(#[trigger] lines[j]) && serials(lines, n)[k] == text::words(
                lines[j],
            )[0],
        serials(lines, n).len() <= n,
    decreases n,
{
    if n > 0 {
        serials_each(lines, n - 1, k, i);
        let before = serials(lines, n - 1);
        let s = serials(lines, n);
        if 0 <= i < n - 1 && names_device(lines[i]) {
            let q = before.index_of(text::words(lines[i])[0]);
            assert(s[q] == text::words(lines[i])[0]);
        }
        if i == n - 1 && names_device(lines[i]) {
            assert(s[before.len() as int] == text::words(lines[i])[0]);
        }
        if 0 <= k < s.len() && k == before.len() {
            assert(names_device(lines[n - 1]));
        }
    }
}

/// A device is listed exactly when a line behind the heading names it and says that it is ready:
/// its serial number is the first word there, and the second is `device`.
pub proof fn ready_devices_are_listed(out: Seq<char>, i: int, k: int)
    ensures
        ({
            let l = text::lines(out);
            let r = devices_in(out);
            &&& 1 <= i < l.len() && text::words(l[i]).len() >= 2 && text::words(l[i])[1]
                == "device"@ ==> r.contains(text::words(l[i])[0])
            &&& 0 <= k < r.len() ==> exists|j: int|
                1 <= j < l.len() && text::words(#[trigger] l[j]).len() >= 2 && text::words(l[j])[1]
                    == "device"@ && r[k] == text::words(l[j])[0]
        }),
{
    let l = text::lines(out);
    if l.len() > 0 {
        let rest = l.skip(1);
        serials_each(rest, rest.len() as int, k, i - 1);
        if 1 <= i < l.len() {
            assert(rest[i - 1] == l[i]);
        }
        let r = devices_in(out);
        if 0 <= k < r.len() {
            let j = choose|j: int|
                0 <= j < rest.len() && names_device(#[trigger] rest[j]) && r[k] == text::words(
                    rest[j],
                )[0];
            assert(rest[j] == l[j + 1]);
        }
    }
}

/// Digits, an x and digits: as a size is written.
pub open spec fn written_size(w: u32, h: u32) -> Seq<char> {
    text::dec(w as nat) + seq!['x'] + text::dec(h as nat)
}

proof fn written_size_props(w: u32, h: u32)
    ensures
        ({
            let s = written_size(w, h);
            &&& s.len() >= 3
            &&& forall|i: int| 0 <= i < s.len() ==> text::is_digit(#[trigger] s[i]) || s[i] == 'x'
            &&& size_said(s) == Ok::<(u32, u32), SizeError>((w, h))
        }),
{
    let a = text::dec(w as nat);
    let b = text::dec(h as nat);
    let s = written_size(w, h);
    text::dec_reads_back(w as nat);
    text::dec_reads_back(h as nat);
    assert forall|i: int| 0 <= i < s.len() implies text::is_digit(#[trigger] s[i]) || s[i] == 'x' by {
        if i < a.len() {
            assert(text::is_digit(a[i]));
        } else if i > a.len() {
            assert(text::is_digit(b[i - a.len() - 1]));
        }
    }
    text::find_char_props(s, 'x');
    let i = text::find_char(s, 'x') as int;
    if i < a.len() {
        assert(text::is_digit(a[i]));
    }
    assert(s[a.len() as int] == 'x');
    assert(i == a.len());
    assert(s.take(i) =~= a);
    assert(s.skip(i + 1) =~= b);
    text::find_char_props(b, 'x');
    let k = text::find_char(b, 'x') as int;
    if k < b.len() {
        assert(text::is_digit(b[k]));
    }
    assert(b.take(k) =~= b);
    assert(text::is_digit(a[0]) && text::is_digit(a[a.len() - 1]));
    assert(text::is_digit(b[0]) && text::is_digit(b[b.len() - 1]));
    text::trim_leaves_clean(a);
    text::trim_leaves_clean(b);
}

proof fn last_piece_of(front: Seq<char>, end: char, piece: Seq<char>)
    requires
        end == ' ' || end == ':',
        forall|i: int| 0 <= i < piece.len() ==> (#[trigger] piece[i]) != ' ' && piece[i] != ':',
    ensures
        last_piece(front.push(end) + piece) == front.len() + 1,
    decreases piece.len(),
{
    let s = front.push(end) + piece;
    if piece.len() > 0 {
        assert(s.last() == piece[piece.len() - 1]);
        assert(s.drop_last() =~= front.push(end) + piece.drop_last());
        last_piece_of(front, end, piece.drop_last());
    } else {
        assert(s =~= front.push(end));
    }
}

/// A size that is written at the end of a text, behind a blank or a colon, is read there.
pub proof fn sizes_are_read_at_the_end(front: Seq<char>, end: char, w: u32, h: u32)
    requires
        end == ' ' || end == ':',
        front.len() > 0,
        !text::is_space(front[0]),
    ensures
        size_at_end(front.push(end) + written_size(w, h)) == Ok::<(u32, u32), SizeError>((w, h)),
{
    let piece = written_size(w, h);
    let s = front.push(end) + piece;
    written_size_props(w, h);
    assert forall|i: int| 0 <= i < piece.len() implies (#[trigger] piece[i]) != ' ' && piece[i]
        != ':' by {
        assert(text::is_digit(piece[i]) || piece[i] == 'x');
    }
    assert(s[0] == front[0]);
    assert(s.last() == piece[piece.len() - 1]);
    assert(text::is_digit(piece[piece.len() - 1]) || piece[piece.len() - 1] == 'x');
    text::trim_leaves_clean(s);
    last_piece_of(front, end, piece);
    assert(s.skip(front.len() as int + 1) =~= piece);
}

/// The physical size is read whatever sizes follow it: the first line says it, and what is said
/// in the lines behind it does not count.
pub proof fn the_physical_size_is_read(w: u32, h: u32, rest: Seq<char>)
    ensures
        wm_size("Physical size: "@ + written_size(w, h)) == Ok::<(u32, u32), SizeError>((w, h)),
        wm_size("Physical size: "@ + written_size(w, h) + seq!['\n'] + rest) == Ok::<
            (u32, u32),
            SizeError,
        >((w, h)),
        wm_size("Physical size: "@ + written_size(w, h) + seq!['\r', '\n'] + rest) == Ok::<
            (u32, u32),
            SizeError,
        >((w, h)),
{
    reveal_strlit("Physical size: ");
    reveal_strlit("Physical size:");
    let head = "Physical size: "@;
    let front = "Physical size:"@;
    let size = written_size(w, h);
    let first = head + size;
    assert(head =~= front.push(' '));
    written_size_props(w, h);
    sizes_are_read_at_the_end(front, ' ', w, h);
    assert(text::stands_at(first, front, 0)) by {
        assert(first.subrange(0, front.len() as int) =~= front);
    }
    assert(!first.contains('\n')) by {
        if first.contains('\n') {
            let i = first.index_of('\n');
            if i >= head.len() {
                assert(first[i] == size[i - head.len()]);
                assert(text::is_digit(size[i - head.len()]) || size[i - head.len()] == 'x');
            } else {
                assert(first[i] == head[i]);
            }
        }
    }
    text::lines_end_at_line_feeds(first, rest);
    assert(first.last() == size[size.len() - 1]);
    assert(text::is_digit(size[size.len() - 1]) || size[size.len() - 1] == 'x');
    let one = text::lines(first);
    let more = seq![first] + text::lines(rest);
    assert(one[0] == first && more[0] == first);
    assert(first_beginning(one, front) == 0);
    assert(first_beginning(more, front) == 0);
}

/// The first file among several is the one that is found, if any is there.
pub proof fn the_first_file_is_found(v: Seq<Candidate>, i: int)
    requires
        0 <= i <= v.len(),
    ensures
        first_file(v, i) is Some ==> exists|k: int|
            i <= k < v.len() && (#[trigger] v[k]).is_file && first_file(v, i) == Some(v[k].path@)
                && forall|q: int| i <= q < k ==> !(#[trigger] v[q]).is_file,
        first_file(v, i) is None ==> forall|q: int| i <= q < v.len() ==> !(
        #[trigger] v[q]).is_file,
    decreases v.len() - i,
{
    if i < v.len() {
        if v[i].is_file {
            assert(first_file(v, i) == Some(v[i].path@));
        } else {
            the_first_file_is_found(v, i + 1);
        }
    }
}

/// What was found first counts, and the other only where nothing was.
pub proof fn first_found_counts(a: Option<Seq<char>>, b: Option<Seq<char>>)
    ensures
        a is Some ==> or_else(a, b) == a,
        a is None ==> or_else(a, b) == b,
{
}

/// Whether a directory holds the program `exe`, itself or at most `depth` levels below.
pub open spec fn holds_program(t: DirTree, depth: nat, exe: Seq<char>) -> bool
    decreases depth,
{
    ||| t.exe is Some && t.exe->0@ == exe
    ||| depth > 0 && exists|i: int|
        0 <= i < t.subs@.len() && holds_program(#[trigger] t.subs@[i], (depth - 1) as nat, exe)
}

/// A search finds a program that is there, not too deep, and finds one if there is any; the one
/// in the directory itself comes first.
pub proof fn searching_finds(t: DirTree, depth: nat, exe: Seq<char>)
    ensures
        found_in(t, depth) is Some ==> holds_program(t, depth, found_in(t, depth)->0),
        holds_program(t, depth, exe) ==> found_in(t, depth) is Some,
        t.exe is Some ==> found_in(t, depth) == Some(t.exe->0@),
    decreases depth, 0nat,
{
    if t.exe is None && depth > 0 {
        searching_among(t.subs@, (depth - 1) as nat, 0, exe);
    }
}

proof fn searching_among(ts: Seq<DirTree>, depth: nat, i: int, exe: Seq<char>)
    requires
        0 <= i <= ts.len(),
    ensures
        found_among(ts, depth, i) is Some ==> exists|k: int|
            i <= k < ts.len() && holds_program(#[trigger] ts[k], depth, found_among(ts, depth, i)->0),
        (exists|k: int| i <= k < ts.len() && holds_program(#[trigger] ts[k], depth, exe))
            ==> found_among(ts, depth, i) is Some,
    decreases depth, 1 + (ts.len() - i),
{
    if i < ts.len() {
        searching_finds(ts[i], depth, exe);
        searching_among(ts, depth, i + 1, exe);
        if found_in(ts[i], depth) is Some {
            assert(holds_program(ts[i], depth, found_among(ts, depth, i)->0));
        } else if exists|k: int| i <= k < ts.len() && holds_program(#[trigger] ts[k], depth, exe) {
            let k = choose|k: int| i <= k < ts.len() && holds_program(#[trigger] ts[k], depth, exe);
            assert(k != i);
            assert(holds_program(ts[k], depth, exe));
        }
    }
}

/// An unpacked scrcpy is found in a directory whose name begins with `scrcpy`, in capitals or
/// not, and at most three levels below it, and only there; where there is one, one is found.
pub proof fn unpacked_programs_are_found(ts: Seq<DirTree>, i: int, k: int, exe: Seq<char>)
    requires
        0 <= i <= ts.len(),
    ensures
        portable_among(ts, i) is Some ==> exists|j: int|
            i <= j < ts.len() && text::starts_with_lower((#[trigger] ts[j]).name@, "scrcpy"@)
                && holds_program(ts[j], 3, portable_among(ts, i)->0),
        i <= k < ts.len() && text::starts_with_lower(ts[k].name@, "scrcpy"@) && holds_program(
            ts[k],
            3,
            exe,
        ) ==> portable_among(ts, i) is Some,
    decreases ts.len() - i,
{
    if i < ts.len() {
        searching_finds(ts[i], 3, exe);
        unpacked_programs_are_found(ts, i + 1, k, exe);
        if text::starts_with_lower(ts[i].name@, "scrcpy"@) && found_in(ts[i], 3) is Some {
            assert(holds_program(ts[i], 3, portable_among(ts, i)->0));
        }
    }
}

proof fn size_run_of(piece: Seq<char>, rest: Seq<char>)
    requires
        forall|i: int|
            0 <= i < piece.len() ==> text::is_digit(#[trigger] piece[i]) || piece[i] == 'x',
        rest.len() > 0 ==> !text::is_digit(rest[0]) && rest[0] != 'x',
    ensures
        size_run(piece + rest) == piece.len(),
    decreases piece.len(),
{
    let s = piece + rest;
    if piece.len() > 0 {
        assert(s[0] == piece[0]);
        assert(s.skip(1) =~= piece.skip(1) + rest);
        assert forall|i: int| 0 <= i < piece.skip(1).len() implies text::is_digit(
            #[trigger] piece.skip(1)[i],
        ) || piece.skip(1)[i] == 'x' by {
            assert(piece.skip(1)[i] == piece[i + 1]);
        }
        size_run_of(piece.skip(1), rest);
    } else {
        assert(s =~= rest);
    }
}

/// The current size is what is written behind the last `cur=`, as long as it is a size with an
/// area; whatever stands before and behind it does not count.
pub proof fn the_current_size_is_read(s: Seq<char>, at: int, w: u32, h: u32, rest: Seq<char>)
    requires
        w > 0,
        h > 0,
        0 <= at,
        at + 4 <= s.len(),
        text::stands_at(s, "cur="@, at),
        s.skip(at + 4) == written_size(w, h) + rest,
        rest.len() > 0 ==> !text::is_digit(rest[0]) && rest[0] != 'x',
        forall|q: int| at < q ==> !#[trigger] text::stands_at(s, "cur="@, q),
    ensures
        last_current(s, s.len() as int) == Some((w, h)),
{
    let piece = written_size(w, h);
    written_size_props(w, h);
    size_run_of(piece, rest);
    let t = s.skip(at + 4);
    assert(t.take(size_run(t) as int) =~= piece);
    let a = text::dec(w as nat);
    let b = text::dec(h as nat);
    text::dec_reads_back(w as nat);
    text::dec_reads_back(h as nat);
    text::find_char_props(piece, 'x');
    let i = text::find_char(piece, 'x') as int;
    if i < a.len() {
        assert(text::is_digit(a[i]));
    }
    assert(piece[a.len() as int] == 'x');
    assert(piece.take(i) =~= a);
    assert(piece.skip(i + 1) =~= b);
    text::find_char_props(b, 'x');
    let k = text::find_char(b, 'x') as int;
    if k < b.len() {
        assert(text::is_digit(b[k]));
    }
    assert(b.take(k) =~= b);
    assert(size_at_front(t) == Some((w, h)));
    nothing_behind(s, at, s.len() as int);
}

proof fn nothing_behind(s: Seq<char>, at: int, n: int)
    requires
        0 <= at < n,
        forall|q: int| at < q ==> !#[trigger] text::stands_at(s, "cur="@, q),
    ensures
        last_current(s, n) == last_current(s, at + 1),
    decreases n,
{
    if n > at + 1 {
        assert(!text::stands_at(s, "cur="@, n - 1));
        nothing_behind(s, at, n - 1);
    }
}

} // verus!
