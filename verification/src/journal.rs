//! The running log, and the report that is saved of it.

use vstd::prelude::*;
use vstd::string::*;
use crate::adb::DeviceInfo;
use crate::text;

verus! {

/// How many lines the log keeps.
pub const MAX_LINES: usize = 200;

/// The log: the newest lines, oldest first.
pub struct Journal {
    pub lines: Vec<String>,
}

impl View for Journal {
    type V = Seq<Seq<char>>;

    open spec fn view(&self) -> Seq<Seq<char>> {
        text::texts(self.lines@)
    }
}

/// At most the last [`MAX_LINES`] of some lines.
pub open spec fn newest(lines: Seq<Seq<char>>) -> Seq<Seq<char>> {
    if lines.len() > MAX_LINES {
        lines.skip(lines.len() - MAX_LINES)
    } else {
        lines
    }
}

impl Default for Journal {
    fn default() -> (j: Self)
        ensures
            j@ == Seq::<Seq<char>>::empty(),
    {
        let j = Journal { lines: Vec::new() };
        assert(j@ =~= Seq::<Seq<char>>::empty());
        j
    }
}

impl Journal {
    /// Adds a line; the oldest lines go when there are too many.
    pub fn log(&mut self, s: &str)
        ensures
            final(self)@ == newest(old(self)@.push(s@)),
            final(self)@.len() <= MAX_LINES,
    {
        self.lines.push(s.to_owned());
        let ghost all = old(self)@.push(s@);
        assert(text::texts(self.lines@) =~= all);
        assert(all.skip(0) =~= all);
        let ghost mut gone: int = 0;
        while self.lines.len() > MAX_LINES
            invariant
                0 <= gone <= all.len(),
                text::texts(self.lines@) == all.skip(gone),
                all.len() <= MAX_LINES ==> gone == 0,
                all.len() > MAX_LINES ==> gone <= all.len() - MAX_LINES,
                all.len() - gone == self.lines@.len(),
            decreases self.lines.len(),
        {
            let ghost before = self.lines@;
            self.lines.remove(0);
            proof {
                assert(text::texts(self.lines@) =~= text::texts(before).skip(1));
                assert(all.skip(gone).skip(1) =~= all.skip(gone + 1));
                gone = gone + 1;
            }
        }
    }

    /// Adds several lines.
    pub fn log_all(&mut self, notes: &Vec<String>)
        ensures
            final(self)@ == logged(old(self)@, text::texts(notes@)),
    {
        let n: usize = notes.len();
        let ghost t = text::texts(notes@);
        assert(t.take(0) =~= Seq::<Seq<char>>::empty());
        for i in 0..n
            invariant
                n == notes.len(),
                t == text::texts(notes@),
                self@ == logged(old(self)@, t.take(i as int)),
        {
            assert(t.take(i + 1).drop_last() =~= t.take(i as int));
            assert(t.take(i + 1).last() == notes@[i as int]@);
            self.log(notes[i].as_str());
        }
        assert(t.take(n as int) =~= t);
    }
}

/// The log after some lines were added in turn.
pub open spec fn logged(lines: Seq<Seq<char>>, notes: Seq<Seq<char>>) -> Seq<Seq<char>>
    decreases notes.len(),
{
    if notes.len() == 0 {
        lines
    } else {
        newest(logged(lines, notes.drop_last()).push(notes.last()))
    }
}

/// The log keeps the newest lines: what it shows after lines were added is the end of all the
/// lines there ever were.
pub proof fn log_keeps_the_end(lines: Seq<Seq<char>>, notes: Seq<Seq<char>>)
    requires
        lines.len() <= MAX_LINES,
    ensures
        logged(lines, notes) == newest(lines + notes),
    decreases notes.len(),
{
    if notes.len() == 0 {
        assert(lines + notes =~= lines);
    } else {
        log_keeps_the_end(lines, notes.drop_last());
        let a = lines + notes.drop_last();
        assert(lines + notes =~= a.push(notes.last()));
        assert(newest(newest(a).push(notes.last())) =~= newest(a.push(notes.last())));
    }
}

/// Every line followed by a line break.
pub open spec fn as_lines(lines: Seq<Seq<char>>) -> Seq<char>
    decreases lines.len(),
{
    if lines.len() == 0 {
        Seq::empty()
    } else {
        as_lines(lines.drop_last()) + lines.last() + "\n"@
    }
}

/// A label, a value and a line break.
pub open spec fn field_line(label: Seq<char>, value: Seq<char>) -> Seq<char> {
    label + value + "\n"@
}

/// The text of a report.
pub open spec fn report_text(
    lines: Seq<Seq<char>>,
    info: DeviceInfo,
    saved_at: Seq<char>,
    version: Seq<char>,
    scrcpy_path: Seq<char>,
    server_path: Seq<char>,
) -> Seq<char> {
    "scrcpy-pad 运行日志\n"@ + field_line("保存时间: "@, saved_at) + field_line(
        "程序版本: "@,
        version,
    ) + field_line("主机环境: "@, info.host_os@) + field_line(
        "scrcpy: "@,
        info.scrcpy@ + " ("@ + (if scrcpy_path.len() == 0 {
            "PATH"@
        } else {
            scrcpy_path
        }) + ")"@,
    ) + field_line("server: "@, server_path) + "\n"@ + field_line("设备: "@, info.serial@)
        + field_line("品牌/型号: "@, info.brand@ + " "@ + info.model@) + field_line(
        "Android: "@,
        info.android@,
    ) + field_line("分辨率: "@, info.screen@) + "\n"@ + "===== 运行日志 =====\n"@ + as_lines(lines)
}

fn push_field(s: &mut String, label: &str, value: &str)
    ensures
        final(s)@ == old(s)@ + field_line(label@, value@),
{
    s.append(label);
    s.append(value);
    s.append("\n");
    assert(s@ =~= old(s)@ + field_line(label@, value@));
}

/// Puts the report together: when and by which version it was written, the host, scrcpy and
/// its server, the device, and the log.
pub fn build_log_content(
    journal: &Journal,
    info: &DeviceInfo,
    saved_at: &str,
    version: &str,
    scrcpy_path: &str,
    server_path: &str,
) -> (r: String)
    ensures
        r@ == report_text(
            journal@,
            *info,
            saved_at@,
            version@,
            scrcpy_path@,
            server_path@,
        ),
{
    let mut s = String::new();
    s.append("scrcpy-pad 运行日志\n");
    assert(s@ =~= "scrcpy-pad 运行日志\n"@);
    push_field(&mut s, "保存时间: ", saved_at);
    push_field(&mut s, "程序版本: ", version);
    push_field(&mut s, "主机环境: ", info.host_os.as_str());
    let mut who = info.scrcpy.clone();
    who.append(" (");
    who.append(
        if scrcpy_path.is_empty() {
            "PATH"
        } else {
            scrcpy_path
        },
    );
    who.append(")");
    push_field(&mut s, "scrcpy: ", who.as_str());
    push_field(&mut s, "server: ", server_path);
    s.append("\n");
    push_field(&mut s, "设备: ", info.serial.as_str());
    let mut model = info.brand.clone();
    model.append(" ");
    model.append(info.model.as_str());
    push_field(&mut s, "品牌/型号: ", model.as_str());
    push_field(&mut s, "Android: ", info.android.as_str());
    push_field(&mut s, "分辨率: ", info.screen.as_str());
    s.append("\n");
    s.append("===== 运行日志 =====\n");
    let ghost head = s@;
    let n: usize = journal.lines.len();
    assert(journal@.take(0) =~= Seq::<Seq<char>>::empty());
    assert(head + as_lines(Seq::<Seq<char>>::empty()) =~= head);
    for i in 0..n
        invariant
            n == journal.lines.len(),
            s@ == head + as_lines(journal@.take(i as int)),
    {
        assert(journal@.take(i + 1).drop_last() =~= journal@.take(i as int));
        assert(journal@.take(i + 1).last() == journal.lines@[i as int]@);
        s.append(journal.lines[i].as_str());
        s.append("\n");
        assert(s@ =~= head + as_lines(journal@.take(i + 1)));
    }
    assert(journal@.take(n as int) =~= journal@);
    s
}

/// What the log shows is the end of its lines, two hundred of them at most.
pub proof fn the_newest_lines(lines: Seq<Seq<char>>, i: int)
    ensures
        newest(lines).len() == (if lines.len() > 200 {
            200
        } else {
            lines.len()
        }),
        0 <= i < newest(lines).len() ==> newest(lines)[i] == lines[lines.len() - newest(lines).len()
            + i],
{
}

/// The lines of a report are found in it again, one by one and in order.
pub proof fn report_lines_read_back(lines: Seq<Seq<char>>)
    requires
        forall|i: int|
            0 <= i < lines.len() ==> !(#[trigger] lines[i]).contains('\n') && !(lines[i].len() > 0
                && lines[i].last() == '\r'),
    ensures
        text::lines(as_lines(lines)) == lines,
    decreases lines.len(),
{
    reveal_strlit("\n");
    assert("\n"@ =~= seq!['\n']);
    if lines.len() == 0 {
        assert(text::lines(Seq::<char>::empty()) =~= lines);
    } else {
        let first = lines[0];
        let rest = lines.skip(1);
        assert forall|i: int| 0 <= i < rest.len() implies !(#[trigger] rest[i]).contains('\n') && !(
        rest[i].len() > 0 && rest[i].last() == '\r') by {
            assert(rest[i] == lines[i + 1]);
        }
        report_lines_read_back(rest);
        as_lines_front(lines);
        text::lines_end_at_line_feeds(first, as_lines(rest));
        assert(seq![first] + rest =~= lines);
    }
}

proof fn as_lines_front(lines: Seq<Seq<char>>)
    requires
        lines.len() > 0,
    ensures
        as_lines(lines) == lines[0] + "\n"@ + as_lines(lines.skip(1)),
    decreases lines.len(),
{
    if lines.len() == 1 {
        assert(lines.drop_last() =~= Seq::<Seq<char>>::empty());
        assert(lines.skip(1) =~= Seq::<Seq<char>>::empty());
        assert(as_lines(lines) =~= lines[0] + "\n"@ + as_lines(lines.skip(1)));
    } else {
        let d = lines.drop_last();
        as_lines_front(d);
        assert(d.skip(1) =~= lines.skip(1).drop_last());
        assert(lines.skip(1).last() == lines.last());
        assert(as_lines(lines) =~= lines[0] + "\n"@ + as_lines(lines.skip(1)));
    }
}

} // verus!
