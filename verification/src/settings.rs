//! Settings of the program on this machine: where scrcpy is, how it is started, which device
//! was used last.
//!
//! They are kept apart from profiles, which users pass on to others.

use vstd::prelude::*;
use vstd::string::*;
use crate::text;

verus! {

/// The settings.
#[derive(Debug, PartialEq)]
pub struct Settings {
    /// Whether paths are remembered.
    pub remember_paths: bool,
    /// The scrcpy program; empty to look for it.
    pub scrcpy_path: String,
    /// The directory of scrcpy; empty if unknown. It survives a change of version, when the
    /// program's own path does not.
    pub scrcpy_dir: String,
    /// scrcpy-server; empty to look for it.
    pub server_path: String,
    /// adb; empty to look for it.
    pub adb_path: String,
    /// Arguments for scrcpy.
    pub scrcpy_args: String,
    /// Serial number of the device used last.
    pub selected_serial: String,
    /// When the settings were written, in seconds since the epoch. Shown only.
    pub saved_at: u64,
}

/// The settings as mathematical values.
#[verifier::ext_equal]
pub struct SettingsView {
    pub remember_paths: bool,
    pub scrcpy_path: Seq<char>,
    pub scrcpy_dir: Seq<char>,
    pub server_path: Seq<char>,
    pub adb_path: Seq<char>,
    pub scrcpy_args: Seq<char>,
    pub selected_serial: Seq<char>,
    pub saved_at: u64,
}

impl View for Settings {
    type V = SettingsView;

    open spec fn view(&self) -> SettingsView {
        SettingsView {
            remember_paths: self.remember_paths,
            scrcpy_path: self.scrcpy_path@,
            scrcpy_dir: self.scrcpy_dir@,
            server_path: self.server_path@,
            adb_path: self.adb_path@,
            scrcpy_args: self.scrcpy_args@,
            selected_serial: self.selected_serial@,
            saved_at: self.saved_at,
        }
    }
}

impl Clone for Settings {
    fn clone(&self) -> (r: Self)
        ensures
            r@ == self@,
    {
        Settings {
            remember_paths: self.remember_paths,
            scrcpy_path: self.scrcpy_path.clone(),
            scrcpy_dir: self.scrcpy_dir.clone(),
            server_path: self.server_path.clone(),
            adb_path: self.adb_path.clone(),
            scrcpy_args: self.scrcpy_args.clone(),
            selected_serial: self.selected_serial.clone(),
            saved_at: self.saved_at,
        }
    }
}

impl Default for Settings {
    fn default() -> (r: Self)
        ensures
            r@ == (SettingsView {
                remember_paths: true,
                scrcpy_path: Seq::empty(),
                scrcpy_dir: Seq::empty(),
                server_path: Seq::empty(),
                adb_path: Seq::empty(),
                scrcpy_args: Seq::empty(),
                selected_serial: Seq::empty(),
                saved_at: 0,
            }),
    {
        Settings {
            remember_paths: true,
            scrcpy_path: String::new(),
            scrcpy_dir: String::new(),
            server_path: String::new(),
            adb_path: String::new(),
            scrcpy_args: String::new(),
            selected_serial: String::new(),
            saved_at: 0,
        }
    }
}

/// Whether nothing but white space is there.
pub open spec fn blank(s: Seq<char>) -> bool {
    text::trim(s).len() == 0
}

/// The content of settings: all but the time of writing.
pub open spec fn content(s: SettingsView) -> SettingsView {
    SettingsView { saved_at: 0, ..s }
}

/// What a path turned out to be.
#[derive(Debug, Clone, Copy, PartialEq, Eq, Structural)]
pub enum PathKind {
    File,
    Dir,
    /// Neither a file nor a directory.
    Missing,
}

/// What was found about a path, and the nearest directory above it that exists, if any is near:
/// [`looked_at`] makes it.
pub struct Looked {
    pub kind: PathKind,
    pub near: Option<String>,
}

/// The directories worth searching, given the directory of the remembered program; `same` says
/// that it is the remembered directory.
pub open spec fn dirs_to_search(s: SettingsView, parent: Option<Seq<char>>, same: bool) -> Seq<
    Seq<char>,
> {
    let dir = text::trim(s.scrcpy_dir);
    let first = if dir.len() == 0 {
        Seq::<Seq<char>>::empty()
    } else {
        seq![dir]
    };
    match parent {
        Some(p) => if blank(s.scrcpy_path) || p.len() == 0 || (dir.len() > 0 && same) {
            first
        } else {
            first.push(p)
        },
        None => first,
    }
}

/// A path that is written in one way only: without drives, shares, backslashes, slashes that
/// add nothing and components that stand for others.
pub open spec fn tidy_path(p: Seq<char>) -> bool {
    &&& p.len() > 0
    &&& p[0] != '.'
    &&& p.last() != '/'
    &&& !p.contains(':')
    &&& !p.contains('\\')
    &&& forall|i: int|
        0 <= i < p.len() - 1 && #[trigger] p[i] == '/' ==> p[i + 1] != '/' && p[i + 1] != '.'
}

/// `std::path::Path`'s `==`, which compares components: true of the same text, and of tidy paths
/// of no other. Of paths with different texts that are not both tidy nothing is said, as what
/// their components are depends on the platform.
#[verifier::external_body]
fn same_path(a: &str, b: &str) -> (r: bool)
    ensures
        a@ == b@ ==> r,
        tidy_path(a@) && tidy_path(b@) ==> r == (a@ == b@),
{
    std::path::Path::new(a) == std::path::Path::new(b)
}

/// A path that every platform takes apart alike: the directory `dir`, a slash and the plain
/// name `name`, without drives, shares, backslashes or components that stand for others.
pub open spec fn plain_path(path: Seq<char>, dir: Seq<char>, name: Seq<char>) -> bool {
    &&& path == dir + seq!['/'] + name
    &&& dir.len() > 0
    &&& dir.last() != '/'
    &&& dir.last() != '.'
    &&& !(dir.len() > 1 && dir[0] == '/' && dir[1] == '/')
    &&& name.len() > 0
    &&& name.last() != '.'
    &&& !name.contains('/')
    &&& !path.contains(':')
    &&& !path.contains('\\')
}

/// `std::path::Path::parent`: the path without its final component, so a proper beginning of
/// it, and of a plain path its directory; none for an empty path. Where the components of other
/// paths end depends on the platform, which is why no more is said of them.
#[verifier::external_body]
fn parent_dir(p: &str) -> (r: Option<String>)
    ensures
        p@.len() == 0 ==> r is None,
        r is Some ==> r->0@.len() < p@.len() && r->0@.is_prefix_of(p@),
        forall|dir: Seq<char>, name: Seq<char>| #[trigger]
            plain_path(p@, dir, name) ==> r is Some && r->0@ == dir,
{
    std::path::Path::new(p).parent().map(|d| d.display().to_string())
}

impl Settings {
    /// Whether any path is remembered.
    pub fn has_any_path(&self) -> (r: bool)
        ensures
            r == (!blank(self@.scrcpy_path) || !blank(self@.scrcpy_dir) || !blank(
                self@.server_path,
            ) || !blank(self@.adb_path)),
    {
        !text::is_blank(self.scrcpy_path.as_str()) || !text::is_blank(self.scrcpy_dir.as_str())
            || !text::is_blank(self.server_path.as_str()) || !text::is_blank(
            self.adb_path.as_str(),
        )
    }

    /// Forgets every path and the device, and keeps the rest.
    pub fn clear_paths(&mut self)
        ensures
            final(self)@ == (SettingsView {
                scrcpy_path: Seq::empty(),
                scrcpy_dir: Seq::empty(),
                server_path: Seq::empty(),
                adb_path: Seq::empty(),
                selected_serial: Seq::empty(),
                ..old(self)@
            }),
    {
        self.scrcpy_path = String::new();
        self.scrcpy_dir = String::new();
        self.server_path = String::new();
        self.adb_path = String::new();
        self.selected_serial = String::new();
    }

    /// Whether two settings say the same, whenever they were written.
    pub fn content_eq(&self, other: &Self) -> (r: bool)
        ensures
            r == (content(self@) == content(other@)),
    {
        let r: bool = self.remember_paths == other.remember_paths && self.scrcpy_path
            == other.scrcpy_path && self.scrcpy_dir == other.scrcpy_dir && self.server_path
            == other.server_path && self.adb_path == other.adb_path && self.scrcpy_args
            == other.scrcpy_args && self.selected_serial == other.selected_serial;
        r
    }

    /// The directories worth searching for scrcpy: the remembered directory, then that of the
    /// remembered program.
    pub fn search_dirs(&self) -> (r: Vec<String>)
        ensures
            exists|parent: Option<Seq<char>>, same: bool| #[trigger]
                dirs_to_search(self@, parent, same) == text::texts(r@) && match parent {
                    Some(p) => p.len() < text::trim(self@.scrcpy_path).len() && p.is_prefix_of(
                        text::trim(self@.scrcpy_path),
                    ) && (p == text::trim(self@.scrcpy_dir) ==> same),
                    None => true,
                },
            forall|dir: Seq<char>, name: Seq<char>| #[trigger]
                plain_path(text::trim(self@.scrcpy_path), dir, name) && tidy_path(dir) && (blank(
                    self@.scrcpy_dir,
                ) || tidy_path(text::trim(self@.scrcpy_dir))) ==> text::texts(r@)
                    == dirs_to_search(self@, Some(dir), dir == text::trim(self@.scrcpy_dir)),
    {
        let exe = text::trimmed(self.scrcpy_path.as_str());
        let dir = text::trimmed(self.scrcpy_dir.as_str());
        let parent = parent_dir(exe.as_str());
        let same: bool = match &parent {
            Some(p) => same_path(p.as_str(), dir.as_str()),
            None => false,
        };
        let ghost p = crate::adb::opt_text(parent);
        let r = self.search_dirs_with(parent, same);
        assert(dirs_to_search(self@, p, same) == text::texts(r@));
        r
    }

    /// The directories worth searching for scrcpy, given the directory of the remembered
    /// program; `same` says that it is the remembered directory.
    pub fn search_dirs_with(&self, parent: Option<String>, same: bool) -> (r: Vec<String>)
        ensures
            text::texts(r@) == dirs_to_search(self@, crate::adb::opt_text(parent), same),
    {
        let mut v: Vec<String> = Vec::new();
        let dir = text::trimmed(self.scrcpy_dir.as_str());
        let has_dir: bool = !dir.as_str().is_empty();
        let ghost d = dir@;
        if has_dir {
            v.push(dir);
        }
        assert(text::texts(v@) =~= if d.len() == 0 {
            Seq::<Seq<char>>::empty()
        } else {
            seq![d]
        });
        if let Some(p) = parent {
            if !text::is_blank(self.scrcpy_path.as_str()) && !p.as_str().is_empty() && !(has_dir
                && same) {
                proof {
                    assert(text::texts(v@.push(p)) =~= text::texts(v@).push(p@));
                }
                v.push(p);
            }
        }
        v
    }

    /// The paths that [`Settings::sanitize`] wants looked at: the directory, then scrcpy, its
    /// server and adb.
    pub fn paths_to_look_at(&self) -> (r: (String, String, String, String))
        ensures
            r.0@ == text::trim(self@.scrcpy_dir),
            r.1@ == text::trim(self@.scrcpy_path),
            r.2@ == text::trim(self@.server_path),
            r.3@ == text::trim(self@.adb_path),
    {
        (
            text::trimmed(self.scrcpy_dir.as_str()),
            text::trimmed(self.scrcpy_path.as_str()),
            text::trimmed(self.server_path.as_str()),
            text::trimmed(self.adb_path.as_str()),
        )
    }

    /// Cleans the settings up: white space goes, and so do paths that lead nowhere, but where
    /// they led to is kept as the directory to search. True when something changed.
    pub fn sanitize(
        &mut self,
        dir_kind: PathKind,
        scrcpy: &Looked,
        server: &Looked,
        adb: &Looked,
    ) -> (changed: bool)
        ensures
            (final(self)@, changed) == sanitized(old(self)@, dir_kind, *scrcpy, *server, *adb),
    {
        let mut changed: bool = false;
        let trimmed_dir = text::trimmed(self.scrcpy_dir.as_str());
        if !text::same_text(trimmed_dir.as_str(), self.scrcpy_dir.as_str()) {
            changed = true;
        }
        let mut dir = trimmed_dir;
        let mut moved: bool = false;
        if !dir.as_str().is_empty() && dir_kind != PathKind::Dir {
            if dir_kind == PathKind::File && text::is_blank(self.scrcpy_path.as_str()) {
                self.scrcpy_path = dir;
                moved = true;
            }
            dir = String::new();
            changed = true;
        }
        let scrcpy_kind: PathKind = if moved {
            PathKind::File
        } else {
            scrcpy.kind
        };
        proof {
            text::trim_twice(old(self)@.scrcpy_dir);
        }
        let c1: bool = check_field(&mut self.scrcpy_path, &mut dir, scrcpy_kind, &scrcpy.near);
        let c2: bool = check_field(&mut self.server_path, &mut dir, server.kind, &server.near);
        let c3: bool = check_field(&mut self.adb_path, &mut dir, adb.kind, &adb.near);
        self.scrcpy_dir = dir;
        let serial = text::trimmed(self.selected_serial.as_str());
        let c4: bool = !text::same_text(serial.as_str(), self.selected_serial.as_str());
        self.selected_serial = serial;
        changed || c1 || c2 || c3 || c4
    }
}

/// The directory to search once a path that is no file was dropped: unless one is known, the
/// path itself if it is a directory, or the nearest one.
pub open spec fn hint(path: Seq<char>, dir: Seq<char>, kind: PathKind, near: Option<String>) -> Seq<
    char,
> {
    if dir.len() > 0 {
        dir
    } else if kind == PathKind::Dir {
        path
    } else if near is Some {
        near->0@
    } else {
        dir
    }
}

/// One path cleaned up, with the directory to search and whether the path changed.
pub open spec fn checked(
    path: Seq<char>,
    dir: Seq<char>,
    kind: PathKind,
    near: Option<String>,
) -> (Seq<char>, Seq<char>, bool) {
    let t = text::trim(path);
    if t.len() == 0 || kind == PathKind::File {
        (t, dir, t != path)
    } else {
        (Seq::empty(), hint(t, dir, kind, near), true)
    }
}

fn check_field(
    path: &mut String,
    dir: &mut String,
    kind: PathKind,
    near: &Option<String>,
) -> (changed: bool)
    ensures
        (final(path)@, final(dir)@, changed) == checked(old(path)@, old(dir)@, kind, *near),
{
    let t = text::trimmed(path.as_str());
    let differs: bool = !text::same_text(t.as_str(), path.as_str());
    if t.as_str().is_empty() || kind == PathKind::File {
        *path = t;
        return differs;
    }
    if dir.as_str().is_empty() {
        if kind == PathKind::Dir {
            *dir = t;
        } else if let Some(n) = near {
            *dir = n.clone();
        }
    }
    *path = String::new();
    true
}

/// Settings cleaned up, and whether anything changed.
pub open spec fn sanitized(
    s: SettingsView,
    dir_kind: PathKind,
    scrcpy: Looked,
    server: Looked,
    adb: Looked,
) -> (SettingsView, bool) {
    let t = text::trim(s.scrcpy_dir);
    let bad = t.len() > 0 && dir_kind != PathKind::Dir;
    let moved = bad && dir_kind == PathKind::File && blank(s.scrcpy_path);
    let dir0 = if bad {
        Seq::empty()
    } else {
        t
    };
    let a = checked(
        if moved {
            t
        } else {
            s.scrcpy_path
        },
        dir0,
        if moved {
            PathKind::File
        } else {
            scrcpy.kind
        },
        scrcpy.near,
    );
    let b = checked(s.server_path, a.1, server.kind, server.near);
    let c = checked(s.adb_path, b.1, adb.kind, adb.near);
    let serial = text::trim(s.selected_serial);
    (
        SettingsView {
            scrcpy_path: a.0,
            server_path: b.0,
            adb_path: c.0,
            scrcpy_dir: c.1,
            selected_serial: serial,
            ..s
        },
        t != s.scrcpy_dir || bad || a.2 || b.2 || c.2 || serial != s.selected_serial,
    )
}

/// Whether a directory that was found has no white space around its name.
pub open spec fn clean_hint(l: Looked) -> bool {
    l.near is Some ==> text::trim(l.near->0@) == l.near->0@
}

/// Clean settings stay as they are: what is left after cleaning up are files, and a directory
/// that exists, and cleaning up again reports no change.
pub proof fn sanitize_settles(
    s: SettingsView,
    dir_kind: PathKind,
    scrcpy: Looked,
    server: Looked,
    adb: Looked,
    l1: Looked,
    l2: Looked,
    l3: Looked,
)
    requires
        clean_hint(scrcpy),
        clean_hint(server),
        clean_hint(adb),
        l1.kind == PathKind::File,
        l2.kind == PathKind::File,
        l3.kind == PathKind::File,
    ensures
        ({
            let once = sanitized(s, dir_kind, scrcpy, server, adb).0;
            sanitized(once, PathKind::Dir, l1, l2, l3) == (once, false)
        }),
{
    text::trim_twice(s.scrcpy_dir);
    text::trim_twice(s.scrcpy_path);
    text::trim_twice(s.server_path);
    text::trim_twice(s.adb_path);
    text::trim_twice(s.selected_serial);
    assert(text::trim(Seq::<char>::empty()) =~= Seq::<char>::empty());
    let once = sanitized(s, dir_kind, scrcpy, server, adb).0;
    assert(text::trim(once.scrcpy_path) == once.scrcpy_path);
    assert(text::trim(once.server_path) == once.server_path);
    assert(text::trim(once.adb_path) == once.adb_path);
    assert(text::trim(once.scrcpy_dir) == once.scrcpy_dir);
    assert(text::trim(once.selected_serial) == once.selected_serial);
    assert(sanitized(once, PathKind::Dir, l1, l2, l3).0 =~= once);
}

/// A path that leads nowhere is dropped, but where it led is not lost: with no directory known
/// and one near, the directory to search is set.
pub proof fn lost_paths_leave_a_hint(s: SettingsView, scrcpy: Looked, server: Looked, adb: Looked)
    requires
        blank(s.scrcpy_dir),
        !blank(s.scrcpy_path),
        scrcpy.kind != PathKind::File,
        scrcpy.kind == PathKind::Missing ==> scrcpy.near is Some && scrcpy.near->0@.len() > 0,
    ensures
        ({
            let r = sanitized(s, PathKind::Missing, scrcpy, server, adb);
            &&& r.1
            &&& r.0.scrcpy_path == Seq::<char>::empty()
            &&& r.0.scrcpy_dir == (if scrcpy.kind == PathKind::Dir {
                text::trim(s.scrcpy_path)
            } else {
                scrcpy.near->0@
            })
        }),
{
}

/// The first of the directories `from..=last` that exists.
pub open spec fn nearest(chain: Seq<(String, bool)>, from: int, last: int) -> Option<Seq<char>>
    decreases last + 1 - from,
{
    if from < 0 || from > last || from >= chain.len() {
        None
    } else if chain[from].1 {
        Some(chain[from].0@)
    } else {
        nearest(chain, from + 1, last)
    }
}

/// The nearest directory above a path that exists. `chain` lists the directories above it
/// from the inside out, each with whether it exists; at most `max_up` missing ones are passed.
pub fn nearest_existing_dir(chain: &Vec<(String, bool)>, max_up: usize) -> (r: Option<String>)
    ensures
        crate::adb::opt_text(r) == nearest(chain@, 0, max_up as int),
{
    let n: usize = chain.len();
    let mut i: usize = 0;
    while i < n
        invariant
            i <= n,
            n == chain.len(),
            i <= max_up + 1,
            nearest(chain@, 0, max_up as int) == nearest(chain@, i as int, max_up as int),
        decreases n - i,
    {
        if i > max_up {
            return None;
        }
        if chain[i].1 {
            return Some(chain[i].0.clone());
        }
        i = i + 1;
    }
    None
}

/// How many missing directories above a lost path are passed on the way to one that exists.
pub const MAX_UP: usize = 2;

/// What is known of a path: what lies there, and the nearest directory above it that exists.
/// `chain` lists the directories above it from the inside out, each with whether it exists.
pub fn looked_at(kind: PathKind, chain: &Vec<(String, bool)>) -> (r: Looked)
    ensures
        r.kind == kind,
        crate::adb::opt_text(r.near) == nearest(chain@, 0, MAX_UP as int),
{
    Looked { kind, near: nearest_existing_dir(chain, MAX_UP) }
}

/// The settings with the time of writing set.
pub fn stamped(s: Settings, now_secs: u64) -> (r: Settings)
    ensures
        r@ == (SettingsView { saved_at: now_secs, ..s@ }),
{
    let mut s = s;
    s.saved_at = now_secs;
    s
}

/// The mark that some editors put before a text.
pub open spec fn bom() -> char {
    '\u{FEFF}'
}

/// A configuration file's text without the mark that some editors put before it.
pub fn without_bom(raw: &str) -> (r: String)
    ensures
        r@ == (if raw@.len() > 0 && raw@[0] == bom() {
            raw@.skip(1)
        } else {
            raw@
        }),
{
    let v = text::chars_of(raw);
    let n: usize = v.len();
    if n > 0 && v[0] == '\u{FEFF}' {
        let r = text::text_of(&v, 1, n);
        assert(r@ =~= raw@.skip(1));
        r
    } else {
        raw.to_owned()
    }
}

/// Settings waiting to be written beside those written last; nothing is written twice.
pub struct SettingsCache {
    pub pending: Option<Settings>,
    pub saved: Option<Settings>,
    /// A failure was reported already.
    pub warned: bool,
}

pub open spec fn opt_view(s: Option<Settings>) -> Option<SettingsView> {
    match s {
        Some(s) => Some(s@),
        None => None,
    }
}

impl Default for SettingsCache {
    fn default() -> (c: Self)
        ensures
            c.pending is None,
            c.saved is None,
            !c.warned,
    {
        SettingsCache { pending: None, saved: None, warned: false }
    }
}

/// What is to be written, if anything: something is pending that differs from what was
/// written last.
pub open spec fn to_write(c: SettingsCache, now_secs: u64) -> Option<SettingsView> {
    match opt_view(c.pending) {
        None => None,
        Some(want) => if c.saved is Some && content(c.saved->0@) == content(want) {
            None
        } else {
            Some(SettingsView { saved_at: now_secs, ..want })
        },
    }
}

impl SettingsCache {
    /// Starts from settings that were just read, which need no writing.
    pub fn new(loaded: Settings) -> (c: Self)
        ensures
            opt_view(c.saved) == Some(loaded@),
            c.pending is None,
            !c.warned,
    {
        SettingsCache { pending: None, saved: Some(loaded), warned: false }
    }

    /// What waits to be written.
    pub fn pending_for_test(&self) -> (r: Option<Settings>)
        ensures
            opt_view(r) == opt_view(self.pending),
    {
        match &self.pending {
            Some(s) => Some(s.clone()),
            None => None,
        }
    }

    /// Notes settings to be written. The time of writing is set when they are, not here.
    pub fn mark_dirty(&mut self, s: Settings)
        ensures
            opt_view(final(self).pending) == Some(content(s@)),
            final(self).saved == old(self).saved,
            final(self).warned == old(self).warned,
    {
        let mut s = s;
        s.saved_at = 0;
        self.pending = Some(s);
    }

    /// Takes what is to be written, if anything, with the time of writing set. Nothing is
    /// pending afterwards.
    pub fn take_unsaved(&mut self, now_secs: u64) -> (r: Option<Settings>)
        ensures
            opt_view(r) == to_write(*old(self), now_secs),
            final(self).pending is None,
            final(self).saved == old(self).saved,
            final(self).warned == old(self).warned,
    {
        match self.pending.take() {
            None => None,
            Some(want) => {
                if let Some(saved) = &self.saved {
                    if saved.content_eq(&want) {
                        return None;
                    }
                }
                Some(stamped(want, now_secs))
            },
        }
    }

    /// Notes that settings were written.
    pub fn note_saved(&mut self, s: Settings)
        ensures
            opt_view(final(self).saved) == Some(s@),
            !final(self).warned,
            final(self).pending == old(self).pending,
    {
        self.saved = Some(s);
        self.warned = false;
    }

    /// Notes that the directory could not be made; true when this is to be reported, which is
    /// once until something is written again.
    pub fn note_no_dir(&mut self) -> (report: bool)
        ensures
            report == !old(self).warned,
            final(self).warned,
            final(self).pending == old(self).pending,
            final(self).saved == old(self).saved,
    {
        let report: bool = !self.warned;
        self.warned = true;
        report
    }
}

/// Settings that were written are not written again, however often they are noted and
/// whatever the time is.
pub proof fn cache_skips_same_content(c: SettingsCache, s: SettingsView, now_secs: u64)
    requires
        c.saved is Some,
        content(c.saved->0@) == content(s),
        opt_view(c.pending) == Some(content(s)),
    ensures
        to_write(c, now_secs) is None,
{
}

/// A change of content is always written.
pub proof fn cache_writes_changes(c: SettingsCache, s: SettingsView, now_secs: u64)
    requires
        c.saved is None || content(c.saved->0@) != content(s),
        opt_view(c.pending) == Some(content(s)),
    ensures
        to_write(c, now_secs) == Some(SettingsView { saved_at: now_secs, ..s }),
{
}

/// What cleaning up keeps and drops. A path to a file is kept without white space around it, one
/// that is blank becomes empty, any other is dropped. The remembered directory is kept if it is
/// one; if it is a file, and no program is remembered, it becomes the program. All else stays,
/// and a change is reported exactly when there is one.
pub proof fn cleaning_up(
    s: SettingsView,
    dir_kind: PathKind,
    scrcpy: Looked,
    server: Looked,
    adb: Looked,
)
    ensures
        ({
            let r = sanitized(s, dir_kind, scrcpy, server, adb).0;
            let dir = text::trim(s.scrcpy_dir);
            let taken = dir.len() > 0 && dir_kind == PathKind::File && text::trim(
                s.scrcpy_path,
            ).len() == 0;
            &&& r.server_path == (if server.kind == PathKind::File {
                text::trim(s.server_path)
            } else {
                Seq::empty()
            })
            &&& r.adb_path == (if adb.kind == PathKind::File {
                text::trim(s.adb_path)
            } else {
                Seq::empty()
            })
            &&& taken ==> r.scrcpy_path == dir
            &&& !taken ==> r.scrcpy_path == (if scrcpy.kind == PathKind::File {
                text::trim(s.scrcpy_path)
            } else {
                Seq::empty()
            })
            &&& dir.len() > 0 && dir_kind == PathKind::Dir ==> r.scrcpy_dir == dir
            &&& r.selected_serial == text::trim(s.selected_serial)
            &&& (r.scrcpy_args, r.remember_paths, r.saved_at) == (
                s.scrcpy_args,
                s.remember_paths,
                s.saved_at,
            )
            &&& sanitized(s, dir_kind, scrcpy, server, adb).1 <==> r != s
        }),
{
    text::trim_twice(s.scrcpy_dir);
    let (r, changed) = sanitized(s, dir_kind, scrcpy, server, adb);
    assert(text::trim(s.server_path).len() == 0 ==> text::trim(s.server_path)
        =~= Seq::<char>::empty());
    assert(text::trim(s.adb_path).len() == 0 ==> text::trim(s.adb_path) =~= Seq::<char>::empty());
    assert(text::trim(s.scrcpy_path).len() == 0 ==> text::trim(s.scrcpy_path)
        =~= Seq::<char>::empty());
    assert(text::trim(s.scrcpy_dir).len() == 0 ==> text::trim(s.scrcpy_dir)
        =~= Seq::<char>::empty());
    if !changed {
        assert(r =~= s);
    }
}

/// The hint of where to look comes from what was dropped first: with no directory left, from the
/// program, else from the server, else from adb; a directory entered as one of them is it, and a
/// lost path leaves the nearest directory that exists.
pub proof fn hints_come_in_order(
    s: SettingsView,
    dir_kind: PathKind,
    scrcpy: Looked,
    server: Looked,
    adb: Looked,
)
    requires
        dir_kind == PathKind::Missing || text::trim(s.scrcpy_dir).len() == 0,
    ensures
        ({
            let r = sanitized(s, dir_kind, scrcpy, server, adb).0.scrcpy_dir;
            let from = |path: Seq<char>, l: Looked|
                if text::trim(path).len() == 0 || l.kind == PathKind::File {
                    Seq::<char>::empty()
                } else if l.kind == PathKind::Dir {
                    text::trim(path)
                } else if l.near is Some {
                    l.near->0@
                } else {
                    Seq::empty()
                };
            let (a, b, c) = (from(s.scrcpy_path, scrcpy), from(s.server_path, server), from(
                s.adb_path,
                adb,
            ));
            r == (if a.len() > 0 {
                a
            } else if b.len() > 0 {
                b
            } else {
                c
            })
        }),
{
    let t = text::trim(s.scrcpy_dir);
    if t.len() == 0 {
        assert(t =~= Seq::<char>::empty());
    }
    let e = Seq::<char>::empty();
    assert forall|x: Seq<char>| x.len() == 0 implies x == e by {
        assert(x =~= e);
    }
}

/// Settings say the same exactly when all of them agree but the time of writing.
pub proof fn content_is_all_but_the_time(a: SettingsView, b: SettingsView)
    ensures
        content(a) == content(b) <==> {
            &&& a.remember_paths == b.remember_paths
            &&& a.scrcpy_path == b.scrcpy_path
            &&& a.scrcpy_dir == b.scrcpy_dir
            &&& a.server_path == b.server_path
            &&& a.adb_path == b.adb_path
            &&& a.scrcpy_args == b.scrcpy_args
            &&& a.selected_serial == b.selected_serial
        },
{
    if a.remember_paths == b.remember_paths && a.scrcpy_path == b.scrcpy_path && a.scrcpy_dir
        == b.scrcpy_dir && a.server_path == b.server_path && a.adb_path == b.adb_path
        && a.scrcpy_args == b.scrcpy_args && a.selected_serial == b.selected_serial {
        assert(content(a) =~= content(b));
    }
}

/// The nearest directory is the first that exists, among the first few only.
pub proof fn the_nearest_is_the_first(chain: Seq<(String, bool)>, from: int, last: int)
    requires
        0 <= from,
    ensures
        nearest(chain, from, last) is Some ==> exists|k: int|
            from <= k <= last && k < chain.len() && (#[trigger] chain[k]).1 && nearest(
                chain,
                from,
                last,
            ) == Some(chain[k].0@) && forall|q: int| from <= q < k ==> !(#[trigger] chain[q]).1,
        nearest(chain, from, last) is None ==> forall|q: int|
            from <= q <= last && q < chain.len() ==> !(#[trigger] chain[q]).1,
    decreases last + 1 - from,
{
    if from <= last && from < chain.len() {
        if chain[from].1 {
            assert(nearest(chain, from, last) == Some(chain[from].0@));
        } else {
            the_nearest_is_the_first(chain, from + 1, last);
        }
    }
}

/// Where scrcpy is looked for: the remembered directory first, then the directory of the
/// remembered program unless it is the same; nothing blank is looked into.
pub proof fn where_to_look(s: SettingsView, parent: Option<Seq<char>>, same: bool)
    ensures
        ({
            let r = dirs_to_search(s, parent, same);
            let dir = text::trim(s.scrcpy_dir);
            let by_program = parent is Some && parent->0.len() > 0 && text::trim(
                s.scrcpy_path,
            ).len() > 0;
            &&& dir.len() > 0 ==> r.len() >= 1 && r[0] == dir
            &&& by_program && !(dir.len() > 0 && same) ==> r.len() >= 1 && r.last() == parent->0
            &&& r.len() == (if dir.len() > 0 {
                1int
            } else {
                0
            }) + (if by_program && !(dir.len() > 0 && same) {
                1int
            } else {
                0
            })
        }),
{
}

} // verus!
