//! The manual: its sections and its layout, from Markdown.

use vstd::prelude::*;
use vstd::string::*;
use pulldown_cmark::{Event, Parser, Tag};
use crate::text;

verus! {

/// An event of the Markdown parser. Tags go by the name that the parser gives their end.
pub enum MdEvent {
    Start(String),
    End(String),
    /// A link starts; with its address.
    Link(String),
    /// A list starts; with its first number if it is a numbered one.
    List(Option<u64>),
    Text(String),
    Code(String),
    SoftBreak,
    HardBreak,
    Rule,
    Other,
}

/// An event as mathematical values.
#[verifier::ext_equal]
pub enum MdView {
    Start(Seq<char>),
    End(Seq<char>),
    Link(Seq<char>),
    List(Option<u64>),
    Text(Seq<char>),
    Code(Seq<char>),
    SoftBreak,
    HardBreak,
    Rule,
    Other,
}

impl View for MdEvent {
    type V = MdView;

    open spec fn view(&self) -> MdView {
        match *self {
            MdEvent::Start(s) => MdView::Start(s@),
            MdEvent::End(s) => MdView::End(s@),
            MdEvent::Link(s) => MdView::Link(s@),
            MdEvent::List(n) => MdView::List(n),
            MdEvent::Text(s) => MdView::Text(s@),
            MdEvent::Code(s) => MdView::Code(s@),
            MdEvent::SoftBreak => MdView::SoftBreak,
            MdEvent::HardBreak => MdView::HardBreak,
            MdEvent::Rule => MdView::Rule,
            MdEvent::Other => MdView::Other,
        }
    }
}

pub open spec fn event_views(v: Seq<MdEvent>) -> Seq<MdView> {
    v.map_values(|e: MdEvent| e@)
}

/// The events that `pulldown_cmark` finds in a Markdown text.
pub uninterp spec fn markdown_events(md: Seq<char>) -> Seq<MdView>;

/// `pulldown_cmark::Parser::new`: the events of a Markdown text without extensions, in order.
/// What Markdown means is the parser's business and is not spelled out here.
#[verifier::external_body]
fn md_events(md: &str) -> (r: Vec<MdEvent>)
    ensures
        event_views(r@) == markdown_events(md@),
{
    Parser::new(md).map(|e| match e {
        Event::Start(Tag::Link { dest_url, .. }) => MdEvent::Link(dest_url.to_string()),
        Event::Start(Tag::List(n)) => MdEvent::List(n),
        Event::Start(t) => MdEvent::Start(format!("{:?}", t.to_end())),
        Event::End(t) => MdEvent::End(format!("{:?}", t)),
        Event::Text(t) => MdEvent::Text(t.to_string()),
        Event::Code(t) => MdEvent::Code(t.to_string()),
        Event::SoftBreak => MdEvent::SoftBreak,
        Event::HardBreak => MdEvent::HardBreak,
        Event::Rule => MdEvent::Rule,
        _ => MdEvent::Other,
    }).collect()
}

/// The tags that matter here.
#[derive(Debug, Clone, Copy, PartialEq, Eq, Structural)]
pub enum MdTag {
    Paragraph,
    /// With its level, from 1.
    Heading(u8),
    BlockQuote,
    CodeBlock,
    List,
    Item,
    Emphasis,
    Strong,
    Link,
    Other,
}

/// The tag with a name.
pub open spec fn tag_named(name: Seq<char>) -> MdTag {
    if name == "Paragraph"@ {
        MdTag::Paragraph
    } else if name == "Heading(H1)"@ {
        MdTag::Heading(1)
    } else if name == "Heading(H2)"@ {
        MdTag::Heading(2)
    } else if name == "Heading(H3)"@ {
        MdTag::Heading(3)
    } else if name == "Heading(H4)"@ {
        MdTag::Heading(4)
    } else if name == "Heading(H5)"@ {
        MdTag::Heading(5)
    } else if name == "Heading(H6)"@ {
        MdTag::Heading(6)
    } else if text::stands_at(name, "BlockQuote("@, 0) {
        MdTag::BlockQuote
    } else if name == "CodeBlock"@ {
        MdTag::CodeBlock
    } else if text::stands_at(name, "List("@, 0) {
        MdTag::List
    } else if name == "Item"@ {
        MdTag::Item
    } else if name == "Emphasis"@ {
        MdTag::Emphasis
    } else if name == "Strong"@ {
        MdTag::Strong
    } else if name == "Link"@ {
        MdTag::Link
    } else {
        MdTag::Other
    }
}

fn tag_of(name: &str) -> (r: MdTag)
    ensures
        r == tag_named(name@),
{
    if text::same_text(name, "Paragraph") {
        MdTag::Paragraph
    } else if text::same_text(name, "Heading(H1)") {
        MdTag::Heading(1)
    } else if text::same_text(name, "Heading(H2)") {
        MdTag::Heading(2)
    } else if text::same_text(name, "Heading(H3)") {
        MdTag::Heading(3)
    } else if text::same_text(name, "Heading(H4)") {
        MdTag::Heading(4)
    } else if text::same_text(name, "Heading(H5)") {
        MdTag::Heading(5)
    } else if text::same_text(name, "Heading(H6)") {
        MdTag::Heading(6)
    } else if text::begins_with(name, "BlockQuote(") {
        MdTag::BlockQuote
    } else if text::same_text(name, "CodeBlock") {
        MdTag::CodeBlock
    } else if text::begins_with(name, "List(") {
        MdTag::List
    } else if text::same_text(name, "Item") {
        MdTag::Item
    } else if text::same_text(name, "Emphasis") {
        MdTag::Emphasis
    } else if text::same_text(name, "Strong") {
        MdTag::Strong
    } else if text::same_text(name, "Link") {
        MdTag::Link
    } else {
        MdTag::Other
    }
}

/// A section of the manual.
pub struct Section {
    /// The level of its heading, from 1.
    pub level: u8,
    pub title: String,
    /// Which heading it is, counted from 1.
    pub anchor: usize,
}

/// A section as mathematical values.
#[verifier::ext_equal]
pub struct SectionView {
    pub level: u8,
    pub title: Seq<char>,
    pub anchor: nat,
}

impl View for Section {
    type V = SectionView;

    open spec fn view(&self) -> SectionView {
        SectionView { level: self.level, title: self.title@, anchor: self.anchor as nat }
    }
}

pub open spec fn section_views(v: Seq<Section>) -> Seq<SectionView> {
    v.map_values(|s: Section| s@)
}

/// The level of the heading that an event starts, if it starts one.
pub open spec fn starts_heading(e: MdView) -> Option<u8> {
    match e {
        MdView::Start(name) => match tag_named(name) {
            MdTag::Heading(level) => Some(level),
            _ => None,
        },
        _ => None,
    }
}

/// Whether an event ends a heading.
pub open spec fn ends_heading(e: MdView) -> bool {
    match e {
        MdView::End(name) => tag_named(name) is Heading,
        _ => false,
    }
}

/// How many headings start in some events.
pub open spec fn heading_count(events: Seq<MdView>) -> nat
    decreases events.len(),
{
    if events.len() == 0 {
        0
    } else {
        let before = heading_count(events.drop_last());
        if starts_heading(events.last()) is Some {
            before + 1
        } else {
            before
        }
    }
}

/// The heading that is open after some events: its level and its title so far.
pub open spec fn open_heading(events: Seq<MdView>) -> Option<(u8, Seq<char>)>
    decreases events.len(),
{
    if events.len() == 0 {
        None
    } else {
        let before = open_heading(events.drop_last());
        let e = events.last();
        if starts_heading(e) is Some {
            Some((starts_heading(e)->0, Seq::empty()))
        } else if ends_heading(e) {
            None
        } else {
            match (before, e) {
                (Some(h), MdView::Text(t)) => Some((h.0, h.1 + t)),
                _ => before,
            }
        }
    }
}

/// The sections that some events make: one for each heading that ends.
pub open spec fn sections_of(events: Seq<MdView>) -> Seq<SectionView>
    decreases events.len(),
{
    if events.len() == 0 {
        Seq::empty()
    } else {
        let d = events.drop_last();
        let before = sections_of(d);
        if ends_heading(events.last()) && open_heading(d) is Some {
            let h = open_heading(d)->0;
            before.push(SectionView { level: h.0, title: h.1, anchor: heading_count(d) })
        } else {
            before
        }
    }
}

proof fn one_more(events: Seq<MdEvent>, i: int)
    requires
        0 <= i < events.len(),
    ensures
        event_views(events).take(i + 1).drop_last() == event_views(events).take(i),
        event_views(events).take(i + 1).last() == events[i]@,
{
    assert(event_views(events).take(i + 1).drop_last() =~= event_views(events).take(i));
}

/// Finds the sections among the events of a Markdown text.
pub fn parse_sections(events: &Vec<MdEvent>) -> (r: Vec<Section>)
    ensures
        section_views(r@) == sections_of(event_views(events@)),
{
    let ghost all = event_views(events@);
    let n: usize = events.len();
    let mut out: Vec<Section> = Vec::new();
    let mut level: u8 = 0;
    let mut title = String::new();
    let mut in_heading: bool = false;
    let mut ord: usize = 0;
    assert(all.take(0) =~= Seq::<MdView>::empty());
    assert(section_views(out@) =~= Seq::<SectionView>::empty());
    for i in 0..n
        invariant
            n == events.len(),
            all == event_views(events@),
            ord <= i,
            ord == heading_count(all.take(i as int)),
            in_heading == (open_heading(all.take(i as int)) is Some),
            in_heading ==> open_heading(all.take(i as int)) == Some((level, title@)),
            section_views(out@) == sections_of(all.take(i as int)),
    {
        proof {
            one_more(events@, i as int);
        }
        match &events[i] {
            MdEvent::Start(name) => {
                if let MdTag::Heading(l) = tag_of(name.as_str()) {
                    ord = ord + 1;
                    level = l;
                    title = String::new();
                    in_heading = true;
                }
            },
            MdEvent::Text(t) => {
                if in_heading {
                    title.append(t.as_str());
                }
            },
            MdEvent::End(name) => {
                if let MdTag::Heading(_) = tag_of(name.as_str()) {
                    if in_heading {
                        let s = Section { level, title, anchor: ord };
                        let ghost before = out@;
                        let ghost sv = s@;
                        out.push(s);
                        assert(section_views(out@) =~= section_views(before).push(sv));
                        title = String::new();
                        in_heading = false;
                    }
                }
            },
            _ => {},
        }
    }
    assert(all.take(n as int) =~= all);
    out
}

/// The headings of sections are counted in order, and none beyond the last heading.
pub proof fn anchors_ascend(events: Seq<MdView>)
    ensures
        forall|i: int|
            0 <= i < sections_of(events).len() ==> 1 <= (#[trigger] sections_of(events)[i]).anchor
                <= heading_count(events),
        open_heading(events) is Some ==> forall|i: int|
            0 <= i < sections_of(events).len() ==> (#[trigger] sections_of(events)[i]).anchor
                < heading_count(events),
        open_heading(events) is Some ==> heading_count(events) > 0,
        forall|i: int, j: int|
            0 <= i < j < sections_of(events).len() ==> (#[trigger] sections_of(events)[i]).anchor
                < (#[trigger] sections_of(events)[j]).anchor,
    decreases events.len(),
{
    if events.len() > 0 {
        let d = events.drop_last();
        anchors_ascend(d);
        let s = sections_of(events);
        let b = sections_of(d);
        assert forall|i: int| 0 <= i < s.len() implies 1 <= (#[trigger] s[i]).anchor
            <= heading_count(events) by {
            if i < b.len() {
                assert(s[i] == b[i]);
            }
        }
        if open_heading(events) is Some {
            assert forall|i: int| 0 <= i < s.len() implies (#[trigger] s[i]).anchor
                < heading_count(events) by {
                assert(s[i] == b[i]);
            }
        }
        assert forall|i: int, j: int| 0 <= i < j < s.len() implies (#[trigger] s[i]).anchor
            < (#[trigger] s[j]).anchor by {
            assert(s[i] == b[i]);
            if j < b.len() {
                assert(s[j] == b[j]);
            }
        }
    }
}

/// The text of a section in the index: indented by its level.
pub fn index_label(s: &Section) -> (r: String)
    ensures
        r@ == text::times("　"@, if s.level >= 1 {
            (s.level - 1) as nat
        } else {
            0
        }) + s.title@,
{
    let depth: usize = if s.level >= 1 {
        (s.level - 1) as usize
    } else {
        0
    };
    let mut r = text::repeated("　", depth);
    r.append(s.title.as_str());
    r
}

/// What colour a piece of text has.
#[derive(Debug, Clone, Copy, PartialEq, Eq, Structural)]
pub enum Ink {
    Code,
    Heading,
    Link,
    Quote,
    Body,
}

/// How a piece of text looks.
#[derive(Debug, Clone, Copy, PartialEq, Eq, Structural)]
pub struct TextStyle {
    /// In a fixed-width font on a ground of its own.
    pub code: bool,
    pub strong: bool,
    pub emphasis: bool,
    /// The level of the heading it stands in.
    pub heading: Option<u8>,
    pub ink: Ink,
}

/// A piece of text in one style.
pub struct Span {
    pub text: String,
    pub style: TextStyle,
}

#[verifier::ext_equal]
pub struct SpanView {
    pub text: Seq<char>,
    pub style: TextStyle,
}

impl View for Span {
    type V = SpanView;

    open spec fn view(&self) -> SpanView {
        SpanView { text: self.text@, style: self.style }
    }
}

pub open spec fn span_views(v: Seq<Span>) -> Seq<SpanView> {
    v.map_values(|s: Span| s@)
}

/// Room left below something.
#[derive(Debug, Clone, Copy, PartialEq, Eq, Structural)]
pub enum Gap {
    Block,
    Heading,
    List,
    Code,
}

/// What is laid out, from top to bottom.
pub enum Piece {
    /// A block of text; a heading has its number, counted from 1.
    Block { spans: Vec<Span>, heading: Option<usize> },
    Gap(Gap),
    /// A line across.
    Rule,
}

#[verifier::ext_equal]
pub enum PieceView {
    Block { spans: Seq<SpanView>, heading: Option<nat> },
    Gap(Gap),
    Rule,
}

impl View for Piece {
    type V = PieceView;

    open spec fn view(&self) -> PieceView {
        match *self {
            Piece::Block { spans, heading } => PieceView::Block {
                spans: span_views(spans@),
                heading: match heading {
                    Some(n) => Some(n as nat),
                    None => None,
                },
            },
            Piece::Gap(g) => PieceView::Gap(g),
            Piece::Rule => PieceView::Rule,
        }
    }
}

pub open spec fn piece_views(v: Seq<Piece>) -> Seq<PieceView> {
    v.map_values(|p: Piece| p@)
}

/// Where the layout stands between two events.
#[verifier::ext_equal]
pub struct Pen {
    /// The block being put together.
    pub job: Seq<SpanView>,
    pub strong: bool,
    pub emphasis: bool,
    pub heading: Option<u8>,
    pub link: Option<Seq<char>>,
    /// The open lists, with the next number of a numbered one.
    pub lists: Seq<Option<u64>>,
    pub quote: nat,
    pub code_block: bool,
    /// Headings so far.
    pub ord: nat,
    pub out: Seq<PieceView>,
}

pub open spec fn blank_pen() -> Pen {
    Pen {
        job: Seq::empty(),
        strong: false,
        emphasis: false,
        heading: None,
        link: None,
        lists: Seq::empty(),
        quote: 0,
        code_block: false,
        ord: 0,
        out: Seq::empty(),
    }
}

/// The style of text at this point.
pub open spec fn style_at(p: Pen, code: bool) -> TextStyle {
    TextStyle {
        code,
        strong: p.strong,
        emphasis: p.emphasis,
        heading: p.heading,
        ink: if code {
            Ink::Code
        } else if p.heading is Some {
            Ink::Heading
        } else if p.link is Some {
            Ink::Link
        } else if p.quote > 0 {
            Ink::Quote
        } else {
            Ink::Body
        },
    }
}

/// Text added to the block; empty text leaves no trace.
pub open spec fn written(p: Pen, t: Seq<char>, code: bool) -> Pen {
    if t.len() == 0 {
        p
    } else {
        Pen { job: p.job.push(SpanView { text: t, style: style_at(p, code) }), ..p }
    }
}

/// The block laid out, if there is any text in it.
pub open spec fn flushed(p: Pen, heading: Option<nat>) -> Pen {
    if p.job.len() == 0 {
        p
    } else {
        Pen {
            job: Seq::empty(),
            out: p.out.push(PieceView::Block { spans: p.job, heading }).push(
                PieceView::Gap(Gap::Block),
            ),
            ..p
        }
    }
}

/// The mark before an item: its number, or a bullet.
pub open spec fn item_prefix(lists: Seq<Option<u64>>) -> Seq<char> {
    if lists.len() > 0 && lists.last() is Some {
        text::dec(lists.last()->0 as nat) + ". "@
    } else {
        "• "@
    }
}

/// The number after `n`, starting over after the last there is.
pub open spec fn following(n: u64) -> u64 {
    if n == u64::MAX {
        0
    } else {
        (n + 1) as u64
    }
}

/// The lists after an item was numbered.
pub open spec fn counted(lists: Seq<Option<u64>>) -> Seq<Option<u64>> {
    if lists.len() > 0 && lists.last() is Some {
        lists.drop_last().push(Some(following(lists.last()->0)))
    } else {
        lists
    }
}

/// An item begins: indented by the depth of its list, with its mark.
pub open spec fn item_begun(p: Pen) -> Pen {
    let depth = if p.lists.len() > 0 {
        (p.lists.len() - 1) as nat
    } else {
        0
    };
    let indented = written(p, text::times("    "@, depth), false);
    let marked = written(indented, item_prefix(p.lists), false);
    Pen { lists: counted(p.lists), ..marked }
}

/// A tag starts.
pub open spec fn tag_started(p: Pen, tag: MdTag) -> Pen {
    match tag {
        MdTag::Heading(level) => Pen { heading: Some(level), ord: p.ord + 1, ..p },
        MdTag::Paragraph => if p.quote > 0 {
            written(p, text::times("▏ "@, p.quote), false)
        } else {
            p
        },
        MdTag::Strong => Pen { strong: true, ..p },
        MdTag::Emphasis => Pen { emphasis: true, ..p },
        MdTag::Item => item_begun(p),
        MdTag::CodeBlock => Pen { code_block: true, ..p },
        MdTag::BlockQuote => Pen { quote: p.quote + 1, ..p },
        MdTag::List | MdTag::Link | MdTag::Other => p,
    }
}

/// A tag ends.
pub open spec fn tag_ended(p: Pen, tag: MdTag) -> Pen {
    match tag {
        MdTag::Paragraph | MdTag::Item => flushed(p, None),
        MdTag::Heading(_) => {
            let f = flushed(p, Some(p.ord));
            Pen { heading: None, out: f.out.push(PieceView::Gap(Gap::Heading)), ..f }
        },
        MdTag::List => Pen {
            lists: if p.lists.len() > 0 {
                p.lists.drop_last()
            } else {
                p.lists
            },
            out: p.out.push(PieceView::Gap(Gap::List)),
            ..p
        },
        MdTag::CodeBlock => if p.code_block {
            Pen {
                code_block: false,
                out: p.out.push(PieceView::Block { spans: Seq::empty(), heading: None }).push(
                    PieceView::Gap(Gap::Code),
                ),
                ..p
            }
        } else {
            p
        },
        MdTag::Strong => Pen { strong: false, ..p },
        MdTag::Emphasis => Pen { emphasis: false, ..p },
        MdTag::Link => match p.link {
            Some(url) => Pen { link: None, ..written(p, " ("@ + url + ")"@, false) },
            None => p,
        },
        MdTag::BlockQuote => Pen {
            quote: if p.quote > 0 {
                (p.quote - 1) as nat
            } else {
                0
            },
            ..p
        },
        MdTag::Other => p,
    }
}

/// One event laid out.
pub open spec fn stepped(p: Pen, e: MdView) -> Pen {
    match e {
        MdView::Start(name) => tag_started(p, tag_named(name)),
        MdView::End(name) => tag_ended(p, tag_named(name)),
        MdView::Link(url) => Pen { link: Some(url), ..p },
        MdView::List(n) => Pen { lists: p.lists.push(n), ..p },
        MdView::Text(t) => written(p, t, false),
        MdView::Code(t) => written(p, t, true),
        MdView::SoftBreak => written(p, " "@, false),
        MdView::HardBreak => written(p, "\n"@, false),
        MdView::Rule => {
            let f = flushed(p, None);
            Pen { out: f.out.push(PieceView::Rule), ..f }
        },
        MdView::Other => p,
    }
}

/// All events laid out, from the first.
pub open spec fn drawn(events: Seq<MdView>) -> Pen
    decreases events.len(),
{
    if events.len() == 0 {
        blank_pen()
    } else {
        stepped(drawn(events.drop_last()), events.last())
    }
}

/// The layout of some events.
pub open spec fn layout_of(events: Seq<MdView>) -> Seq<PieceView> {
    flushed(drawn(events), None).out
}

/// The numbers of headings in the layout are those of the sections: both count headings as
/// they start.
pub proof fn index_and_body_agree(events: Seq<MdView>)
    ensures
        drawn(events).ord == heading_count(events),
    decreases events.len(),
{
    if events.len() > 0 {
        index_and_body_agree(events.drop_last());
    }
}

/// Lays events out.
struct Renderer {
    job: Vec<Span>,
    strong: bool,
    emphasis: bool,
    heading: Option<u8>,
    link: Option<String>,
    lists: Vec<Option<u64>>,
    quote: usize,
    code_block: bool,
    ord: usize,
    out: Vec<Piece>,
}

impl Renderer {
    spec fn pen(self) -> Pen {
        Pen {
            job: span_views(self.job@),
            strong: self.strong,
            emphasis: self.emphasis,
            heading: self.heading,
            link: match self.link {
                Some(s) => Some(s@),
                None => None,
            },
            lists: self.lists@,
            quote: self.quote as nat,
            code_block: self.code_block,
            ord: self.ord as nat,
            out: piece_views(self.out@),
        }
    }

    fn new() -> (r: Self)
        ensures
            r.pen() == blank_pen(),
    {
        let r = Renderer {
            job: Vec::new(),
            strong: false,
            emphasis: false,
            heading: None,
            link: None,
            lists: Vec::new(),
            quote: 0,
            code_block: false,
            ord: 0,
            out: Vec::new(),
        };
        assert(r.pen() =~= blank_pen());
        r
    }

    fn fmt(&self, code: bool) -> (s: TextStyle)
        ensures
            s == style_at(self.pen(), code),
    {
        let ink = if code {
            Ink::Code
        } else if self.heading.is_some() {
            Ink::Heading
        } else if self.link.is_some() {
            Ink::Link
        } else if self.quote > 0 {
            Ink::Quote
        } else {
            Ink::Body
        };
        TextStyle {
            code,
            strong: self.strong,
            emphasis: self.emphasis,
            heading: self.heading,
            ink,
        }
    }

    fn write(&mut self, t: &str, code: bool)
        ensures
            final(self).pen() == written(old(self).pen(), t@, code),
    {
        if t.is_empty() {
            return;
        }
        let style = self.fmt(code);
        let ghost before = self.job@;
        let s = Span { text: t.to_owned(), style };
        let ghost sv = s@;
        self.job.push(s);
        assert(span_views(self.job@) =~= span_views(before).push(sv));
    }

    fn push(&mut self, p: Piece)
        ensures
            final(self).pen() == (Pen {
                out: old(self).pen().out.push(p@),
                ..old(self).pen()
            }),
    {
        let ghost before = self.out@;
        let ghost pv = p@;
        self.out.push(p);
        assert(piece_views(self.out@) =~= piece_views(before).push(pv));
    }

    fn flush(&mut self, heading: Option<usize>)
        ensures
            final(self).pen() == flushed(
                old(self).pen(),
                match heading {
                    Some(n) => Some(n as nat),
                    None => None,
                },
            ),
    {
        assert(span_views(self.job@).len() == self.job@.len());
        if self.job.len() == 0 {
            return;
        }
        let ghost p0 = self.pen();
        let mut spans: Vec<Span> = Vec::new();
        std::mem::swap(&mut spans, &mut self.job);
        assert(span_views(self.job@) =~= Seq::<SpanView>::empty());
        let ghost p1 = self.pen();
        assert(p1 =~= Pen { job: Seq::empty(), ..p0 });
        self.push(Piece::Block { spans, heading });
        self.push(Piece::Gap(Gap::Block));
    }

    fn start_item(&mut self)
        ensures
            final(self).pen() == item_begun(old(self).pen()),
    {
        let ghost p0 = self.pen();
        let n: usize = self.lists.len();
        let depth: usize = if n > 0 {
            n - 1
        } else {
            0
        };
        let indent = text::repeated("    ", depth);
        let number: Option<u64> = if n > 0 {
            self.lists[n - 1]
        } else {
            None
        };
        let mut prefix = String::new();
        match number {
            Some(k) => {
                text::push_dec(&mut prefix, k);
                prefix.append(". ");
            },
            None => {
                prefix.append("• ");
            },
        }
        assert(prefix@ =~= item_prefix(p0.lists));
        self.write(indent.as_str(), false);
        self.write(prefix.as_str(), false);
        assert(self.lists@ == p0.lists);
        if let Some(k) = number {
            let next: u64 = if k == u64::MAX {
                0
            } else {
                k + 1
            };
            self.lists[n - 1] = Some(next);
            assert(self.lists@ =~= counted(p0.lists));
        }
        assert(self.pen() =~= item_begun(p0));
    }

    fn start(&mut self, tag: MdTag)
        requires
            old(self).ord < usize::MAX,
            old(self).quote < usize::MAX,
        ensures
            final(self).pen() == tag_started(old(self).pen(), tag),
            final(self).ord <= old(self).ord + 1,
            final(self).quote <= old(self).quote + 1,
    {
        match tag {
            MdTag::Heading(level) => {
                self.ord = self.ord + 1;
                self.heading = Some(level);
            },
            MdTag::Paragraph => {
                if self.quote > 0 {
                    let mark = text::repeated("▏ ", self.quote);
                    self.write(mark.as_str(), false);
                }
            },
            MdTag::Strong => {
                self.strong = true;
            },
            MdTag::Emphasis => {
                self.emphasis = true;
            },
            MdTag::Item => {
                self.start_item();
            },
            MdTag::CodeBlock => {
                self.code_block = true;
            },
            MdTag::BlockQuote => {
                self.quote = self.quote + 1;
            },
            MdTag::List | MdTag::Link | MdTag::Other => {},
        }
        assert(self.ord == self.pen().ord);
        assert(self.quote == self.pen().quote);
    }

    fn end(&mut self, tag: MdTag)
        ensures
            final(self).pen() == tag_ended(old(self).pen(), tag),
            final(self).ord == old(self).ord,
            final(self).quote <= old(self).quote,
    {
        let ghost p0 = self.pen();
        match tag {
            MdTag::Paragraph | MdTag::Item => {
                self.flush(None);
            },
            MdTag::Heading(_) => {
                let ord: usize = self.ord;
                self.flush(Some(ord));
                self.push(Piece::Gap(Gap::Heading));
                self.heading = None;
            },
            MdTag::List => {
                let _ = self.lists.pop();
                self.push(Piece::Gap(Gap::List));
            },
            MdTag::CodeBlock => {
                if self.code_block {
                    self.code_block = false;
                    let spans: Vec<Span> = Vec::new();
                    assert(span_views(spans@) =~= Seq::<SpanView>::empty());
                    self.push(Piece::Block { spans, heading: None });
                    self.push(Piece::Gap(Gap::Code));
                }
            },
            MdTag::Strong => {
                self.strong = false;
            },
            MdTag::Emphasis => {
                self.emphasis = false;
            },
            MdTag::Link => {
                let url = match &self.link {
                    Some(u) => Some(u.clone()),
                    None => None,
                };
                if let Some(u) = url {
                    let mut t = String::new();
                    t.append(" (");
                    t.append(u.as_str());
                    t.append(")");
                    assert(t@ =~= " ("@ + u@ + ")"@);
                    self.write(t.as_str(), false);
                    self.link = None;
                }
            },
            MdTag::BlockQuote => {
                if self.quote > 0 {
                    self.quote = self.quote - 1;
                }
            },
            MdTag::Other => {},
        }
        assert(self.pen() =~= tag_ended(p0, tag));
        assert(self.ord == self.pen().ord);
        assert(self.quote == self.pen().quote);
    }

    fn step(&mut self, e: &MdEvent)
        requires
            old(self).ord < usize::MAX,
            old(self).quote < usize::MAX,
        ensures
            final(self).pen() == stepped(old(self).pen(), e@),
            final(self).ord <= old(self).ord + 1,
            final(self).quote <= old(self).quote + 1,
    {
        match e {
            MdEvent::Start(name) => {
                let tag = tag_of(name.as_str());
                self.start(tag);
            },
            MdEvent::End(name) => {
                let tag = tag_of(name.as_str());
                self.end(tag);
            },
            MdEvent::Link(url) => {
                self.link = Some(url.clone());
            },
            MdEvent::List(n) => {
                self.lists.push(*n);
            },
            MdEvent::Text(t) => {
                self.write(t.as_str(), false);
            },
            MdEvent::Code(t) => {
                self.write(t.as_str(), true);
            },
            MdEvent::SoftBreak => {
                self.write(" ", false);
            },
            MdEvent::HardBreak => {
                self.write("\n", false);
            },
            MdEvent::Rule => {
                self.flush(None);
                self.push(Piece::Rule);
            },
            MdEvent::Other => {},
        }
        assert(self.ord == self.pen().ord);
        assert(self.quote == self.pen().quote);
    }
}

/// Lays out the events of a Markdown text.
pub fn render(events: &Vec<MdEvent>) -> (r: Vec<Piece>)
    ensures
        piece_views(r@) == layout_of(event_views(events@)),
{
    let ghost all = event_views(events@);
    let n: usize = events.len();
    let mut pen = Renderer::new();
    assert(all.take(0) =~= Seq::<MdView>::empty());
    for i in 0..n
        invariant
            n == events.len(),
            all == event_views(events@),
            pen.pen() == drawn(all.take(i as int)),
            pen.ord <= i,
            pen.quote <= i,
    {
        proof {
            one_more(events@, i as int);
        }
        pen.step(&events[i]);
    }
    assert(all.take(n as int) =~= all);
    pen.flush(None);
    pen.out
}

/// The manual while it is shown.
pub struct HelpWindow {
    pub sections: Vec<Section>,
    pub body: Vec<Piece>,
    /// The heading to go to, counted from 1.
    pub jump: Option<usize>,
    /// The heading at the top.
    pub current: usize,
    /// Whether the heading at the top was found in this frame.
    pub current_done: bool,
    /// Headings in the manual.
    pub headings: usize,
}

impl HelpWindow {
    /// Opens a manual written in Markdown, at its first heading.
    pub fn new(md: &str) -> (w: Self)
        ensures
            section_views(w.sections@) == sections_of(markdown_events(md@)),
            piece_views(w.body@) == layout_of(markdown_events(md@)),
            w.headings == heading_count(markdown_events(md@)),
            w.jump is None,
            w.current == 1,
            !w.current_done,
    {
        let events = md_events(md);
        HelpWindow::from_events(&events)
    }

    /// Opens a manual, given the events of its text.
    pub fn from_events(events: &Vec<MdEvent>) -> (w: Self)
        ensures
            section_views(w.sections@) == sections_of(event_views(events@)),
            piece_views(w.body@) == layout_of(event_views(events@)),
            w.headings == heading_count(event_views(events@)),
            w.jump is None,
            w.current == 1,
            !w.current_done,
    {
        let sections = parse_sections(events);
        let body = render(events);
        let headings = count_headings(events);
        HelpWindow { sections, body, jump: None, current: 1, current_done: false, headings }
    }

    /// Goes to a section when the manual is drawn next.
    pub fn go_to(&mut self, anchor: usize)
        ensures
            final(self).jump == Some(anchor),
            final(self).current == old(self).current,
            final(self).same_text(*old(self)),
    {
        self.jump = Some(anchor);
    }

    /// Two windows on the same manual.
    pub open spec fn same_text(self, other: Self) -> bool {
        self.sections == other.sections && self.body == other.body && self.headings
            == other.headings
    }

    /// Begins to draw a frame.
    pub fn begin_frame(&mut self)
        ensures
            final(self).jump == old(self).jump,
            final(self).current == old(self).current,
            !final(self).current_done,
            final(self).same_text(*old(self)),
    {
        self.current_done = false;
    }

    /// A heading was drawn; `visible` when it has not left the top. The first visible one is
    /// the current one, unless one is gone to. True when the view has to go to this one.
    pub fn heading_drawn(&mut self, ord: usize, visible: bool) -> (go: bool)
        ensures
            go == (old(self).jump == Some(ord)),
            final(self).jump == (if go {
                None
            } else {
                old(self).jump
            }),
            final(self).current_done == (old(self).current_done || visible),
            final(self).current == (if go || (visible && !old(self).current_done) {
                ord
            } else {
                old(self).current
            }),
            final(self).same_text(*old(self)),
    {
        if visible && !self.current_done {
            self.current = ord;
            self.current_done = true;
        }
        if let Some(j) = self.jump {
            if j == ord {
                self.current = ord;
                self.jump = None;
                return true;
            }
        }
        false
    }

    /// Ends a frame: a heading that does not exist is not gone to any more.
    pub fn end_frame(&mut self)
        ensures
            final(self).jump == (match old(self).jump {
                Some(a) => if a <= old(self).headings {
                    Some(a)
                } else {
                    None
                },
                None => None,
            }),
            final(self).current == old(self).current,
            final(self).current_done == old(self).current_done,
            final(self).same_text(*old(self)),
    {
        if let Some(a) = self.jump {
            if a > self.headings {
                self.jump = None;
            }
        }
    }
}

fn count_headings(events: &Vec<MdEvent>) -> (r: usize)
    ensures
        r == heading_count(event_views(events@)),
{
    let ghost all = event_views(events@);
    let n: usize = events.len();
    let mut c: usize = 0;
    assert(all.take(0) =~= Seq::<MdView>::empty());
    for i in 0..n
        invariant
            n == events.len(),
            all == event_views(events@),
            c <= i,
            c == heading_count(all.take(i as int)),
    {
        proof {
            one_more(events@, i as int);
        }
        if let MdEvent::Start(name) = &events[i] {
            if let MdTag::Heading(_) = tag_of(name.as_str()) {
                c = c + 1;
            }
        }
    }
    assert(all.take(n as int) =~= all);
    c
}

/// The text of some spans, one after the other.
pub open spec fn span_text(v: Seq<SpanView>) -> Seq<char>
    decreases v.len(),
{
    if v.len() == 0 {
        Seq::empty()
    } else {
        span_text(v.drop_last()) + v.last().text
    }
}

/// The text of what was laid out.
pub open spec fn piece_text(v: Seq<PieceView>) -> Seq<char>
    decreases v.len(),
{
    if v.len() == 0 {
        Seq::empty()
    } else {
        match v.last() {
            PieceView::Block { spans, .. } => piece_text(v.drop_last()) + span_text(spans),
            _ => piece_text(v.drop_last()),
        }
    }
}

/// All text so far, laid out or still to be.
pub open spec fn shown(p: Pen) -> Seq<char> {
    piece_text(p.out) + span_text(p.job)
}

proof fn writing_shows(p: Pen, t: Seq<char>, code: bool)
    ensures
        shown(written(p, t, code)) == shown(p) + t,
        written(p, t, code) == (Pen { job: written(p, t, code).job, ..p }),
{
    let q = written(p, t, code);
    if t.len() == 0 {
        assert(shown(p) + t =~= shown(p));
    } else {
        assert(q.job.drop_last() =~= p.job);
        assert(shown(q) =~= shown(p) + t);
    }
}

proof fn more_pieces(v: Seq<PieceView>, x: PieceView)
    ensures
        piece_text(v.push(x)) == (match x {
            PieceView::Block { spans, .. } => piece_text(v) + span_text(spans),
            _ => piece_text(v),
        }),
{
    assert(v.push(x).drop_last() =~= v);
}

proof fn flushing_shows(p: Pen, heading: Option<nat>)
    ensures
        shown(flushed(p, heading)) == shown(p),
{
    let q = flushed(p, heading);
    if p.job.len() > 0 {
        let b = PieceView::Block { spans: p.job, heading };
        more_pieces(p.out, b);
        more_pieces(p.out.push(b), PieceView::Gap(Gap::Block));
        assert(span_text(q.job) =~= Seq::<char>::empty());
        assert(shown(q) =~= shown(p));
    }
}

/// No text of the manual is lost, and none changes its place. Text and code are shown as they
/// are, a soft break as a blank, a hard one as a new line, each behind all that was shown before;
/// whatever else comes at most adds its own mark behind it.
pub proof fn text_is_shown_in_order(p: Pen, e: MdView)
    ensures
        e is Text ==> shown(stepped(p, e)) == shown(p) + e->Text_0,
        e is Code ==> shown(stepped(p, e)) == shown(p) + e->Code_0,
        e is SoftBreak ==> shown(stepped(p, e)) == shown(p) + " "@,
        e is HardBreak ==> shown(stepped(p, e)) == shown(p) + "\n"@,
        e is Rule || e is Other || e is List || e is Link ==> shown(stepped(p, e)) == shown(p),
        shown(p).is_prefix_of(shown(stepped(p, e))),
{
    let q = stepped(p, e);
    match e {
        MdView::Text(t) => {
            writing_shows(p, t, false);
        },
        MdView::Code(t) => {
            writing_shows(p, t, true);
        },
        MdView::SoftBreak => {
            writing_shows(p, " "@, false);
        },
        MdView::HardBreak => {
            writing_shows(p, "\n"@, false);
        },
        MdView::Rule => {
            flushing_shows(p, None);
            more_pieces(flushed(p, None).out, PieceView::Rule);
        },
        MdView::Start(name) => {
            writing_shows(p, text::times("▏ "@, p.quote), false);
            let depth = if p.lists.len() > 0 {
                (p.lists.len() - 1) as nat
            } else {
                0
            };
            let indent = text::times("    "@, depth);
            writing_shows(p, indent, false);
            writing_shows(written(p, indent, false), item_prefix(p.lists), false);
            assert(tag_named(name) is Item ==> shown(q) =~= shown(p) + (indent + item_prefix(
                p.lists,
            )));
        },
        MdView::End(name) => {
            flushing_shows(p, None);
            flushing_shows(p, Some(p.ord));
            more_pieces(flushed(p, Some(p.ord)).out, PieceView::Gap(Gap::Heading));
            more_pieces(p.out, PieceView::Gap(Gap::List));
            let empty = PieceView::Block { spans: Seq::empty(), heading: None };
            more_pieces(p.out, empty);
            more_pieces(p.out.push(empty), PieceView::Gap(Gap::Code));
            assert(piece_text(p.out) + Seq::<char>::empty() =~= piece_text(p.out));
            if p.link is Some {
                writing_shows(p, " ("@ + p.link->0 + ")"@, false);
            }
        },
        _ => {},
    }
}

/// Text looks as it is marked: strong or slanted between the marks for it, in the size of the
/// heading it stands in, and coloured as code, heading, link, quotation or plain text, in this
/// order. What is between two marks of one kind is in that style and nothing behind the second
/// is.
pub proof fn text_looks_as_marked(p: Pen, t: Seq<char>, code: bool)
    requires
        t.len() > 0,
    ensures
        ({
            let s = written(p, t, code).job.last().style;
            &&& s.code == code
            &&& s.strong == p.strong
            &&& s.emphasis == p.emphasis
            &&& s.heading == p.heading
            &&& s.ink == Ink::Code <==> code
            &&& s.ink == Ink::Heading <==> !code && p.heading is Some
            &&& s.ink == Ink::Link <==> !code && p.heading is None && p.link is Some
            &&& s.ink == Ink::Quote <==> !code && p.heading is None && p.link is None && p.quote > 0
        }),
        ({
            let (on, off) = (tag_started(p, MdTag::Strong), tag_ended(p, MdTag::Strong));
            on.strong && !off.strong && on.emphasis == p.emphasis && off.emphasis == p.emphasis
        }),
        ({
            let (on, off) = (tag_started(p, MdTag::Emphasis), tag_ended(p, MdTag::Emphasis));
            on.emphasis && !off.emphasis && on.strong == p.strong && off.strong == p.strong
        }),
        tag_ended(tag_started(p, MdTag::BlockQuote), MdTag::BlockQuote) == p,
        forall|level: u8|
            (#[trigger] tag_started(p, MdTag::Heading(level))).heading == Some(level) && tag_ended(
                p,
                MdTag::Heading(level),
            ).heading is None,
{
}

/// A heading makes a section: with its level, its text as the title, and the next number.
pub proof fn a_heading_makes_a_section(events: Seq<MdView>, name: Seq<char>, title: Seq<char>)
    requires
        tag_named(name) is Heading,
    ensures
        sections_of(
            events.push(MdView::Start(name)).push(MdView::Text(title)).push(MdView::End(name)),
        ) == sections_of(events).push(
            SectionView {
                level: tag_named(name)->Heading_0,
                title,
                anchor: heading_count(events) + 1,
            },
        ),
        tag_named("Heading(H1)"@) == MdTag::Heading(1),
        tag_named("Heading(H2)"@) == MdTag::Heading(2),
        tag_named("Heading(H3)"@) == MdTag::Heading(3),
        tag_named("Heading(H4)"@) == MdTag::Heading(4),
        tag_named("Heading(H5)"@) == MdTag::Heading(5),
        tag_named("Heading(H6)"@) == MdTag::Heading(6),
{
    reveal_strlit("Paragraph");
    reveal_strlit("Heading(H1)");
    reveal_strlit("Heading(H2)");
    reveal_strlit("Heading(H3)");
    reveal_strlit("Heading(H4)");
    reveal_strlit("Heading(H5)");
    reveal_strlit("Heading(H6)");
    assert("Paragraph"@.len() == 9);
    assert("Heading(H1)"@.len() == 11 && "Heading(H1)"@[9] == '1');
    assert("Heading(H2)"@.len() == 11 && "Heading(H2)"@[9] == '2');
    assert("Heading(H3)"@.len() == 11 && "Heading(H3)"@[9] == '3');
    assert("Heading(H4)"@.len() == 11 && "Heading(H4)"@[9] == '4');
    assert("Heading(H5)"@.len() == 11 && "Heading(H5)"@[9] == '5');
    assert("Heading(H6)"@.len() == 11 && "Heading(H6)"@[9] == '6');
    let a = events.push(MdView::Start(name));
    let b = a.push(MdView::Text(title));
    let c = b.push(MdView::End(name));
    assert(a.drop_last() =~= events);
    assert(b.drop_last() =~= a);
    assert(c.drop_last() =~= b);
    let level = tag_named(name)->Heading_0;
    assert(open_heading(a) == Some((level, Seq::<char>::empty())));
    assert(heading_count(a) == heading_count(events) + 1);
    assert(sections_of(a) == sections_of(events));
    assert(Seq::<char>::empty() + title =~= title);
    assert(open_heading(b) == Some((level, title)));
    assert(heading_count(b) == heading_count(a));
    assert(sections_of(b) == sections_of(a));
}

/// Items are numbered one after the other, from the number that their list starts with; in a list
/// without numbers, and outside of any, they have a bullet.
pub proof fn items_are_numbered(lists: Seq<Option<u64>>, n: u64)
    requires
        n < u64::MAX,
    ensures
        item_prefix(lists.push(Some(n))) == text::dec(n as nat) + ". "@,
        counted(lists.push(Some(n))) == lists.push(Some((n + 1) as u64)),
        item_prefix(lists.push(None)) == "• "@,
        counted(lists.push(None)) == lists.push(None),
        item_prefix(Seq::empty()) == "• "@,
{
    assert(lists.push(Some(n)).drop_last() =~= lists);
}

} // verus!
