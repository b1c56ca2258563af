//! Text on character sequences: trimming, words, lines, numbers.

use vstd::prelude::*;

verus! {

/// `String::push` appends one character.
pub assume_specification[ String::push ](s: &mut String, c: char)
    ensures
        final(s)@ == old(s)@.push(c),
;

/// A character with the Unicode `White_Space` property.
pub open spec fn is_space(c: char) -> bool {
    let n = c as int;
    ||| 0x9 <= n <= 0xD
    ||| n == 0x20
    ||| n == 0x85
    ||| n == 0xA0
    ||| n == 0x1680
    ||| 0x2000 <= n <= 0x200A
    ||| n == 0x2028
    ||| n == 0x2029
    ||| n == 0x202F
    ||| n == 0x205F
    ||| n == 0x3000
}

pub fn space(c: char) -> (r: bool)
    ensures
        r == is_space(c),
{
    let n: u32 = c as u32;
    (0x9 <= n && n <= 0xD) || n == 0x20 || n == 0x85 || n == 0xA0 || n == 0x1680 || (0x2000 <= n
        && n <= 0x200A) || n == 0x2028 || n == 0x2029 || n == 0x202F || n == 0x205F || n == 0x3000
}

/// `s` without its leading white space.
pub open spec fn trim_start(s: Seq<char>) -> Seq<char>
    decreases s.len(),
{
    if s.len() > 0 && is_space(s[0]) {
        trim_start(s.skip(1))
    } else {
        s
    }
}

/// `s` without its trailing white space.
pub open spec fn trim_end(s: Seq<char>) -> Seq<char>
    decreases s.len(),
{
    if s.len() > 0 && is_space(s.last()) {
        trim_end(s.drop_last())
    } else {
        s
    }
}

/// `s` without leading and trailing white space.
pub open spec fn trim(s: Seq<char>) -> Seq<char> {
    trim_end(trim_start(s))
}

/// What trimming leaves neither begins nor ends with white space.
pub proof fn trim_is_clean(s: Seq<char>)
    ensures
        trim(s).len() > 0 ==> !is_space(trim(s)[0]) && !is_space(trim(s).last()),
{
    trim_start_clean(s);
    trim_end_clean(trim_start(s));
}

proof fn trim_start_clean(s: Seq<char>)
    ensures
        trim_start(s).len() > 0 ==> !is_space(trim_start(s)[0]),
    decreases s.len(),
{
    if s.len() > 0 && is_space(s[0]) {
        trim_start_clean(s.skip(1));
    }
}

proof fn trim_end_clean(s: Seq<char>)
    ensures
        trim_end(s).len() > 0 ==> !is_space(trim_end(s).last()) && trim_end(s)[0] == s[0],
        trim_end(s).len() <= s.len(),
    decreases s.len(),
{
    if s.len() > 0 && is_space(s.last()) {
        trim_end_clean(s.drop_last());
    }
}

/// Text that is already clean is left alone, so trimming twice changes nothing more.
pub proof fn trim_twice(s: Seq<char>)
    ensures
        trim(trim(s)) == trim(s),
{
    trim_is_clean(s);
    let t = trim(s);
    if t.len() > 0 {
        assert(trim_start(t) == t);
        assert(trim_end(t) == t);
    }
}

/// The characters of a text.
pub fn chars_of(s: &str) -> (v: Vec<char>)
    ensures
        v@ == s@,
{
    let mut v: Vec<char> = Vec::new();
    for c in it: s.chars()
        invariant
            it.seq() == s@,
            v@ == it.seq().take(it.index()),
    {
        v.push(c);
    }
    v
}

/// The text made of the characters `from..to` of `v`.
pub fn text_of(v: &Vec<char>, from: usize, to: usize) -> (s: String)
    requires
        from <= to <= v.len(),
    ensures
        s@ == v@.subrange(from as int, to as int),
{
    let mut s: String = String::new();
    for i in from..to
        invariant
            from <= to <= v.len(),
            s@ == v@.subrange(from as int, i as int),
    {
        s.push(v[i]);
    }
    s
}

/// Whether two texts are the same.
pub fn same_text(a: &str, b: &str) -> (r: bool)
    ensures
        r == (a@ == b@),
{
    a.to_owned() == b.to_owned()
}

fn trim_bounds(v: &Vec<char>) -> (r: (usize, usize))
    ensures
        r.0 <= r.1 <= v.len(),
        v@.subrange(r.0 as int, r.1 as int) == trim(v@),
{
    let n: usize = v.len();
    let mut a: usize = 0;
    assert(v@.subrange(0, n as int) =~= v@);
    while a < n && space(v[a])
        invariant
            a <= n,
            n == v.len(),
            trim_start(v@) == trim_start(v@.subrange(a as int, n as int)),
        decreases n - a,
    {
        assert(v@.subrange(a as int, n as int).skip(1) =~= v@.subrange(a + 1, n as int));
        a = a + 1;
    }
    assert(trim_start(v@) == v@.subrange(a as int, n as int));
    let mut b: usize = n;
    while b > a && space(v[b - 1])
        invariant
            a <= b <= n,
            n == v.len(),
            trim_end(v@.subrange(a as int, n as int)) == trim_end(
                v@.subrange(a as int, b as int),
            ),
        decreases b,
    {
        assert(v@.subrange(a as int, b as int).drop_last() =~= v@.subrange(a as int, b - 1));
        assert(v@.subrange(a as int, b as int).last() == v@[b - 1]);
        b = b - 1;
    }
    assert(trim_end(v@.subrange(a as int, b as int)) == v@.subrange(a as int, b as int)) by {
        if b > a {
            assert(v@.subrange(a as int, b as int).last() == v@[b - 1]);
        }
    }
    (a, b)
}

/// A copy without leading and trailing white space.
pub fn trimmed(s: &str) -> (r: String)
    ensures
        r@ == trim(s@),
{
    let v = chars_of(s);
    let (a, b) = trim_bounds(&v);
    text_of(&v, a, b)
}

/// Whether nothing but white space is there.
pub fn is_blank(s: &str) -> (r: bool)
    ensures
        r == (trim(s@).len() == 0),
{
    let v = chars_of(s);
    let (a, b) = trim_bounds(&v);
    proof {
        assert(v@.subrange(a as int, b as int).len() == b - a);
    }
    a == b
}

/// Length of the run of non-space characters at the front.
pub open spec fn word_len(s: Seq<char>) -> nat
    decreases s.len(),
{
    if s.len() > 0 && !is_space(s[0]) {
        1 + word_len(s.skip(1))
    } else {
        0
    }
}

proof fn word_len_bound(s: Seq<char>)
    ensures
        word_len(s) <= s.len(),
        s.len() > 0 && !is_space(s[0]) ==> word_len(s) > 0,
    decreases s.len(),
{
    if s.len() > 0 && !is_space(s[0]) {
        word_len_bound(s.skip(1));
    }
}

proof fn trim_start_len(s: Seq<char>)
    ensures
        trim_start(s).len() <= s.len(),
    decreases s.len(),
{
    if s.len() > 0 && is_space(s[0]) {
        trim_start_len(s.skip(1));
    }
}

/// The words of a text: its maximal runs of non-space characters, in order.
pub open spec fn words(s: Seq<char>) -> Seq<Seq<char>>
    decreases s.len(),
{
    let t = trim_start(s);
    let n = word_len(t);
    if n == 0 || n > t.len() || t.len() > s.len() {
        Seq::empty()
    } else {
        seq![t.take(n as int)] + words(t.skip(n as int))
    }
}

/// The views of a list of texts.
pub open spec fn texts(v: Seq<String>) -> Seq<Seq<char>> {
    v.map_values(|s: String| s@)
}

/// Splits a text at white space.
pub fn split_words(s: &str) -> (r: Vec<String>)
    ensures
        texts(r@) == words(s@),
{
    let v = chars_of(s);
    let n: usize = v.len();
    let mut out: Vec<String> = Vec::new();
    let mut at: usize = 0;
    assert(v@.subrange(0, n as int) =~= v@);
    assert(texts(out@) =~= Seq::<Seq<char>>::empty());
    assert(Seq::<Seq<char>>::empty() + words(v@) =~= words(v@));
    while at < n
        invariant
            at <= n,
            n == v.len(),
            v@ == s@,
            texts(out@) + words(v@.subrange(at as int, n as int)) == words(s@),
        decreases n - at,
    {
        let ghost rest = v@.subrange(at as int, n as int);
        let mut a: usize = at;
        while a < n && space(v[a])
            invariant
                at <= a <= n,
                n == v.len(),
                trim_start(v@.subrange(at as int, n as int)) == trim_start(
                    v@.subrange(a as int, n as int),
                ),
            decreases n - a,
        {
            assert(v@.subrange(a as int, n as int).skip(1) =~= v@.subrange(a + 1, n as int));
            a = a + 1;
        }
        let ghost t = v@.subrange(a as int, n as int);
        assert(trim_start(rest) == t);
        let mut b: usize = a;
        while b < n && !space(v[b])
            invariant
                a <= b <= n,
                n == v.len(),
                word_len(v@.subrange(a as int, n as int)) == (b - a) + word_len(
                    v@.subrange(b as int, n as int),
                ),
            decreases n - b,
        {
            assert(v@.subrange(b as int, n as int).skip(1) =~= v@.subrange(b + 1, n as int));
            b = b + 1;
        }
        proof {
            assert(word_len(v@.subrange(b as int, n as int)) == 0);
            word_len_bound(t);
            trim_start_len(rest);
        }
        if b > a {
            let w = text_of(&v, a, b);
            proof {
                assert(w@ =~= t.take(b - a));
                assert(t.skip(b - a) =~= v@.subrange(b as int, n as int));
                assert(words(rest) == seq![w@] + words(v@.subrange(b as int, n as int)));
                assert(texts(out@.push(w)) =~= texts(out@).push(w@));
                assert(texts(out@) + (seq![w@] + words(v@.subrange(b as int, n as int)))
                    =~= texts(out@).push(w@) + words(v@.subrange(b as int, n as int)));
            }
            out.push(w);
        } else {
            proof {
                assert(b == n);
                assert(v@.subrange(n as int, n as int) =~= Seq::<char>::empty());
                assert(words(rest) =~= Seq::<Seq<char>>::empty());
                assert(words(Seq::<char>::empty()) =~= Seq::<Seq<char>>::empty());
            }
        }
        at = b;
    }
    proof {
        assert(v@.subrange(n as int, n as int) =~= Seq::<char>::empty());
        assert(words(Seq::<char>::empty()) =~= Seq::<Seq<char>>::empty());
        assert(texts(out@) + Seq::<Seq<char>>::empty() =~= texts(out@));
    }
    out
}

/// Index of the first `c` in `s`, or the length when there is none.
pub open spec fn find_char(s: Seq<char>, c: char) -> nat
    decreases s.len(),
{
    if s.len() == 0 || s[0] == c {
        0
    } else {
        1 + find_char(s.skip(1), c)
    }
}

pub proof fn find_char_props(s: Seq<char>, c: char)
    ensures
        find_char(s, c) <= s.len(),
        find_char(s, c) < s.len() ==> s[find_char(s, c) as int] == c,
        forall|i: int| 0 <= i < find_char(s, c) ==> s[i] != c,
    decreases s.len(),
{
    if s.len() > 0 && s[0] != c {
        find_char_props(s.skip(1), c);
        assert forall|i: int| 0 <= i < find_char(s, c) implies s[i] != c by {
            if i > 0 {
                assert(s.skip(1)[i - 1] == s[i]);
            }
        }
    }
}

/// Index of the first `c` in `v` at or after `from`, or the length.
pub fn find_from(v: &Vec<char>, from: usize, c: char) -> (r: usize)
    requires
        from <= v.len(),
    ensures
        from <= r <= v.len(),
        r - from == find_char(v@.subrange(from as int, v.len() as int), c),
{
    let n: usize = v.len();
    let mut i: usize = from;
    while i < n && v[i] != c
        invariant
            from <= i <= n,
            n == v.len(),
            find_char(v@.subrange(from as int, n as int), c) == (i - from) + find_char(
                v@.subrange(i as int, n as int),
                c,
            ),
        decreases n - i,
    {
        assert(v@.subrange(i as int, n as int).skip(1) =~= v@.subrange(i + 1, n as int));
        i = i + 1;
    }
    i
}

/// A line without the carriage return that a line feed would follow.
pub open spec fn strip_cr(s: Seq<char>) -> Seq<char> {
    if s.len() > 0 && s.last() == '\r' {
        s.drop_last()
    } else {
        s
    }
}

/// The lines of a text. A line ends at a line feed, which may follow a carriage return;
/// neither belongs to the line. The last line may lack its line feed.
pub open spec fn lines(s: Seq<char>) -> Seq<Seq<char>>
    decreases s.len(),
{
    let i = find_char(s, '\n');
    if s.len() == 0 {
        Seq::empty()
    } else if i >= s.len() {
        seq![s]
    } else {
        seq![strip_cr(s.take(i as int))] + lines(s.skip(i as int + 1))
    }
}

/// Splits a text into its lines.
pub fn split_lines(s: &str) -> (r: Vec<String>)
    ensures
        texts(r@) == lines(s@),
{
    let v = chars_of(s);
    let n: usize = v.len();
    let mut out: Vec<String> = Vec::new();
    let mut at: usize = 0;
    assert(v@.subrange(0, n as int) =~= v@);
    assert(texts(out@) =~= Seq::<Seq<char>>::empty());
    assert(Seq::<Seq<char>>::empty() + lines(v@) =~= lines(v@));
    while at < n
        invariant
            at <= n,
            n == v.len(),
            v@ == s@,
            texts(out@) + lines(v@.subrange(at as int, n as int)) == lines(s@),
        decreases n - at,
    {
        let ghost rest = v@.subrange(at as int, n as int);
        let i: usize = find_from(&v, at, '\n');
        proof {
            find_char_props(rest, '\n');
        }
        if i >= n {
            let w = text_of(&v, at, n);
            proof {
                assert(lines(rest) == seq![rest]);
                assert(texts(out@.push(w)) =~= texts(out@).push(w@));
                assert(texts(out@) + seq![rest] =~= texts(out@).push(w@));
                assert(v@.subrange(n as int, n as int) =~= Seq::<char>::empty());
                assert(texts(out@).push(w@) + Seq::<Seq<char>>::empty() =~= texts(out@).push(w@));
            }
            out.push(w);
            at = n;
        } else {
            let end: usize = if i > at && v[i - 1] == '\r' {
                i - 1
            } else {
                i
            };
            let w = text_of(&v, at, end);
            proof {
                let line = rest.take(i - at);
                assert(line =~= v@.subrange(at as int, i as int));
                if i > at {
                    assert(line.last() == v@[i - 1]);
                }
                assert(w@ =~= strip_cr(line));
                assert(rest.skip(i - at + 1) =~= v@.subrange(i + 1, n as int));
                assert(lines(rest) == seq![w@] + lines(v@.subrange(i + 1, n as int)));
                assert(texts(out@.push(w)) =~= texts(out@).push(w@));
                assert(texts(out@) + (seq![w@] + lines(v@.subrange(i + 1, n as int)))
                    =~= texts(out@).push(w@) + lines(v@.subrange(i + 1, n as int)));
            }
            out.push(w);
            at = i + 1;
        }
    }
    proof {
        assert(v@.subrange(n as int, n as int) =~= Seq::<char>::empty());
        assert(texts(out@) + Seq::<Seq<char>>::empty() =~= texts(out@));
    }
    out
}

/// Whether `needle` stands in `hay` at position `at`.
pub open spec fn stands_at(hay: Seq<char>, needle: Seq<char>, at: int) -> bool {
    0 <= at && at + needle.len() <= hay.len() && hay.subrange(at, at + needle.len()) == needle
}

/// Whether `hay` holds `needle` anywhere.
pub open spec fn holds(hay: Seq<char>, needle: Seq<char>) -> bool {
    exists|at: int| stands_at(hay, needle, at)
}

/// Whether `needle` stands in `hay` at position `at`.
pub fn text_at(hay: &Vec<char>, needle: &Vec<char>, at: usize) -> (r: bool)
    requires
        at <= hay.len(),
    ensures
        r == stands_at(hay@, needle@, at as int),
{
    let n: usize = needle.len();
    if hay.len() - at < n {
        return false;
    }
    for i in 0..n
        invariant
            n == needle.len(),
            at + n <= hay.len(),
            forall|k: int| 0 <= k < i ==> hay[at + k] == needle[k],
    {
        if hay[at + i] != needle[i] {
            assert(hay@.subrange(at as int, at + n)[i as int] != needle@[i as int]);
            return false;
        }
    }
    assert(hay@.subrange(at as int, at + n) =~= needle@);
    true
}

/// Whether a text holds another one anywhere.
pub fn contains_text(hay: &str, needle: &str) -> (r: bool)
    ensures
        r == holds(hay@, needle@),
{
    let h = chars_of(hay);
    let w = chars_of(needle);
    let n: usize = h.len();
    let mut at: usize = 0;
    while at <= n
        invariant
            at <= n + 1,
            n == h.len(),
            h@ == hay@,
            w@ == needle@,
            forall|k: int| 0 <= k < at ==> !stands_at(hay@, needle@, k),
        decreases n + 1 - at,
    {
        if text_at(&h, &w, at) {
            return true;
        }
        if at == n {
            return false;
        }
        at = at + 1;
    }
    false
}

/// Whether `c` is an ASCII digit.
pub open spec fn is_digit(c: char) -> bool {
    '0' <= c && c <= '9'
}

/// The number that a run of digits writes in base ten.
pub open spec fn number(s: Seq<char>) -> nat
    decreases s.len(),
{
    if s.len() == 0 {
        0
    } else {
        number(s.drop_last()) * 10 + ((s.last() as int - '0' as int) as nat)
    }
}

/// Whether every character is a digit.
pub open spec fn all_digits(s: Seq<char>) -> bool {
    forall|i: int| 0 <= i < s.len() ==> is_digit(#[trigger] s[i])
}

/// What `s` says as a 32-bit number: digits, at least one, perhaps behind one `+`, that
/// do not exceed the range.
pub open spec fn as_u32(s: Seq<char>) -> Option<u32> {
    let d = if s.len() > 1 && s[0] == '+' {
        s.skip(1)
    } else {
        s
    };
    if d.len() > 0 && all_digits(d) && number(d) <= u32::MAX {
        Some(number(d) as u32)
    } else {
        None
    }
}

proof fn number_grows(s: Seq<char>, n: int)
    requires
        0 <= n <= s.len(),
        all_digits(s),
    ensures
        number(s.take(n)) <= number(s),
    decreases s.len(),
{
    if n < s.len() {
        assert(all_digits(s.drop_last())) by {
            assert forall|i: int| 0 <= i < s.drop_last().len() implies is_digit(
                #[trigger] s.drop_last()[i],
            ) by {
                assert(is_digit(s[i]));
            }
        }
        number_grows(s.drop_last(), n);
        assert(s.drop_last().take(n) =~= s.take(n));
        assert(is_digit(s[s.len() - 1]));
    } else {
        assert(s.take(n) =~= s);
    }
}

/// Reads the characters `from..to` as a 32-bit number.
pub fn parse_u32_in(v: &Vec<char>, from: usize, to: usize) -> (r: Option<u32>)
    requires
        from <= to <= v.len(),
    ensures
        r == as_u32(v@.subrange(from as int, to as int)),
{
    let ghost s = v@.subrange(from as int, to as int);
    let start: usize = if to - from > 1 && v[from] == '+' {
        from + 1
    } else {
        from
    };
    let ghost d = v@.subrange(start as int, to as int);
    assert(d =~= if s.len() > 1 && s[0] == '+' {
        s.skip(1)
    } else {
        s
    });
    if start >= to {
        return None;
    }
    let mut acc: u64 = 0;
    let mut big: bool = false;
    assert(d.take(0) =~= Seq::<char>::empty());
    for i in start..to
        invariant
            from <= start <= to <= v.len(),
            d == v@.subrange(start as int, to as int),
            s == v@.subrange(from as int, to as int),
            d == (if s.len() > 1 && s[0] == '+' {
                s.skip(1)
            } else {
                s
            }),
            forall|k: int| 0 <= k < i - start ==> is_digit(#[trigger] d[k]),
            !big ==> acc <= u32::MAX && acc == number(d.take(i - start)),
            big ==> exists|k: int| 0 <= k <= i - start && number(#[trigger] d.take(k)) > u32::MAX,
    {
        let c: char = v[i];
        assert(d[i - start] == c);
        if c < '0' || c > '9' {
            assert(!is_digit(d[i - start]));
            return None;
        }
        if !big {
            let digit: u64 = (c as u32 - '0' as u32) as u64;
            proof {
                assert(d.take(i - start + 1).drop_last() =~= d.take(i - start));
                assert(d.take(i - start + 1).last() == c);
            }
            acc = acc * 10 + digit;
            if acc > u32::MAX as u64 {
                proof {
                    assert(number(d.take(i - start + 1)) > u32::MAX);
                }
                big = true;
            }
        }
    }
    proof {
        assert(d.take(to - start) =~= d);
        assert(all_digits(d));
        if big {
            let k = choose|k: int|
                0 <= k <= to - start && number(#[trigger] d.take(k)) > u32::MAX;
            number_grows(d, k);
        }
    }
    if big {
        None
    } else {
        Some(acc as u32)
    }
}

/// The digit character for `0..=9`.
pub open spec fn digit_char(d: nat) -> char {
    ('0' as int + d) as char
}

fn digit(d: u64) -> (c: char)
    requires
        d < 10,
    ensures
        c == digit_char(d as nat),
        is_digit(c),
        c as int - '0' as int == d,
{
    (48u8 + d as u8) as char
}

/// The decimal form of a number.
pub open spec fn dec(n: nat) -> Seq<char>
    decreases n,
{
    if n < 10 {
        seq![digit_char(n)]
    } else {
        dec(n / 10).push(digit_char(n % 10))
    }
}

/// Appends the decimal form of `n`.
pub fn push_dec(s: &mut String, n: u64)
    ensures
        final(s)@ == old(s)@ + dec(n as nat),
    decreases n,
{
    if n < 10 {
        s.push(digit(n));
    } else {
        push_dec(s, n / 10);
        s.push(digit(n % 10));
    }
}

/// Reading back what was written gives the number again.
pub proof fn dec_reads_back(n: nat)
    ensures
        dec(n).len() > 0,
        all_digits(dec(n)),
        number(dec(n)) == n,
        n <= u32::MAX ==> as_u32(dec(n)) == Some(n as u32),
    decreases n,
{
    if n < 10 {
        assert(dec(n).drop_last() =~= Seq::<char>::empty());
        assert(number(Seq::<char>::empty()) == 0);
    } else {
        dec_reads_back(n / 10);
        assert(dec(n).drop_last() =~= dec(n / 10));
        assert forall|i: int| 0 <= i < dec(n).len() implies is_digit(#[trigger] dec(n)[i]) by {
            if i < dec(n).len() - 1 {
                assert(is_digit(dec(n / 10)[i]));
            }
        }
    }
    assert(is_digit(dec(n)[0]));
}

/// `s` followed by the decimal form of `n`, with leading zeros up to `width` characters.
pub open spec fn dec_padded(n: nat, width: nat) -> Seq<char> {
    let d = dec(n);
    if d.len() < width {
        Seq::new((width - d.len()) as nat, |i: int| '0') + d
    } else {
        d
    }
}

/// Appends the decimal form of `n`, filled up with zeros to `width` characters.
pub fn push_dec_padded(s: &mut String, n: u64, width: usize)
    ensures
        final(s)@ == old(s)@ + dec_padded(n as nat, width as nat),
{
    let mut d: String = String::new();
    push_dec(&mut d, n);
    assert(d@ =~= dec(n as nat));
    let have: usize = d.as_str().unicode_len();
    let ghost before = s@;
    if have < width {
        for i in have..width
            invariant
                have <= width,
                s@ == before + Seq::new((i - have) as nat, |k: int| '0'),
        {
            s.push('0');
        }
    }
    s.append(d.as_str());
    assert(s@ =~= before + dec_padded(n as nat, width as nat));
}

/// The lower-case hexadecimal digit for `0..=15`.
pub open spec fn hex_char(d: nat) -> char {
    if d < 10 {
        ('0' as int + d) as char
    } else {
        ('a' as int + d - 10) as char
    }
}

/// The lowest `n` hexadecimal digits of a number.
pub open spec fn hex(v: nat, n: nat) -> Seq<char>
    decreases n,
{
    if n == 0 {
        Seq::empty()
    } else {
        hex(v / 16, (n - 1) as nat).push(hex_char(v % 16))
    }
}

fn push_hex(s: &mut String, v: u32, n: usize)
    ensures
        final(s)@ == old(s)@ + hex(v as nat, n as nat),
    decreases n,
{
    if n == 0 {
        assert(s@ + Seq::<char>::empty() =~= s@);
        return ;
    }
    push_hex(s, v / 16, n - 1);
    let d: u8 = (v % 16) as u8;
    let c: char = if d < 10 {
        (48u8 + d) as char
    } else {
        (87u8 + d) as char
    };
    s.push(c);
}

/// Appends a number as eight hexadecimal digits.
pub fn push_hex8(s: &mut String, v: u32)
    ensures
        final(s)@ == old(s)@ + hex(v as nat, 8),
{
    push_hex(s, v, 8);
}

/// An ASCII capital made small; any other character as it is.
pub open spec fn lower(c: char) -> char {
    if 'A' <= c && c <= 'Z' {
        (c as int + 32) as char
    } else {
        c
    }
}

/// Whether a text begins with another, ASCII capitals and small letters being alike in the
/// first one.
pub open spec fn starts_with_lower(s: Seq<char>, t: Seq<char>) -> bool {
    t.len() <= s.len() && forall|i: int| 0 <= i < t.len() ==> lower(#[trigger] s[i]) == t[i]
}

fn lowered(c: char) -> (r: char)
    ensures
        r == lower(c),
{
    if 'A' <= c && c <= 'Z' {
        ((c as u8) + 32) as char
    } else {
        c
    }
}

/// Tests [`starts_with_lower`].
pub fn begins_with_lower(s: &str, t: &str) -> (r: bool)
    ensures
        r == starts_with_lower(s@, t@),
{
    let a = chars_of(s);
    let b = chars_of(t);
    let n: usize = b.len();
    if a.len() < n {
        return false;
    }
    for i in 0..n
        invariant
            n == b.len(),
            n <= a.len(),
            a@ == s@,
            b@ == t@,
            forall|k: int| 0 <= k < i ==> lower(#[trigger] s@[k]) == t@[k],
    {
        if lowered(a[i]) != b[i] {
            assert(lower(s@[i as int]) != t@[i as int]);
            return false;
        }
    }
    true
}

/// The texts joined into one, with `sep` between neighbours.
pub open spec fn joined(v: Seq<Seq<char>>, sep: Seq<char>) -> Seq<char>
    decreases v.len(),
{
    if v.len() == 0 {
        Seq::empty()
    } else if v.len() == 1 {
        v[0]
    } else {
        joined(v.drop_last(), sep) + sep + v.last()
    }
}

/// Joins texts with `sep` between neighbours.
pub fn join(v: &Vec<String>, sep: &str) -> (r: String)
    ensures
        r@ == joined(texts(v@), sep@),
{
    let mut r: String = String::new();
    let n: usize = v.len();
    let ghost t = texts(v@);
    assert(t.take(0) =~= Seq::<Seq<char>>::empty());
    for i in 0..n
        invariant
            n == v.len(),
            t == texts(v@),
            r@ == joined(t.take(i as int), sep@),
    {
        assert(t.take(i + 1).drop_last() =~= t.take(i as int));
        assert(t.take(i + 1).last() == v@[i as int]@);
        if i > 0 {
            r.append(sep);
        }
        r.append(v[i].as_str());
        assert(i == 0 ==> r@ =~= v@[0]@);
    }
    assert(t.take(n as int) =~= t);
    r
}

/// A run of characters none of which is white space.
pub open spec fn is_word(w: Seq<char>) -> bool {
    w.len() > 0 && forall|i: int| 0 <= i < w.len() ==> !is_space(#[trigger] w[i])
}

proof fn word_len_covers(s: Seq<char>, i: int)
    requires
        0 <= i < word_len(s),
    ensures
        word_len(s) <= s.len(),
        !is_space(s[i]),
    decreases s.len(),
{
    word_len_bound(s);
    if i > 0 {
        word_len_covers(s.skip(1), i - 1);
        assert(s.skip(1)[i - 1] == s[i]);
    }
}

/// The words of a text are words.
pub proof fn words_are_words(s: Seq<char>)
    ensures
        forall|i: int| 0 <= i < words(s).len() ==> is_word(#[trigger] words(s)[i]),
    decreases s.len(),
{
    let t = trim_start(s);
    let n = word_len(t);
    if !(n == 0 || n > t.len() || t.len() > s.len()) {
        words_are_words(t.skip(n as int));
        let w = t.take(n as int);
        assert forall|i: int| 0 <= i < w.len() implies !is_space(#[trigger] w[i]) by {
            word_len_covers(t, i);
        }
        assert forall|i: int| 0 <= i < words(s).len() implies is_word(#[trigger] words(s)[i]) by {
            if i > 0 {
                assert(words(s)[i] == words(t.skip(n as int))[i - 1]);
            }
        }
    }
}

proof fn word_len_of(w: Seq<char>, rest: Seq<char>)
    requires
        is_word(w) || w.len() == 0,
        rest.len() > 0 ==> is_space(rest[0]),
    ensures
        word_len(w + rest) == w.len(),
    decreases w.len(),
{
    if w.len() > 0 {
        assert((w + rest)[0] == w[0]);
        assert((w + rest).skip(1) =~= w.skip(1) + rest);
        assert forall|i: int| 0 <= i < w.skip(1).len() implies !is_space(
            #[trigger] w.skip(1)[i],
        ) by {
            assert(w.skip(1)[i] == w[i + 1]);
        }
        word_len_of(w.skip(1), rest);
    } else {
        assert(w + rest =~= rest);
    }
}

proof fn words_of_first(w: Seq<char>, rest: Seq<char>)
    requires
        is_word(w),
        rest.len() > 0 ==> is_space(rest[0]),
    ensures
        words(w + rest) == seq![w] + words(rest),
{
    let s = w + rest;
    assert(s[0] == w[0]);
    assert(trim_start(s) == s);
    word_len_of(w, rest);
    assert(s.take(w.len() as int) =~= w);
    assert(s.skip(w.len() as int) =~= rest);
}

proof fn words_after_space(c: char, rest: Seq<char>)
    requires
        is_space(c),
    ensures
        words(seq![c] + rest) == words(rest),
{
    let s = seq![c] + rest;
    assert(s[0] == c);
    assert(s.skip(1) =~= rest);
    assert(trim_start(s) == trim_start(rest));
    trim_start_len(rest);
}

proof fn joined_front(v: Seq<Seq<char>>, sep: Seq<char>)
    requires
        v.len() >= 2,
    ensures
        joined(v, sep) == v[0] + sep + joined(v.skip(1), sep),
    decreases v.len(),
{
    if v.len() == 2 {
        assert(v.drop_last()[0] == v[0]);
        assert(v.skip(1)[0] == v.last());
        assert(joined(v.drop_last(), sep) == v[0]);
        assert(joined(v.skip(1), sep) == v.last());
    } else {
        joined_front(v.drop_last(), sep);
        assert(v.drop_last().skip(1) =~= v.skip(1).drop_last());
        assert(v.skip(1).last() == v.last());
        assert(joined(v, sep) =~= v[0] + sep + joined(v.skip(1), sep));
    }
}

/// Words joined by blanks are found again.
pub proof fn words_of_joined(v: Seq<Seq<char>>)
    requires
        forall|i: int| 0 <= i < v.len() ==> is_word(#[trigger] v[i]),
    ensures
        words(joined(v, seq![' '])) == v,
    decreases v.len(),
{
    let sep = seq![' '];
    if v.len() == 0 {
        assert(words(Seq::<char>::empty()) =~= v);
    } else if v.len() == 1 {
        words_of_first(v[0], Seq::empty());
        assert(v[0] + Seq::<char>::empty() =~= v[0]);
        assert(words(Seq::<char>::empty()) =~= Seq::<Seq<char>>::empty());
        assert(seq![v[0]] + Seq::<Seq<char>>::empty() =~= v);
    } else {
        joined_front(v, sep);
        let rest = sep + joined(v.skip(1), sep);
        assert forall|i: int| 0 <= i < v.skip(1).len() implies is_word(#[trigger] v.skip(1)[i]) by {
            assert(v.skip(1)[i] == v[i + 1]);
        }
        words_of_joined(v.skip(1));
        words_after_space(' ', joined(v.skip(1), sep));
        assert(rest[0] == ' ');
        words_of_first(v[0], rest);
        assert(joined(v, sep) =~= v[0] + rest);
        assert(seq![v[0]] + v.skip(1) =~= v);
    }
}

/// The texts of a list other than `w`, in order.
pub open spec fn others(v: Seq<Seq<char>>, w: Seq<char>) -> Seq<Seq<char>>
    decreases v.len(),
{
    if v.len() == 0 {
        v
    } else if v.last() == w {
        others(v.drop_last(), w)
    } else {
        others(v.drop_last(), w).push(v.last())
    }
}

/// What is left of a list without a text holds the others, and only them.
pub proof fn others_hold(v: Seq<Seq<char>>, w: Seq<char>)
    ensures
        !others(v, w).contains(w),
        forall|x: Seq<char>| x != w ==> (#[trigger] others(v, w).contains(x) <==> v.contains(x)),
        !v.contains(w) ==> others(v, w) == v,
    decreases v.len(),
{
    if v.len() > 0 {
        let d = v.drop_last();
        others_hold(d, w);
        let o = others(d, w);
        assert forall|x: Seq<char>| v.contains(x) <==> (d.contains(x) || x == v.last()) by {
            if v.contains(x) {
                let i = choose|i: int| 0 <= i < v.len() && v[i] == x;
                if i < d.len() {
                    assert(d[i] == x);
                }
            }
            if d.contains(x) {
                let i = choose|i: int| 0 <= i < d.len() && d[i] == x;
                assert(v[i] == x);
            }
            if x == v.last() {
                assert(v[v.len() - 1] == x);
            }
        }
        assert forall|x: Seq<char>|
            #![trigger o.push(v.last()).contains(x)]
            o.push(v.last()).contains(x) <==> (o.contains(x) || x == v.last()) by {
            let p = o.push(v.last());
            if p.contains(x) {
                let i = choose|i: int| 0 <= i < p.len() && p[i] == x;
                if i < o.len() {
                    assert(o[i] == x);
                }
            }
            if o.contains(x) {
                let i = choose|i: int| 0 <= i < o.len() && o[i] == x;
                assert(p[i] == x);
            }
            if x == v.last() {
                assert(p[p.len() - 1] == x);
            }
        }
        if !v.contains(w) {
            assert(v.last() != w);
            assert(!d.contains(w));
            assert(d.push(v.last()) =~= v);
        }
    }
}

/// Keeps the texts other than `w`.
pub fn drop_text(v: &Vec<String>, w: &str) -> (r: Vec<String>)
    ensures
        texts(r@) == others(texts(v@), w@),
{
    let n: usize = v.len();
    let mut r: Vec<String> = Vec::new();
    let ghost t = texts(v@);
    assert(t.take(0) =~= Seq::<Seq<char>>::empty());
    assert(texts(r@) =~= Seq::<Seq<char>>::empty());
    for i in 0..n
        invariant
            n == v.len(),
            t == texts(v@),
            texts(r@) == others(t.take(i as int), w@),
    {
        assert(t.take(i + 1).drop_last() =~= t.take(i as int));
        assert(t.take(i + 1).last() == v@[i as int]@);
        if !same_text(v[i].as_str(), w) {
            let x = v[i].clone();
            assert(texts(r@.push(x)) =~= texts(r@).push(x@));
            r.push(x);
        }
    }
    assert(t.take(n as int) =~= t);
    r
}

/// Whether a list holds a text.
pub fn has_text(v: &Vec<String>, w: &str) -> (r: bool)
    ensures
        r == texts(v@).contains(w@),
{
    let n: usize = v.len();
    for i in 0..n
        invariant
            n == v.len(),
            forall|k: int| 0 <= k < i ==> texts(v@)[k] != w@,
    {
        if same_text(v[i].as_str(), w) {
            assert(texts(v@)[i as int] == w@);
            return true;
        }
    }
    false
}

/// A text with every occurrence of `pat` left out, found from the left.
pub open spec fn without(s: Seq<char>, pat: Seq<char>) -> Seq<char>
    decreases s.len(),
{
    if s.len() == 0 || pat.len() == 0 {
        s
    } else if stands_at(s, pat, 0) {
        without(s.skip(pat.len() as int), pat)
    } else {
        seq![s[0]] + without(s.skip(1), pat)
    }
}

/// Leaves out every occurrence of `pat`.
pub fn remove_text(s: &str, pat: &str) -> (r: String)
    requires
        pat@.len() > 0,
    ensures
        r@ == without(s@, pat@),
{
    let v = chars_of(s);
    let p = chars_of(pat);
    let n: usize = v.len();
    let m: usize = p.len();
    let mut r = String::new();
    let mut at: usize = 0;
    assert(v@.skip(0) =~= v@);
    while at < n
        invariant
            at <= n,
            n == v.len(),
            m == p.len(),
            m > 0,
            r@ + without(v@.skip(at as int), p@) == without(v@, p@),
        decreases n - at,
    {
        let ghost rest = v@.skip(at as int);
        if text_at(&v, &p, at) {
            proof {
                assert(v@.subrange(at as int, at + m) =~= rest.subrange(0, m as int));
                assert(rest.skip(m as int) =~= v@.skip(at + m));
            }
            at = at + m;
        } else {
            proof {
                if stands_at(rest, p@, 0) {
                    assert(v@.subrange(at as int, at + m) =~= rest.subrange(0, m as int));
                }
                assert(rest[0] == v@[at as int]);
                assert(rest.skip(1) =~= v@.skip(at + 1));
                assert(r@ + (seq![rest[0]] + without(rest.skip(1), p@)) =~= r@.push(rest[0])
                    + without(rest.skip(1), p@));
            }
            r.push(v[at]);
            at = at + 1;
        }
    }
    assert(v@.skip(n as int) =~= Seq::<char>::empty());
    assert(r@ + Seq::<char>::empty() =~= r@);
    r
}

/// A text written `n` times.
pub open spec fn times(s: Seq<char>, n: nat) -> Seq<char>
    decreases n,
{
    if n == 0 {
        Seq::empty()
    } else {
        times(s, (n - 1) as nat) + s
    }
}

/// A text written `n` times.
pub fn repeated(s: &str, n: usize) -> (r: String)
    ensures
        r@ == times(s@, n as nat),
{
    let mut r = String::new();
    for i in 0..n
        invariant
            r@ == times(s@, i as nat),
    {
        r.append(s);
    }
    r
}

/// Whether a text begins with another one.
pub fn begins_with(s: &str, t: &str) -> (r: bool)
    ensures
        r == stands_at(s@, t@, 0),
{
    let v = chars_of(s);
    let w = chars_of(t);
    text_at(&v, &w, 0)
}

/// Trimming cuts white space off both ends and nothing else.
pub proof fn trim_cuts_only_space(s: Seq<char>) -> (r: (int, int))
    ensures
        0 <= r.0 <= r.1 <= s.len(),
        trim(s) == s.subrange(r.0, r.1),
        forall|i: int| 0 <= i < r.0 ==> is_space(#[trigger] s[i]),
        forall|i: int| r.1 <= i < s.len() ==> is_space(#[trigger] s[i]),
{
    let a = start_cut(s);
    let t = trim_start(s);
    let b = end_cut(t);
    assert(trim(s) =~= s.subrange(a, a + b));
    assert forall|i: int| a + b <= i < s.len() implies is_space(#[trigger] s[i]) by {
        assert(t[i - a] == s[i]);
    }
    (a, a + b)
}

proof fn start_cut(s: Seq<char>) -> (a: int)
    ensures
        0 <= a <= s.len(),
        trim_start(s) == s.skip(a),
        forall|i: int| 0 <= i < a ==> is_space(#[trigger] s[i]),
    decreases s.len(),
{
    if s.len() > 0 && is_space(s[0]) {
        let b = start_cut(s.skip(1));
        assert(s.skip(1).skip(b) =~= s.skip(b + 1));
        assert forall|i: int| 0 <= i < b + 1 implies is_space(#[trigger] s[i]) by {
            if i > 0 {
                assert(s.skip(1)[i - 1] == s[i]);
            }
        }
        b + 1
    } else {
        assert(s.skip(0) =~= s);
        0
    }
}

proof fn end_cut(s: Seq<char>) -> (b: int)
    ensures
        0 <= b <= s.len(),
        trim_end(s) == s.take(b),
        forall|i: int| b <= i < s.len() ==> is_space(#[trigger] s[i]),
    decreases s.len(),
{
    if s.len() > 0 && is_space(s.last()) {
        let b = end_cut(s.drop_last());
        assert(s.drop_last().take(b) =~= s.take(b));
        assert forall|i: int| b <= i < s.len() implies is_space(#[trigger] s[i]) by {
            if i < s.len() - 1 {
                assert(s.drop_last()[i] == s[i]);
            }
        }
        b
    } else {
        assert(s.take(s.len() as int) =~= s);
        s.len() as int
    }
}

/// A text that begins and ends with something is not trimmed.
pub proof fn trim_leaves_clean(s: Seq<char>)
    requires
        s.len() > 0,
        !is_space(s[0]),
        !is_space(s.last()),
    ensures
        trim(s) == s,
{
}

/// A line feed ends a line, with or without a carriage return before it, and the next line
/// begins behind it; a text without one is a line, unless it is empty.
pub proof fn lines_end_at_line_feeds(a: Seq<char>, rest: Seq<char>)
    requires
        !a.contains('\n'),
    ensures
        lines(a + seq!['\n'] + rest) == seq![a] + lines(rest) || a.len() > 0 && a.last() == '\r',
        lines(a + seq!['\r', '\n'] + rest) == seq![a] + lines(rest),
        a.len() > 0 ==> lines(a) == seq![a],
        lines(Seq::<char>::empty()).len() == 0,
{
    find_char_props(a, '\n');
    if find_char(a, '\n') < a.len() {
        assert(a.contains('\n'));
    }
    first_line(a, rest);
    let b = a.push('\r');
    assert(!b.contains('\n')) by {
        if b.contains('\n') {
            let i = b.index_of('\n');
            assert(i < a.len() && a[i] == '\n');
        }
    }
    first_line(b, rest);
    assert(a + seq!['\r', '\n'] + rest =~= b + seq!['\n'] + rest);
    assert(b.drop_last() =~= a);
}

proof fn first_line(a: Seq<char>, rest: Seq<char>)
    requires
        !a.contains('\n'),
    ensures
        lines(a + seq!['\n'] + rest) == seq![strip_cr(a)] + lines(rest),
{
    let s = a + seq!['\n'] + rest;
    find_char_props(s, '\n');
    let i = find_char(s, '\n') as int;
    if i < a.len() {
        assert(a[i] == '\n');
        assert(a.contains('\n'));
    }
    if i > a.len() {
        assert(s[a.len() as int] == '\n');
    }
    assert(s.take(i) =~= a);
    assert(s.skip(i + 1) =~= rest);
}

/// Texts with white space between them have the words of the one and then of the other.
pub proof fn words_of_two(a: Seq<char>, c: char, b: Seq<char>)
    requires
        is_space(c),
    ensures
        words(a + seq![c] + b) == words(a) + words(b),
    decreases a.len(),
{
    let s = a + seq![c] + b;
    if a.len() == 0 {
        assert(s =~= seq![c] + b);
        words_after_space(c, b);
        assert(words(a) =~= Seq::<Seq<char>>::empty());
        assert(words(a) + words(b) =~= words(b));
    } else if is_space(a[0]) {
        words_of_two(a.skip(1), c, b);
        assert(a =~= seq![a[0]] + a.skip(1));
        words_after_space(a[0], a.skip(1));
        assert(s =~= seq![a[0]] + (a.skip(1) + seq![c] + b));
        words_after_space(a[0], a.skip(1) + seq![c] + b);
    } else {
        word_len_bound(a);
        let n = word_len(a) as int;
        let w = a.take(n);
        let r = a.skip(n);
        assert(is_word(w)) by {
            assert forall|i: int| 0 <= i < w.len() implies !is_space(#[trigger] w[i]) by {
                word_len_covers(a, i);
            }
        }
        word_len_ends(a);
        assert(a =~= w + r);
        words_of_first(w, r);
        words_of_two(r, c, b);
        assert(s =~= w + (r + seq![c] + b));
        if r.len() > 0 {
            assert((r + seq![c] + b)[0] == r[0]);
        }
        words_of_first(w, r + seq![c] + b);
        assert(seq![w] + words(r) + words(b) =~= seq![w] + (words(r) + words(b)));
    }
}

proof fn word_len_ends(s: Seq<char>)
    ensures
        word_len(s) < s.len() ==> is_space(s[word_len(s) as int]),
    decreases s.len(),
{
    if s.len() > 0 && !is_space(s[0]) {
        word_len_ends(s.skip(1));
    }
}

/// White space at the ends adds no words.
pub proof fn words_of_trimmed(s: Seq<char>)
    ensures
        words(trim(s)) == words(s),
    decreases s.len(),
{
    if s.len() > 0 && is_space(s[0]) {
        words_of_trimmed(s.skip(1));
        assert(s =~= seq![s[0]] + s.skip(1));
        words_after_space(s[0], s.skip(1));
        assert(trim(s) == trim(s.skip(1)));
    } else {
        assert(trim_start(s) == s);
        words_of_end_trimmed(s);
    }
}

proof fn words_of_end_trimmed(s: Seq<char>)
    ensures
        words(trim_end(s)) == words(s),
    decreases s.len(),
{
    if s.len() > 0 && is_space(s.last()) {
        words_of_end_trimmed(s.drop_last());
        assert(s =~= s.drop_last() + seq![s.last()] + Seq::<char>::empty());
        words_of_two(s.drop_last(), s.last(), Seq::empty());
        assert(words(Seq::<char>::empty()) =~= Seq::<Seq<char>>::empty());
        assert(words(s.drop_last()) + Seq::<Seq<char>>::empty() =~= words(s.drop_last()));
    }
}

/// Leaving a text out of a list leaves the order of the others: what is left of two lists is what
/// is left of the one and then of the other.
pub proof fn others_in_order(a: Seq<Seq<char>>, b: Seq<Seq<char>>, w: Seq<char>)
    ensures
        others(a + b, w) == others(a, w) + others(b, w),
    decreases b.len(),
{
    if b.len() == 0 {
        assert(a + b =~= a);
        assert(others(a, w) + others(b, w) =~= others(a, w));
    } else {
        others_in_order(a, b.drop_last(), w);
        assert((a + b).drop_last() =~= a + b.drop_last());
        assert((a + b).last() == b.last());
        let (x, y) = (others(a, w), others(b.drop_last(), w));
        assert(x + y.push(b.last()) =~= (x + y).push(b.last()));
    }
}

/// A text in which another does not occur stays as it is when that is left out, and one that
/// begins with it goes on behind it.
pub proof fn what_leaving_out_leaves(s: Seq<char>, pat: Seq<char>)
    requires
        pat.len() > 0,
    ensures
        !holds(s, pat) ==> without(s, pat) == s,
        without(pat + s, pat) == without(s, pat),
    decreases s.len(),
{
    let both = pat + s;
    assert(both.subrange(0, pat.len() as int) =~= pat);
    assert(both.skip(pat.len() as int) =~= s);
    if !holds(s, pat) && s.len() > 0 {
        assert(!stands_at(s, pat, 0));
        let t = s.skip(1);
        if holds(t, pat) {
            let at = choose|at: int| stands_at(t, pat, at);
            assert(s.subrange(at + 1, at + 1 + pat.len()) =~= t.subrange(at, at + pat.len()));
            assert(stands_at(s, pat, at + 1));
        }
        what_leaving_out_leaves(t, pat);
        assert(seq![s[0]] + t =~= s);
    }
}

/// A number filled up with zeros is the same number, and as wide as asked for at least.
pub proof fn padding_keeps_the_number(n: nat, width: nat)
    ensures
        dec_padded(n, width).len() >= width,
        dec_padded(n, width).len() >= dec(n).len(),
        number(dec_padded(n, width)) == n,
{
    dec_reads_back(n);
    if dec(n).len() < width {
        zeros_in_front((width - dec(n).len()) as nat, dec(n));
    }
}

proof fn zeros_in_front(k: nat, s: Seq<char>)
    ensures
        number(Seq::new(k, |i: int| '0') + s) == number(s),
    decreases k + s.len(),
{
    let z = Seq::new(k, |i: int| '0');
    let t = z + s;
    if s.len() > 0 {
        zeros_in_front(k, s.drop_last());
        assert(t.drop_last() =~= z + s.drop_last());
        assert(t.last() == s.last());
    } else if k > 0 {
        let less = (k - 1) as nat;
        zeros_in_front(less, s);
        assert(t.drop_last() =~= Seq::new(less, |i: int| '0') + s);
        assert(t.last() == '0');
    } else {
        assert(t =~= s);
    }
}

/// What a run of lower-case hexadecimal digits says.
pub open spec fn hex_number(s: Seq<char>) -> int
    decreases s.len(),
{
    if s.len() == 0 {
        0
    } else {
        let c = s.last() as int;
        16 * hex_number(s.drop_last()) + (if c >= 'a' as int {
            c - 'a' as int + 10
        } else {
            c - '0' as int
        })
    }
}

/// Eight hexadecimal digits say the number that was written.
pub proof fn hex_reads_back(v: u32)
    ensures
        hex(v as nat, 8).len() == 8,
        hex_number(hex(v as nat, 8)) == v,
{
    hex_digits(v as nat, 8);
    assert(vstd::arithmetic::power::pow(16, 8) == 0x1_0000_0000) by {
        reveal_with_fuel(vstd::arithmetic::power::pow, 9);
    }
    assert(v as int % 0x1_0000_0000 == v);
}

proof fn hex_digits(v: nat, n: nat)
    ensures
        hex(v, n).len() == n,
        vstd::arithmetic::power::pow(16, n) > 0,
        hex_number(hex(v, n)) == v as int % vstd::arithmetic::power::pow(16, n),
    decreases n,
{
    vstd::arithmetic::power::lemma_pow_positive(16, n);
    if n == 0 {
        reveal(vstd::arithmetic::power::pow);
        assert(v as int % 1 == 0);
    } else {
        let m = (n - 1) as nat;
        hex_digits(v / 16, m);
        let s = hex(v, n);
        assert(s.drop_last() =~= hex(v / 16, m));
        assert(s.last() == hex_char(v % 16));
        reveal(vstd::arithmetic::power::pow);
        let p = vstd::arithmetic::power::pow(16, m);
        assert(vstd::arithmetic::power::pow(16, n) == 16 * p);
        vstd::arithmetic::div_mod::lemma_breakdown(v as int, 16, p);
    }
}

} // verus!
