//! Text primitives over sequences of characters: Unicode white space,
//! trimming, and splitting a text into lines.

use vstd::prelude::*;

verus! {

/// The code points with the Unicode property `White_Space`.
pub open spec fn is_white_space(c: char) -> bool {
    let n = c as u32;
    ||| 0x0009 <= n <= 0x000D
    ||| n == 0x0020
    ||| n == 0x0085
    ||| n == 0x00A0
    ||| n == 0x1680
    ||| 0x2000 <= n <= 0x200A
    ||| n == 0x2028
    ||| n == 0x2029
    ||| n == 0x202F
    ||| n == 0x205F
    ||| n == 0x3000
}

/// Every element of `s` is white space.
pub open spec fn all_white_space(s: Seq<char>) -> bool {
    forall|i: int| 0 <= i < s.len() ==> is_white_space(#[trigger] s[i])
}

/// Whether `c` is white space.
pub fn is_white_space_char(c: char) -> (r: bool)
    ensures
        r == is_white_space(c),
{
    let n: u32 = c as u32;
    (0x0009 <= n && n <= 0x000D) || n == 0x0020 || n == 0x0085 || n == 0x00A0 || n == 0x1680 || (
    0x2000 <= n && n <= 0x200A) || n == 0x2028 || n == 0x2029 || n == 0x202F || n == 0x205F || n
        == 0x3000
}

/// `s` without its longest prefix of white space.
pub open spec fn trim_start(s: Seq<char>) -> Seq<char>
    decreases s.len(),
{
    if s.len() > 0 && is_white_space(s.first()) {
        trim_start(s.drop_first())
    } else {
        s
    }
}

/// `s` without its longest suffix of white space.
pub open spec fn trim_end(s: Seq<char>) -> Seq<char>
    decreases s.len(),
{
    if s.len() > 0 && is_white_space(s.last()) {
        trim_end(s.drop_last())
    } else {
        s
    }
}

/// `s` without the white space that surrounds it.
pub open spec fn trimmed(s: Seq<char>) -> Seq<char> {
    trim_end(trim_start(s))
}

/// `s` holds no line feed.
pub open spec fn no_line_feed(s: Seq<char>) -> bool {
    forall|i: int| 0 <= i < s.len() ==> #[trigger] s[i] != '\n'
}

/// The number of characters before the first line feed of `s`, or the length
/// of `s` when it holds no line feed.
pub open spec fn line_end(s: Seq<char>) -> nat
    decreases s.len(),
{
    if s.len() == 0 || s.first() == '\n' {
        0
    } else {
        1 + line_end(s.drop_first())
    }
}

/// A line without the carriage return that may precede its line feed.
pub open spec fn without_carriage_return(line: Seq<char>) -> Seq<char> {
    if line.len() > 0 && line.last() == '\r' {
        line.drop_last()
    } else {
        line
    }
}

/// The lines of a text. A line ends at a line feed or at a carriage return
/// directly followed by a line feed; neither belongs to the line. The last
/// line needs no terminator, and nothing follows a final terminator, so the
/// empty text has no lines.
pub open spec fn lines(s: Seq<char>) -> Seq<Seq<char>>
    decreases s.len(),
{
    if s.len() == 0 {
        Seq::empty()
    } else {
        let e = line_end(s) as int;
        if e >= s.len() {
            seq![s]
        } else {
            seq![without_carriage_return(s.take(e))] + lines(s.skip(e + 1))
        }
    }
}

/// `line_end` stays inside the text, no line feed stands before it, and one
/// stands at it unless it is the end of the text.
pub proof fn lemma_line_end_is_first_line_feed(s: Seq<char>)
    ensures
        line_end(s) <= s.len(),
        forall|i: int| 0 <= i < line_end(s) ==> s[i] != '\n',
        line_end(s) < s.len() ==> s[line_end(s) as int] == '\n',
    decreases s.len(),
{
    if s.len() == 0 || s.first() == '\n' {
    } else {
        let rest = s.drop_first();
        lemma_line_end_is_first_line_feed(rest);
        assert forall|i: int| 0 <= i < line_end(s) implies s[i] != '\n' by {
            if i > 0 {
                assert(s[i] == rest[i - 1]);
            }
        }
        if line_end(s) < s.len() {
            assert(s[line_end(s) as int] == rest[line_end(rest) as int]);
        }
    }
}

/// Only one position is the first line feed of a text.
pub proof fn lemma_line_end_unique(s: Seq<char>, e: int)
    requires
        0 <= e <= s.len(),
        forall|i: int| 0 <= i < e ==> s[i] != '\n',
        e < s.len() ==> s[e] == '\n',
    ensures
        line_end(s) == e,
    decreases e,
{
    if e > 0 {
        let rest = s.drop_first();
        assert forall|i: int| 0 <= i < e - 1 implies rest[i] != '\n' by {
            assert(rest[i] == s[i + 1]);
        }
        lemma_line_end_unique(rest, e - 1);
    }
}

/// A text that begins with a character other than white space keeps its start.
pub proof fn lemma_trim_start_range(s: Seq<char>, a: int)
    requires
        0 <= a <= s.len(),
        forall|i: int| 0 <= i < a ==> is_white_space(s[i]),
        a < s.len() ==> !is_white_space(s[a]),
    ensures
        trim_start(s) == s.skip(a),
    decreases a,
{
    if a > 0 {
        let rest = s.drop_first();
        assert forall|i: int| 0 <= i < a - 1 implies is_white_space(rest[i]) by {
            assert(rest[i] == s[i + 1]);
        }
        lemma_trim_start_range(rest, a - 1);
        assert(rest.skip(a - 1) =~= s.skip(a));
    } else {
        assert(s.skip(0) =~= s);
    }
}

/// A text that ends with a character other than white space keeps its end.
pub proof fn lemma_trim_end_range(s: Seq<char>, b: int)
    requires
        0 <= b <= s.len(),
        forall|i: int| b <= i < s.len() ==> is_white_space(s[i]),
        b > 0 ==> !is_white_space(s[b - 1]),
    ensures
        trim_end(s) == s.take(b),
    decreases s.len() - b,
{
    if b < s.len() {
        let rest = s.drop_last();
        lemma_trim_end_range(rest, b);
        assert(rest.take(b) =~= s.take(b));
    } else {
        assert(s.take(b) =~= s);
    }
}

/// White space in front of a text does not change where its content starts.
pub proof fn lemma_trim_start_skips_padding(pad: Seq<char>, s: Seq<char>)
    requires
        all_white_space(pad),
    ensures
        trim_start(pad + s) == trim_start(s),
    decreases pad.len(),
{
    if pad.len() > 0 {
        assert((pad + s).first() == pad[0]);
        assert((pad + s).drop_first() =~= pad.drop_first() + s);
        assert forall|i: int| 0 <= i < pad.drop_first().len() implies is_white_space(
            #[trigger] pad.drop_first()[i],
        ) by {
            assert(pad.drop_first()[i] == pad[i + 1]);
        }
        lemma_trim_start_skips_padding(pad.drop_first(), s);
    } else {
        assert(pad + s =~= s);
    }
}

/// White space behind a text does not change where its content ends.
pub proof fn lemma_trim_end_skips_padding(s: Seq<char>, pad: Seq<char>)
    requires
        all_white_space(pad),
    ensures
        trim_end(s + pad) == trim_end(s),
    decreases pad.len(),
{
    if pad.len() > 0 {
        assert((s + pad).last() == pad.last());
        assert((s + pad).drop_last() =~= s + pad.drop_last());
        lemma_trim_end_skips_padding(s, pad.drop_last());
    } else {
        assert(s + pad =~= s);
    }
}

/// Nothing is left of a text of white space once it is trimmed.
pub proof fn lemma_trimmed_white_space_is_empty(s: Seq<char>)
    requires
        all_white_space(s),
    ensures
        trimmed(s) == Seq::<char>::empty(),
{
    lemma_trim_start_range(s, s.len() as int);
    assert(s.skip(s.len() as int) =~= Seq::<char>::empty());
}

/// Trimming a text gives the same whether or not white space was put
/// behind it first.
pub proof fn lemma_trimmed_ignores_trailing_padding(s: Seq<char>, pad: Seq<char>)
    requires
        all_white_space(pad),
    ensures
        trimmed(s + pad) == trimmed(s),
    decreases s.len(),
{
    if s.len() == 0 {
        assert(s + pad =~= pad);
        lemma_trimmed_white_space_is_empty(pad);
    } else if is_white_space(s.first()) {
        assert((s + pad).first() == s.first());
        assert((s + pad).drop_first() =~= s.drop_first() + pad);
        lemma_trimmed_ignores_trailing_padding(s.drop_first(), pad);
    } else {
        assert((s + pad).first() == s.first());
        lemma_trim_end_skips_padding(s, pad);
    }
}

/// Trimming a text gives the same whether or not white space was put
/// around it first.
pub proof fn lemma_trimmed_ignores_padding(before: Seq<char>, s: Seq<char>, after: Seq<char>)
    requires
        all_white_space(before),
        all_white_space(after),
    ensures
        trimmed(before + s + after) == trimmed(s),
{
    assert(before + s + after =~= before + (s + after));
    lemma_trim_start_skips_padding(before, s + after);
    lemma_trimmed_ignores_trailing_padding(s, after);
}

/// What `trim_start` leaves is empty or begins with a character other than
/// white space, and ends as the text did.
pub proof fn lemma_trim_start_keeps_end(s: Seq<char>)
    ensures
        trim_start(s).len() <= s.len(),
        trim_start(s) == s.skip(s.len() - trim_start(s).len()),
        trim_start(s).len() > 0 ==> !is_white_space(trim_start(s).first()),
    decreases s.len(),
{
    if s.len() > 0 && is_white_space(s.first()) {
        let rest = s.drop_first();
        lemma_trim_start_keeps_end(rest);
        assert(rest.skip(rest.len() - trim_start(rest).len()) =~= s.skip(
            s.len() - trim_start(s).len(),
        ));
    } else {
        assert(s.skip(0) =~= s);
    }
}

/// What `trim_end` leaves is empty or ends with a character other than white
/// space, and begins as the text did.
pub proof fn lemma_trim_end_keeps_start(s: Seq<char>)
    ensures
        trim_end(s).len() <= s.len(),
        trim_end(s) == s.take(trim_end(s).len() as int),
        trim_end(s).len() > 0 ==> !is_white_space(trim_end(s).last()),
    decreases s.len(),
{
    if s.len() > 0 && is_white_space(s.last()) {
        let rest = s.drop_last();
        lemma_trim_end_keeps_start(rest);
        assert(rest.take(trim_end(rest).len() as int) =~= s.take(trim_end(s).len() as int));
    } else {
        assert(s.take(s.len() as int) =~= s);
    }
}

/// `trim_end` takes nothing more from what it has left.
pub proof fn lemma_trim_end_is_fixed(s: Seq<char>)
    ensures
        trim_end(trim_end(s)) == trim_end(s),
    decreases s.len(),
{
    if s.len() > 0 && is_white_space(s.last()) {
        lemma_trim_end_is_fixed(s.drop_last());
    }
}

/// Trimming a text that is already trimmed changes nothing.
pub proof fn lemma_trimmed_is_idempotent(s: Seq<char>)
    ensures
        trimmed(trimmed(s)) == trimmed(s),
        trimmed(s).len() > 0 ==> !is_white_space(trimmed(s).first()) && !is_white_space(
            trimmed(s).last(),
        ),
{
    lemma_trim_start_keeps_end(s);
    lemma_trim_end_keeps_start(trim_start(s));
    lemma_trim_end_is_fixed(trim_start(s));
    let t = trimmed(s);
    if t.len() > 0 {
        assert(trim_start(t) == t);
    }
}

/// A carriage return at the end of a line is white space, so it does not
/// show in the trimmed line.
pub proof fn lemma_trimmed_ignores_carriage_return(line: Seq<char>)
    ensures
        trimmed(without_carriage_return(line)) == trimmed(line),
{
    if line.len() > 0 && line.last() == '\r' {
        let pad = seq!['\r'];
        assert(line =~= line.drop_last() + pad);
        lemma_trimmed_ignores_trailing_padding(line.drop_last(), pad);
    }
}

/// A line followed by a line feed is the first line of the text, and the
/// other lines are those of what follows the line feed.
pub proof fn lemma_lines_of_terminated_line(line: Seq<char>, rest: Seq<char>)
    requires
        no_line_feed(line),
    ensures
        lines(line + seq!['\n'] + rest) == seq![without_carriage_return(line)] + lines(rest),
{
    let s = line + seq!['\n'] + rest;
    let e = line.len() as int;
    assert(s[e] == '\n');
    assert forall|i: int| 0 <= i < e implies s[i] != '\n' by {
        assert(s[i] == line[i]);
    }
    lemma_line_end_unique(s, e);
    assert(s.take(e) =~= line);
    assert(s.skip(e + 1) =~= rest);
}

/// A text that is not empty and holds no line feed is one line.
pub proof fn lemma_lines_of_last_line(line: Seq<char>)
    requires
        no_line_feed(line),
        line.len() > 0,
    ensures
        lines(line) == seq![line],
{
    lemma_line_end_unique(line, line.len() as int);
}

/// Trimming takes characters from the ends only, so a text that holds no
/// line feed holds none once trimmed.
pub proof fn lemma_trimmed_holds_no_line_feed(s: Seq<char>)
    requires
        no_line_feed(s),
    ensures
        no_line_feed(trimmed(s)),
{
    let t = trim_start(s);
    lemma_trim_start_keeps_end(s);
    lemma_trim_end_keeps_start(t);
    assert forall|i: int| 0 <= i < trimmed(s).len() implies #[trigger] trimmed(s)[i] != '\n' by {
        assert(trimmed(s)[i] == t[i]);
        assert(t[i] == s[s.len() - t.len() + i]);
    }
}

/// No line of a text holds a line feed.
pub proof fn lemma_lines_hold_no_line_feed(s: Seq<char>)
    ensures
        forall|k: int| 0 <= k < lines(s).len() ==> no_line_feed(#[trigger] lines(s)[k]),
    decreases s.len(),
{
    if s.len() > 0 {
        lemma_line_end_is_first_line_feed(s);
        let e = line_end(s) as int;
        if e < s.len() {
            let rest = s.skip(e + 1);
            lemma_lines_hold_no_line_feed(rest);
            let head = without_carriage_return(s.take(e));
            assert forall|i: int| 0 <= i < head.len() implies #[trigger] head[i] != '\n' by {
                assert(head[i] == s[i]);
            }
            assert forall|k: int| 0 <= k < lines(s).len() implies no_line_feed(
                #[trigger] lines(s)[k],
            ) by {
                if k > 0 {
                    assert(lines(s)[k] == lines(rest)[k - 1]);
                }
            }
        }
    }
}

/// The number of line feeds in a text.
pub open spec fn line_feed_count(s: Seq<char>) -> nat
    decreases s.len(),
{
    if s.len() == 0 {
        0
    } else if s.first() == '\n' {
        1 + line_feed_count(s.drop_first())
    } else {
        line_feed_count(s.drop_first())
    }
}

/// The line feeds of a text are its first one and those that follow it.
pub proof fn lemma_line_feed_count_after_first(s: Seq<char>)
    ensures
        line_end(s) >= s.len() ==> line_feed_count(s) == 0,
        line_end(s) < s.len() ==> line_feed_count(s) == 1 + line_feed_count(
            s.skip(line_end(s) as int + 1),
        ),
    decreases s.len(),
{
    if s.len() == 0 {
    } else if s.first() == '\n' {
        assert(s.drop_first() =~= s.skip(1));
    } else {
        let rest = s.drop_first();
        lemma_line_feed_count_after_first(rest);
        if line_end(s) < s.len() {
            assert(rest.skip(line_end(rest) as int + 1) =~= s.skip(line_end(s) as int + 1));
        }
    }
}

/// A text has as many lines as it has line feeds, and one more where
/// characters follow the last line feed.
pub proof fn lemma_line_count(s: Seq<char>)
    ensures
        lines(s).len() == line_feed_count(s) + (if s.len() > 0 && s.last() != '\n' {
            1nat
        } else {
            0nat
        }),
    decreases s.len(),
{
    if s.len() > 0 {
        lemma_line_end_is_first_line_feed(s);
        lemma_line_feed_count_after_first(s);
        let e = line_end(s) as int;
        if e < s.len() {
            let rest = s.skip(e + 1);
            lemma_line_count(rest);
            if rest.len() > 0 {
                assert(rest.last() == s.last());
            }
        }
    }
}

/// The characters of `s`, in order.
pub fn chars_of(s: &str) -> (cs: Vec<char>)
    ensures
        cs@ == s@,
{
    let mut cs: Vec<char> = Vec::new();
    for c in it: s.chars()
        invariant
            it.seq() == s@,
            cs@ == it.seq().take(it.index() as int),
    {
        cs.push(c);
    }
    cs
}

/// Where a line stands in a text: its characters are those from `start` up
/// to `end`, and what follows its terminator begins at `next`.
#[derive(Clone, Copy, Debug)]
pub struct LineSpan {
    pub start: usize,
    pub end: usize,
    pub next: usize,
}

/// Finds the first line of the text that begins at `from`. There is none
/// when nothing is left of the text.
pub fn first_line(cs: &Vec<char>, from: usize) -> (r: Option<LineSpan>)
    requires
        from <= cs.len(),
    ensures
        r is None <==> from == cs.len(),
        r matches Some(l) ==> {
            &&& l.start == from
            &&& l.start <= l.end <= l.next <= cs.len()
            &&& from < l.next
            &&& lines(cs@.skip(from as int)) == seq![cs@.subrange(l.start as int, l.end as int)]
                + lines(cs@.skip(l.next as int))
        },
{
    let n = cs.len();
    if from == n {
        return None;
    }
    let ghost rest = cs@.skip(from as int);
    let mut e: usize = from;
    while e < n && cs[e] != '\n'
        invariant
            from <= e <= n,
            n == cs.len(),
            forall|i: int| from <= i < e ==> cs@[i] != '\n',
        decreases n - e,
    {
        e += 1;
    }
    proof {
        assert forall|i: int| 0 <= i < e - from implies rest[i] != '\n' by {
            assert(rest[i] == cs@[from + i]);
        }
        lemma_line_end_unique(rest, e - from);
    }
    if e == n {
        proof {
            assert(rest =~= cs@.subrange(from as int, n as int));
            assert(lines(cs@.skip(n as int)) =~= Seq::<Seq<char>>::empty());
            assert(seq![rest] + Seq::<Seq<char>>::empty() =~= seq![rest]);
        }
        return Some(LineSpan { start: from, end: n, next: n });
    }
    let end: usize = if e > from && cs[e - 1] == '\r' {
        e - 1
    } else {
        e
    };
    proof {
        let raw = rest.take(e - from);
        assert(raw =~= cs@.subrange(from as int, e as int));
        assert(without_carriage_return(raw) =~= cs@.subrange(from as int, end as int));
        assert(rest.skip(e - from + 1) =~= cs@.skip(e + 1));
    }
    Some(LineSpan { start: from, end, next: e + 1 })
}

/// Finds what is left of the characters from `start` up to `end` once the
/// white space around them is taken away.
pub fn trim_span(cs: &Vec<char>, start: usize, end: usize) -> (r: (usize, usize))
    requires
        start <= end <= cs.len(),
    ensures
        start <= r.0 <= r.1 <= end,
        cs@.subrange(r.0 as int, r.1 as int) == trimmed(cs@.subrange(start as int, end as int)),
{
    let ghost whole = cs@.subrange(start as int, end as int);
    let mut a: usize = start;
    while a < end && is_white_space_char(cs[a])
        invariant
            start <= a <= end <= cs.len(),
            forall|i: int| start <= i < a ==> is_white_space(cs@[i]),
        decreases end - a,
    {
        a += 1;
    }
    let mut b: usize = end;
    while b > a && is_white_space_char(cs[b - 1])
        invariant
            a <= b <= end <= cs.len(),
            forall|i: int| b <= i < end ==> is_white_space(cs@[i]),
        decreases b,
    {
        b -= 1;
    }
    proof {
        assert forall|i: int| 0 <= i < a - start implies is_white_space(whole[i]) by {
            assert(whole[i] == cs@[start + i]);
        }
        lemma_trim_start_range(whole, a - start);
        let tail = whole.skip(a - start);
        assert(tail =~= cs@.subrange(a as int, end as int));
        assert forall|i: int| b - a <= i < tail.len() implies is_white_space(tail[i]) by {
            assert(tail[i] == cs@[a + i]);
        }
        lemma_trim_end_range(tail, b - a);
        assert(tail.take(b - a) =~= cs@.subrange(a as int, b as int));
    }
    (a, b)
}

} // verus!
