//! Two-line element sets: the three-line text that names a satellite and
//! gives its orbital elements.

use crate::text::{
    all_white_space, chars_of, first_line, is_white_space, lemma_line_count,
    lemma_lines_hold_no_line_feed, lemma_lines_of_last_line, lemma_lines_of_terminated_line,
    lemma_trimmed_holds_no_line_feed, lemma_trimmed_ignores_carriage_return,
    lemma_trimmed_ignores_padding, lemma_trimmed_is_idempotent, line_feed_count, lines,
    no_line_feed, trim_span, trimmed, without_carriage_return,
};
use vstd::prelude::*;
use vstd::std_specs::convert::TryFromSpecImpl;

verus! {

/// The number of characters in each of the two element lines.
pub const TLE_LINE_LENGTH: usize = 69;

/// Why a text is not a two-line element set.
#[derive(Clone, Copy, Debug, PartialEq, Eq, Structural)]
pub enum TleParseError {
    /// The text has fewer than three lines.
    InsufficientLines,
    /// The first element line is not 69 characters long.
    InvalidTle1Length,
    /// The second element line is not 69 characters long.
    InvalidTle2Length,
}

/// The orbital elements of one satellite. An element set is valid when
/// both element lines are 69 characters long. Each element line ends in a
/// checksum digit; validity does not ask that it be right, and
/// `checksums_hold` tests it for those who want it tested.
#[derive(Debug)]
pub struct TleData {
    /// Satellite name or catalog identifier.
    pub tle0: String,
    /// The first element line.
    pub tle1: String,
    /// The second element line.
    pub tle2: String,
}

/// The three lines of a two-line element set, as sequences of characters.
pub struct TleLines {
    pub tle0: Seq<char>,
    pub tle1: Seq<char>,
    pub tle2: Seq<char>,
}

impl TleLines {
    /// Both element lines have the length the format fixes.
    pub open spec fn valid(self) -> bool {
        self.tle1.len() == TLE_LINE_LENGTH && self.tle2.len() == TLE_LINE_LENGTH
    }

    /// The first length rule that the lines break, if any: the first
    /// element line is looked at before the second.
    pub open spec fn length_error(self) -> Option<TleParseError> {
        if self.tle1.len() != TLE_LINE_LENGTH {
            Some(TleParseError::InvalidTle1Length)
        } else if self.tle2.len() != TLE_LINE_LENGTH {
            Some(TleParseError::InvalidTle2Length)
        } else {
            None
        }
    }
}

impl View for TleData {
    type V = TleLines;

    open spec fn view(&self) -> TleLines {
        TleLines { tle0: self.tle0@, tle1: self.tle1@, tle2: self.tle2@ }
    }
}

/// What reading a text as a two-line element set gives: the first three
/// lines, each without the white space around it, provided there are three
/// and both element lines have the length the format fixes. The line count
/// is checked first, then the first element line, then the second.
pub open spec fn parse_tle(text: Seq<char>) -> Result<TleLines, TleParseError> {
    let ls = lines(text);
    if ls.len() < 3 {
        Err(TleParseError::InsufficientLines)
    } else {
        let read = TleLines { tle0: trimmed(ls[0]), tle1: trimmed(ls[1]), tle2: trimmed(ls[2]) };
        match read.length_error() {
            Some(e) => Err(e),
            None => Ok(read),
        }
    }
}

/// The outcome of a conversion, with the element set taken by its view.
pub open spec fn outcome_view(r: Result<TleData, TleParseError>) -> Result<
    TleLines,
    TleParseError,
> {
    match r {
        Ok(t) => Ok(t@),
        Err(e) => Err(e),
    }
}

/// Three lines joined by line feeds into one text.
pub open spec fn three_lines(l0: Seq<char>, l1: Seq<char>, l2: Seq<char>) -> Seq<char> {
    l0 + seq!['\n'] + l1 + seq!['\n'] + l2
}

/// What a character counts for in a checksum: a digit counts its value, a
/// minus sign counts one, and every other character counts nothing.
pub open spec fn checksum_weight(c: char) -> nat {
    if '0' <= c <= '9' {
        (c as u32 - '0' as u32) as nat
    } else if c == '-' {
        1nat
    } else {
        0nat
    }
}

/// The sum of what the characters of `s` count for.
pub open spec fn weight_sum(s: Seq<char>) -> nat
    decreases s.len(),
{
    if s.len() == 0 {
        0
    } else {
        weight_sum(s.drop_last()) + checksum_weight(s.last())
    }
}

/// The last character of the line is a digit, and it is the last digit of
/// the sum of what the characters before it count for.
pub open spec fn checksum_holds(line: Seq<char>) -> bool {
    &&& line.len() > 0
    &&& '0' <= line.last() <= '9'
    &&& checksum_weight(line.last()) == weight_sum(line.drop_last()) % 10
}

/// What a character counts for in a checksum.
pub fn checksum_weight_of(c: char) -> (weight: u32)
    ensures
        weight == checksum_weight(c),
        weight <= 9,
{
    let code: u32 = c as u32;
    if 48 <= code && code <= 57 {
        code - 48
    } else if code == 45 {
        1
    } else {
        0
    }
}

/// Whether the line ends in the checksum digit that its other characters
/// call for.
pub fn line_checksum_holds(line: &str) -> (r: bool)
    ensures
        r == checksum_holds(line@),
{
    let cs = chars_of(line);
    let n = cs.len();
    if n == 0 {
        return false;
    }
    let mut sum: u32 = 0;
    let mut i: usize = 0;
    while i < n - 1
        invariant
            n == cs.len(),
            0 <= i <= n - 1,
            sum < 10,
            sum == weight_sum(cs@.take(i as int)) % 10,
        decreases n - i,
    {
        let weight = checksum_weight_of(cs[i]);
        proof {
            let next = cs@.take(i + 1);
            assert(next.drop_last() =~= cs@.take(i as int));
            assert(next.last() == cs@[i as int]);
        }
        sum = (sum + weight) % 10;
        i += 1;
    }
    let last = cs[n - 1];
    proof {
        assert(cs@.take(n - 1) =~= line@.drop_last());
        assert(last == line@.last());
    }
    '0' <= last && last <= '9' && checksum_weight_of(last) == sum
}

impl TleData {
    /// Checks the lengths of the two element lines, the first before the
    /// second. The checksum digit that ends each line is not looked at.
    pub fn validate(&self) -> (r: Result<(), TleParseError>)
        ensures
            r is Ok <==> self@.valid(),
            r matches Err(e) ==> self@.length_error() == Some(e),
    {
        if self.tle1.as_str().unicode_len() != TLE_LINE_LENGTH {
            Err(TleParseError::InvalidTle1Length)
        } else if self.tle2.as_str().unicode_len() != TLE_LINE_LENGTH {
            Err(TleParseError::InvalidTle2Length)
        } else {
            Ok(())
        }
    }

    /// Whether both element lines end in the right checksum digit.
    pub fn checksums_hold(&self) -> (r: bool)
        ensures
            r == (checksum_holds(self@.tle1) && checksum_holds(self@.tle2)),
    {
        line_checksum_holds(self.tle1.as_str()) && line_checksum_holds(self.tle2.as_str())
    }
}

impl TryFrom<String> for TleData {
    type Error = TleParseError;

    /// Reads a text of three lines as a two-line element set. Lines after
    /// the third are not looked at, and neither are the checksum digits.
    fn try_from(value: String) -> (r: Result<TleData, TleParseError>)
        ensures
            outcome_view(r) == parse_tle(value@),
            r matches Ok(t) ==> t@.valid(),
    {
        let text = value.as_str();
        let cs = chars_of(text);
        assert(cs@.skip(0) =~= value@);
        let l0 = match first_line(&cs, 0) {
            Some(l) => l,
            None => {
                return Err(TleParseError::InsufficientLines);
            },
        };
        let l1 = match first_line(&cs, l0.next) {
            Some(l) => l,
            None => {
                return Err(TleParseError::InsufficientLines);
            },
        };
        let l2 = match first_line(&cs, l1.next) {
            Some(l) => l,
            None => {
                return Err(TleParseError::InsufficientLines);
            },
        };
        let (a0, b0) = trim_span(&cs, l0.start, l0.end);
        let (a1, b1) = trim_span(&cs, l1.start, l1.end);
        let (a2, b2) = trim_span(&cs, l2.start, l2.end);
        if b1 - a1 != TLE_LINE_LENGTH {
            return Err(TleParseError::InvalidTle1Length);
        }
        if b2 - a2 != TLE_LINE_LENGTH {
            return Err(TleParseError::InvalidTle2Length);
        }
        let tle0 = text.substring_char(a0, b0).to_owned();
        let tle1 = text.substring_char(a1, b1).to_owned();
        let tle2 = text.substring_char(a2, b2).to_owned();
        Ok(TleData { tle0, tle1, tle2 })
    }
}

/// Two strings with the same characters need not be the same string to the
/// verifier, so the conversion states its result over views, in the
/// `ensures` of `try_from`, and leaves the trait's own statement unclaimed.
impl TryFromSpecImpl<String> for TleData {
    open spec fn obeys_try_from_spec() -> bool {
        false
    }

    open spec fn try_from_spec(v: String) -> Result<Self, TleParseError> {
        match parse_tle(v@) {
            Ok(read) => Ok(choose|t: TleData| t@ == read),
            Err(e) => Err(e),
        }
    }
}

/// A text with fewer than three lines is refused for that reason, whatever
/// its lines hold.
pub proof fn lemma_too_few_lines_are_refused(text: Seq<char>)
    requires
        lines(text).len() < 3,
    ensures
        parse_tle(text) == Err::<TleLines, TleParseError>(TleParseError::InsufficientLines),
{
}

/// A text with fewer than two line feeds has fewer than three lines, and is
/// refused for that reason.
pub proof fn lemma_two_line_feeds_are_needed(text: Seq<char>)
    requires
        line_feed_count(text) < 2,
    ensures
        lines(text).len() < 3,
        parse_tle(text) == Err::<TleLines, TleParseError>(TleParseError::InsufficientLines),
{
    lemma_line_count(text);
}

/// In a text of at least three lines, an element line of the wrong length is
/// reported, the first before the second, and nothing else is.
pub proof fn lemma_wrong_length_is_reported(text: Seq<char>)
    requires
        lines(text).len() >= 3,
    ensures
        trimmed(lines(text)[1]).len() != TLE_LINE_LENGTH ==> parse_tle(text) == Err::<
            TleLines,
            TleParseError,
        >(TleParseError::InvalidTle1Length),
        trimmed(lines(text)[1]).len() == TLE_LINE_LENGTH && trimmed(lines(text)[2]).len()
            != TLE_LINE_LENGTH ==> parse_tle(text) == Err::<TleLines, TleParseError>(
            TleParseError::InvalidTle2Length,
        ),
        trimmed(lines(text)[1]).len() == TLE_LINE_LENGTH && trimmed(lines(text)[2]).len()
            == TLE_LINE_LENGTH ==> parse_tle(text) is Ok,
{
}

/// Three lines joined by line feeds are read back as those three lines,
/// each without the white space around it, and judged by their lengths.
pub proof fn lemma_parse_three_lines(l0: Seq<char>, l1: Seq<char>, l2: Seq<char>)
    requires
        no_line_feed(l0),
        no_line_feed(l1),
        no_line_feed(l2),
        l2.len() > 0,
    ensures
        lines(three_lines(l0, l1, l2)).len() == 3,
        parse_tle(three_lines(l0, l1, l2)) == (match (TleLines {
            tle0: trimmed(l0),
            tle1: trimmed(l1),
            tle2: trimmed(l2),
        }).length_error() {
            Some(e) => Err::<TleLines, TleParseError>(e),
            None => Ok(TleLines { tle0: trimmed(l0), tle1: trimmed(l1), tle2: trimmed(l2) }),
        }),
{
    let text = three_lines(l0, l1, l2);
    let tail = l1 + seq!['\n'] + l2;
    assert(text =~= l0 + seq!['\n'] + tail);
    lemma_lines_of_terminated_line(l0, tail);
    lemma_lines_of_terminated_line(l1, l2);
    lemma_lines_of_last_line(l2);
    lemma_trimmed_ignores_carriage_return(l0);
    lemma_trimmed_ignores_carriage_return(l1);
    let ls = lines(text);
    assert(ls[0] == without_carriage_return(l0));
    assert(ls[1] == without_carriage_return(l1));
    assert(ls[2] == l2);
}

/// White space put around any of three lines changes nothing in how they
/// are read: the same lines come out, or the same error.
pub proof fn lemma_padding_is_ignored(
    l0: Seq<char>,
    l1: Seq<char>,
    l2: Seq<char>,
    before: Seq<Seq<char>>,
    after: Seq<Seq<char>>,
)
    requires
        no_line_feed(l0),
        no_line_feed(l1),
        no_line_feed(l2),
        l2.len() > 0,
        before.len() == 3,
        after.len() == 3,
        forall|k: int|
            0 <= k < 3 ==> all_white_space(#[trigger] before[k]) && no_line_feed(before[k]),
        forall|k: int|
            0 <= k < 3 ==> all_white_space(#[trigger] after[k]) && no_line_feed(after[k]),
    ensures
        parse_tle(
            three_lines(
                before[0] + l0 + after[0],
                before[1] + l1 + after[1],
                before[2] + l2 + after[2],
            ),
        ) == parse_tle(three_lines(l0, l1, l2)),
{
    let name = before[0] + l0 + after[0];
    let first = before[1] + l1 + after[1];
    let second = before[2] + l2 + after[2];
    assert(all_white_space(before[0]) && all_white_space(before[1]) && all_white_space(before[2]));
    assert(all_white_space(after[0]) && all_white_space(after[1]) && all_white_space(after[2]));
    assert(no_line_feed(before[0]) && no_line_feed(before[1]) && no_line_feed(before[2]));
    assert(no_line_feed(after[0]) && no_line_feed(after[1]) && no_line_feed(after[2]));
    assert(no_line_feed(name));
    assert(no_line_feed(first));
    assert(no_line_feed(second));
    lemma_trimmed_ignores_padding(before[0], l0, after[0]);
    lemma_trimmed_ignores_padding(before[1], l1, after[1]);
    lemma_trimmed_ignores_padding(before[2], l2, after[2]);
    lemma_parse_three_lines(name, first, second);
    lemma_parse_three_lines(l0, l1, l2);
}

/// Three lines that carry no white space at either end, the two element
/// lines of the fixed length, are read back exactly as they were written.
pub proof fn lemma_valid_lines_are_preserved(l0: Seq<char>, l1: Seq<char>, l2: Seq<char>)
    requires
        no_line_feed(l0),
        no_line_feed(l1),
        no_line_feed(l2),
        l0.len() > 0 ==> !is_white_space(l0.first()) && !is_white_space(l0.last()),
        l1.len() == TLE_LINE_LENGTH,
        l2.len() == TLE_LINE_LENGTH,
        !is_white_space(l1.first()) && !is_white_space(l1.last()),
        !is_white_space(l2.first()) && !is_white_space(l2.last()),
    ensures
        parse_tle(three_lines(l0, l1, l2)) == Ok::<TleLines, TleParseError>(
            TleLines { tle0: l0, tle1: l1, tle2: l2 },
        ),
{
    lemma_parse_three_lines(l0, l1, l2);
    assert(trimmed(l0) == l0);
    assert(trimmed(l1) == l1);
    assert(trimmed(l2) == l2);
}

/// What was read from a text is read again, unchanged, from its three lines
/// joined by line feeds.
pub proof fn lemma_read_lines_are_read_back(text: Seq<char>)
    requires
        parse_tle(text) is Ok,
    ensures
        ({
            let read = parse_tle(text)->Ok_0;
            parse_tle(three_lines(read.tle0, read.tle1, read.tle2)) == parse_tle(text)
        }),
{
    let ls = lines(text);
    let read = parse_tle(text)->Ok_0;
    lemma_lines_hold_no_line_feed(text);
    assert(no_line_feed(ls[0]) && no_line_feed(ls[1]) && no_line_feed(ls[2]));
    lemma_trimmed_holds_no_line_feed(ls[0]);
    lemma_trimmed_holds_no_line_feed(ls[1]);
    lemma_trimmed_holds_no_line_feed(ls[2]);
    lemma_trimmed_is_idempotent(ls[0]);
    lemma_trimmed_is_idempotent(ls[1]);
    lemma_trimmed_is_idempotent(ls[2]);
    lemma_valid_lines_are_preserved(read.tle0, read.tle1, read.tle2);
}

} // verus!
