use rustar_types::jobs::tle::{checksum_weight_of, line_checksum_holds};
use rustar_types::jobs::{TleData, TleParseError};
use rustar_types::text::{chars_of, first_line, is_white_space_char, trim_span};

const ISS_NAME: &str = "ISS (ZARYA)";
const ISS_LINE1: &str = "1 25544U 98067A   25235.75642456  .00011222  00000+0  20339-3 0  9993";
const ISS_LINE2: &str = "2 25544  51.6355 332.1708 0003307 260.2831  99.7785 15.50129787525648";

fn iss_text() -> String {
    format!("{}\n{}\n{}", ISS_NAME, ISS_LINE1, ISS_LINE2)
}

fn error_of(text: &str) -> TleParseError {
    match TleData::try_from(text.to_string()) {
        Ok(_) => panic!("the text was accepted"),
        Err(e) => e,
    }
}

/// The lines and their trimmed forms as the library's own scanning finds them.
fn scanned_lines(text: &str) -> Vec<(String, String)> {
    let cs = chars_of(text);
    let mut found = Vec::new();
    let mut from = 0;
    while let Some(span) = first_line(&cs, from) {
        let line: String = cs[span.start..span.end].iter().collect();
        let (a, b) = trim_span(&cs, span.start, span.end);
        let trimmed: String = cs[a..b].iter().collect();
        found.push((line, trimmed));
        from = span.next;
    }
    found
}

fn assert_scans_like_std(text: &str) {
    let expected: Vec<(String, String)> =
        text.lines().map(|l| (l.to_string(), l.trim().to_string())).collect();
    let found = scanned_lines(text);
    assert_eq!(found, expected, "text {:?}", text);
    let line_feeds = text.chars().filter(|c| *c == '\n').count();
    let open_end = !text.is_empty() && !text.ends_with('\n');
    assert_eq!(found.len(), line_feeds + usize::from(open_end), "text {:?}", text);
}

#[test]
fn parses_the_station_example() {
    let tle = TleData::try_from(iss_text()).unwrap();
    assert_eq!(tle.tle0, "ISS (ZARYA)");
    assert_eq!(tle.tle1, ISS_LINE1);
    assert_eq!(tle.tle2, ISS_LINE2);
    assert_eq!(tle.tle1.chars().count(), 69);
    assert_eq!(tle.tle2.chars().count(), 69);
    assert_eq!(tle.validate(), Ok(()));
}

#[test]
fn parses_the_indented_doc_example() {
    let text = "ISS (ZARYA)
    1 25544U 98067A   25235.75642456  .00011222  00000+0  20339-3 0  9993
    2 25544  51.6355 332.1708 0003307 260.2831  99.7785 15.50129787525648"
        .to_string();
    let tle = TleData::try_from(text).unwrap();
    assert_eq!(tle.tle0, ISS_NAME);
    assert_eq!(tle.tle1, ISS_LINE1);
    assert_eq!(tle.tle2, ISS_LINE2);
}

#[test]
fn fewer_than_three_lines_are_insufficient() {
    assert_eq!(error_of(""), TleParseError::InsufficientLines);
    assert_eq!(error_of("\n"), TleParseError::InsufficientLines);
    assert_eq!(error_of("ISS (ZARYA)"), TleParseError::InsufficientLines);
    assert_eq!(error_of(&format!("{}\n{}", ISS_NAME, ISS_LINE1)), TleParseError::InsufficientLines);
    assert_eq!(
        error_of(&format!("{}\n{}\n", ISS_NAME, ISS_LINE1)),
        TleParseError::InsufficientLines
    );
    assert_eq!(error_of(&format!("{}\n{}", ISS_LINE1, ISS_LINE2)), TleParseError::InsufficientLines);
}

#[test]
fn a_final_line_feed_adds_no_line() {
    assert_eq!(error_of("a\nb\n"), TleParseError::InsufficientLines);
    assert!(TleData::try_from(format!("{}\n", iss_text())).is_ok());
}

#[test]
fn an_empty_third_line_counts_when_terminated() {
    assert_eq!(
        error_of(&format!("{}\n{}\n\n", ISS_NAME, ISS_LINE1)),
        TleParseError::InvalidTle2Length
    );
}

#[test]
fn wrong_length_of_the_first_element_line() {
    let short = &ISS_LINE1[..68];
    assert_eq!(
        error_of(&format!("{}\n{}\n{}", ISS_NAME, short, ISS_LINE2)),
        TleParseError::InvalidTle1Length
    );
    let long = format!("{}0", ISS_LINE1);
    assert_eq!(
        error_of(&format!("{}\n{}\n{}", ISS_NAME, long, ISS_LINE2)),
        TleParseError::InvalidTle1Length
    );
    assert_eq!(
        error_of(&format!("{}\n\n{}", ISS_NAME, ISS_LINE2)),
        TleParseError::InvalidTle1Length
    );
}

#[test]
fn wrong_length_of_the_second_element_line() {
    let short = &ISS_LINE2[..68];
    assert_eq!(
        error_of(&format!("{}\n{}\n{}", ISS_NAME, ISS_LINE1, short)),
        TleParseError::InvalidTle2Length
    );
    let long = format!("{}8", ISS_LINE2);
    assert_eq!(
        error_of(&format!("{}\n{}\n{}", ISS_NAME, ISS_LINE1, long)),
        TleParseError::InvalidTle2Length
    );
}

#[test]
fn the_first_element_line_is_checked_first() {
    assert_eq!(error_of("name\nshort\nshort too"), TleParseError::InvalidTle1Length);
}

#[test]
fn padding_does_not_change_the_outcome() {
    let padded = format!(" \t{}  \n\t {} \u{a0}\n\u{3000}{}\t\t", ISS_NAME, ISS_LINE1, ISS_LINE2);
    let tle = TleData::try_from(padded).unwrap();
    assert_eq!(tle.tle0, ISS_NAME);
    assert_eq!(tle.tle1, ISS_LINE1);
    assert_eq!(tle.tle2, ISS_LINE2);

    let short = &ISS_LINE1[..68];
    assert_eq!(
        error_of(&format!("{}\n   {} \n{}", ISS_NAME, short, ISS_LINE2)),
        TleParseError::InvalidTle1Length
    );
    let inner = ISS_LINE2[1..].trim_start();
    assert_eq!(
        error_of(&format!("{}\n{}\n  {}  ", ISS_NAME, ISS_LINE1, inner)),
        TleParseError::InvalidTle2Length
    );
}

#[test]
fn carriage_returns_end_lines_too() {
    let text = format!("{}\r\n{}\r\n{}\r\n", ISS_NAME, ISS_LINE1, ISS_LINE2);
    let tle = TleData::try_from(text).unwrap();
    assert_eq!(tle.tle0, ISS_NAME);
    assert_eq!(tle.tle1, ISS_LINE1);
    assert_eq!(tle.tle2, ISS_LINE2);
    let bare = format!("{}\r{}\r{}", ISS_NAME, ISS_LINE1, ISS_LINE2);
    assert_eq!(error_of(&bare), TleParseError::InsufficientLines);
}

#[test]
fn lines_after_the_third_are_ignored() {
    let text = format!("{}\nmore\nand more", iss_text());
    let tle = TleData::try_from(text).unwrap();
    assert_eq!(tle.tle2, ISS_LINE2);
}

#[test]
fn inner_white_space_is_kept() {
    let tle = TleData::try_from(iss_text()).unwrap();
    assert!(tle.tle1.contains("   "));
    assert_eq!(tle.tle0, "ISS (ZARYA)");
}

#[test]
fn length_is_counted_in_characters() {
    let line: String = "\u{e9}".repeat(69);
    assert_eq!(line.len(), 138);
    let tle = TleData::try_from(format!("name\n{}\n{}", line, line)).unwrap();
    assert_eq!(tle.tle1, line);
    let too_short: String = "\u{e9}".repeat(68);
    assert_eq!(
        error_of(&format!("name\n{}\n{}", too_short, line)),
        TleParseError::InvalidTle1Length
    );
}

#[test]
fn validate_reports_the_first_wrong_line() {
    let good = ISS_LINE1.to_string();
    let bad = "too short".to_string();
    let both = TleData { tle0: String::new(), tle1: bad.clone(), tle2: bad.clone() };
    assert_eq!(both.validate(), Err(TleParseError::InvalidTle1Length));
    let second = TleData { tle0: String::new(), tle1: good.clone(), tle2: bad };
    assert_eq!(second.validate(), Err(TleParseError::InvalidTle2Length));
    let fine = TleData { tle0: String::new(), tle1: good.clone(), tle2: good };
    assert_eq!(fine.validate(), Ok(()));
}

#[test]
fn white_space_is_what_std_calls_white_space() {
    for n in 0..=0x10FFFFu32 {
        if let Some(c) = char::from_u32(n) {
            assert_eq!(is_white_space_char(c), c.is_whitespace(), "code point {:#x}", n);
        }
    }
}

#[test]
fn chars_of_keeps_every_character() {
    assert_eq!(chars_of(""), Vec::<char>::new());
    assert_eq!(chars_of("a\u{e9}\n\u{1F6F0}"), vec!['a', '\u{e9}', '\n', '\u{1F6F0}']);
}

#[test]
fn first_line_gives_the_span_of_a_line() {
    let cs = chars_of("ab\r\ncd");
    let first = first_line(&cs, 0).unwrap();
    assert_eq!((first.start, first.end, first.next), (0, 2, 4));
    let second = first_line(&cs, first.next).unwrap();
    assert_eq!((second.start, second.end, second.next), (4, 6, 6));
    assert!(first_line(&cs, second.next).is_none());
}

#[test]
fn trim_span_gives_the_span_of_the_content() {
    let cs = chars_of("  ab c \t");
    assert_eq!(trim_span(&cs, 0, cs.len()), (2, 6));
    assert_eq!(trim_span(&cs, 3, 5), (3, 4));
    let blank = chars_of(" \t ");
    let (a, b) = trim_span(&blank, 0, blank.len());
    assert_eq!(a, b);
}

#[test]
fn scanning_agrees_with_std_on_line_endings() {
    for text in [
        "",
        "\n",
        "\r\n",
        "\r",
        "a",
        "a\n",
        "a\r",
        "a\r\n",
        "a\r\r\n",
        "a\n\nb",
        "a\n\r\nb\r",
        "\n\n\n",
        " a \n\tb\t\r\n  \n c",
        "\u{2003}x\u{2003}\n\u{85}y\u{85}",
        "a\rb\nc",
        "\r\n\r\n",
        "x\n \n",
    ] {
        assert_scans_like_std(text);
    }
}

#[test]
fn scanning_agrees_with_std_on_generated_texts() {
    let alphabet = ['a', ' ', '\n', '\r', '\t', '\u{a0}', 'z'];
    let mut state: u64 = 0x2545F4914F6CDD1D;
    for _ in 0..2000 {
        let mut text = String::new();
        state ^= state << 13;
        state ^= state >> 7;
        state ^= state << 17;
        let len = (state % 12) as usize;
        for _ in 0..len {
            state ^= state << 13;
            state ^= state >> 7;
            state ^= state << 17;
            text.push(alphabet[(state % alphabet.len() as u64) as usize]);
        }
        assert_scans_like_std(&text);
    }
}

#[test]
fn the_station_example_has_right_checksums() {
    assert!(line_checksum_holds(ISS_LINE1));
    assert!(line_checksum_holds(ISS_LINE2));
    assert!(TleData::try_from(iss_text()).unwrap().checksums_hold());
}

#[test]
fn a_wrong_checksum_digit_is_found() {
    for digit in "012456789".chars() {
        let line = format!("{}{}", &ISS_LINE1[..68], digit);
        assert!(!line_checksum_holds(&line), "digit {}", digit);
    }
    let mut altered = ISS_LINE2.to_string();
    altered.replace_range(10..11, "7");
    assert!(!line_checksum_holds(&altered));
    let tle = TleData { tle0: String::new(), tle1: ISS_LINE1.to_string(), tle2: altered };
    assert!(!tle.checksums_hold());
}

#[test]
fn a_wrong_checksum_does_not_stop_the_reading() {
    let line1 = format!("{}0", &ISS_LINE1[..68]);
    let tle = TleData::try_from(format!("{}\n{}\n{}", ISS_NAME, line1, ISS_LINE2)).unwrap();
    assert_eq!(tle.tle1, line1);
    assert_eq!(tle.validate(), Ok(()));
    assert!(!tle.checksums_hold());
}

#[test]
fn checksum_weights() {
    for (i, digit) in "0123456789".chars().enumerate() {
        assert_eq!(checksum_weight_of(digit), i as u32);
    }
    assert_eq!(checksum_weight_of('-'), 1);
    for other in ['+', '.', ' ', 'U', 'a', '/', ':', '\u{e9}', '\u{663}'] {
        assert_eq!(checksum_weight_of(other), 0, "character {:?}", other);
    }
}

#[test]
fn checksums_of_short_lines() {
    assert!(!line_checksum_holds(""));
    assert!(line_checksum_holds("0"));
    assert!(!line_checksum_holds("1"));
    assert!(!line_checksum_holds("-"));
    assert!(line_checksum_holds("-1"));
    assert!(line_checksum_holds("9 9 -9"));
    assert!(line_checksum_holds("55555555550"));
    assert!(line_checksum_holds("A+.  x0"));
    assert!(!line_checksum_holds("12a"));
}

#[test]
fn what_was_read_is_read_back() {
    let padded = format!("\t{} \r\n {}\t\r\n  {}\r\nrest", ISS_NAME, ISS_LINE1, ISS_LINE2);
    let first = TleData::try_from(padded).unwrap();
    let joined = format!("{}\n{}\n{}", first.tle0, first.tle1, first.tle2);
    let second = TleData::try_from(joined).unwrap();
    assert_eq!(second.tle0, first.tle0);
    assert_eq!(second.tle1, first.tle1);
    assert_eq!(second.tle2, first.tle2);
    assert_eq!(second.tle0, ISS_NAME);
}

#[test]
fn an_empty_name_line_is_kept_empty() {
    let tle = TleData::try_from(format!("\n{}\n{}", ISS_LINE1, ISS_LINE2)).unwrap();
    assert_eq!(tle.tle0, "");
    let blank = TleData::try_from(format!(" \t \n{}\n{}", ISS_LINE1, ISS_LINE2)).unwrap();
    assert_eq!(blank.tle0, "");
}

#[test]
fn fewer_than_two_line_feeds_are_never_enough() {
    for text in ["no line feed at all", "one\nline feed", "\n", "a\n", "\nb"] {
        assert_eq!(error_of(text), TleParseError::InsufficientLines, "text {:?}", text);
    }
    let long_line = "x".repeat(500);
    assert_eq!(error_of(&long_line), TleParseError::InsufficientLines);
}
