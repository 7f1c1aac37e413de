use macwifi::text::{
    between, cat2, cat3, cat4, cat5, contains, decimal_text, eq_ignore_ascii_case, lines,
    pad_left, pad_right, parse_u64, repeat, signed_text, space, strip_prefix, trim, trim_end,
    words,
};
use macwifi::time::{Duration, Instant, MAX_DURATION_NANOS};

const SAMPLES: [&str; 8] = [
    "",
    " ",
    "a b",
    "\t a\u{a0}b \u{3000}\n",
    "one\r\ntwo\n\nthree",
    "last\n",
    "\u{200b}x\u{85}",
    "lone\rreturn\n\r\n",
];

#[test]
fn texts_are_taken_apart_as_the_standard_library_does() {
    for s in SAMPLES {
        assert_eq!(trim(s), s.trim());
        assert_eq!(trim_end(s), s.trim_end());
        assert_eq!(lines(s), s.lines().collect::<Vec<_>>());
        assert_eq!(words(s), s.split_whitespace().collect::<Vec<_>>());
    }
    for c in (0..0x11_0000u32).filter_map(char::from_u32) {
        assert_eq!(space(c), c.is_whitespace());
    }
}

#[test]
fn texts_are_searched() {
    assert!(contains("abc", "bc") && contains("abc", "") && !contains("abc", "ac"));
    assert_eq!(between("time=12.3 ms", "time=", " ").as_deref(), Some("12.3"));
    assert_eq!(between("time=12.3", "time=", " "), None);
    assert_eq!(strip_prefix("interface: en0", "interface:").as_deref(), Some(" en0"));
    assert_eq!(strip_prefix("x", "xy"), None);
    assert!(eq_ignore_ascii_case("NoRd", "nord"));
    assert!(!eq_ignore_ascii_case("Ä", "ä"));
}

#[test]
fn numbers_are_read_and_written() {
    for s in ["0", "+7", "007", "18446744073709551615"] {
        assert_eq!(parse_u64(s), s.parse::<u64>().ok());
        assert!(parse_u64(s).is_some());
    }
    for s in ["", "+", "-1", "1 ", "18446744073709551616", "٣"] {
        assert_eq!(parse_u64(s), None);
    }
    assert_eq!(decimal_text(0), "0");
    assert_eq!(decimal_text(u128::MAX), u128::MAX.to_string());
    assert_eq!(signed_text(-120), "-120");
    assert_eq!(signed_text(i128::MIN), i128::MIN.to_string());
}

#[test]
fn texts_are_padded_and_joined() {
    assert_eq!(repeat('•', 3), "•••");
    assert_eq!(pad_right("é", 3), "é  ");
    assert_eq!(pad_left("é", 3), "  é");
    assert_eq!(pad_left("long", 2), "long");
    assert_eq!(cat2("a", "b") + &cat3("c", "", "d"), "abcd");
    assert_eq!(cat4("a", "b", "c", "d") + &cat5("1", "2", "3", "4", "5"), "abcd12345");
}

#[test]
fn durations_saturate() {
    let longest = Duration {
        nanos: MAX_DURATION_NANOS,
    };
    assert_eq!(longest.as_secs(), u64::MAX);
    assert_eq!(longest.saturating_add(Duration::from_millis(1)), longest);
    let sum = Duration::from_secs(1).saturating_add(Duration::from_millis(500));
    assert_eq!(sum.as_millis(), 1500);
    let (early, late) = (Instant { nanos: 5 }, Instant { nanos: 9 });
    assert_eq!(late.duration_since(early).nanos, 4);
    assert!(early.duration_since(late).is_zero());
}
