use openchat::clock::{clock_from_unix_secs, clock_string, current_timestamp_string};
use openchat::text::{blank, chars_of, i32_text, is_whitespace_char, push_decimal, push_pad2, skip_chars, starts_with, text_eq, trimmed};

#[test]
fn trimmed_removes_unicode_whitespace_at_both_ends() {
    assert_eq!(trimmed("  ab c \t\n"), "ab c");
    assert_eq!(trimmed("\u{3000}x\u{2028}"), "x");
    assert_eq!(trimmed(""), "");
    assert_eq!(trimmed("   "), "");
}

#[test]
fn trimming_twice_is_trimming_once() {
    for s in ["  a b  ", "\tq", "z\n", "", " \u{a0} "] {
        let once = trimmed(s);
        assert_eq!(trimmed(&once), once);
        assert_eq!(once, s.trim());
    }
}

#[test]
fn blank_means_whitespace_only() {
    assert!(blank(""));
    assert!(blank(" \t\r\n"));
    assert!(!blank(" . "));
}

#[test]
fn prefixes_and_suffixes() {
    assert!(starts_with("Ollama llama3", "Ollama"));
    assert!(!starts_with("Olla", "Ollama"));
    assert_eq!(skip_chars("Ollama llama3", 7), "llama3");
    assert!(text_eq("abc", "abc"));
    assert!(!text_eq("abc", "abd"));
    assert_eq!(chars_of("héllo"), vec!['h', 'é', 'l', 'l', 'o']);
}

#[test]
fn decimal_rendering() {
    let mut s = String::from("n=");
    push_decimal(&mut s, 0);
    assert_eq!(s, "n=0");
    let mut s = String::new();
    push_decimal(&mut s, 18446744073709551615);
    assert_eq!(s, "18446744073709551615");
    let mut s = String::new();
    push_pad2(&mut s, 7);
    push_pad2(&mut s, 42);
    push_pad2(&mut s, 123);
    assert_eq!(s, "0742123");
}

#[test]
fn clock_strings() {
    assert_eq!(clock_string(3, 4, 5), "03:04:05");
    assert_eq!(clock_from_unix_secs(0), "00:00:00");
    assert_eq!(clock_from_unix_secs(3661), "01:01:01");
    assert_eq!(clock_from_unix_secs(86399), "23:59:59");
}

#[test]
fn clock_repeats_every_day() {
    for secs in [0u64, 59, 3600, 45296, 86399] {
        assert_eq!(clock_from_unix_secs(secs + 86400), clock_from_unix_secs(secs));
    }
    assert_eq!(clock_from_unix_secs(1_700_000_000), "22:13:20");
}

#[test]
fn current_time_of_day_has_clock_shape() {
    let t = current_timestamp_string();
    let b = t.as_bytes();
    assert_eq!(b.len(), 8);
    assert_eq!(b[2], b':');
    assert_eq!(b[5], b':');
    for i in [0, 1, 3, 4, 6, 7] {
        assert!(b[i].is_ascii_digit());
    }
}

#[test]
fn whitespace_and_integer_text() {
    for c in ['\u{9}', '\u{d}', ' ', '\u{85}', '\u{a0}', '\u{1680}', '\u{200a}', '\u{2028}', '\u{3000}'] {
        assert!(is_whitespace_char(c));
        assert!(c.is_whitespace());
    }
    for c in ['a', '\u{200b}', '\u{8}', '_'] {
        assert!(!is_whitespace_char(c));
        assert!(!c.is_whitespace());
    }
    assert_eq!(i32_text(0), "0");
    assert_eq!(i32_text(70), "70");
    assert_eq!(i32_text(-5), "-5");
    assert_eq!(i32_text(i32::MIN), i32::MIN.to_string());
}
