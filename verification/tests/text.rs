//! Characters, numbers and wide strings, held against the standard library.

use openlogi::text::{
    chars_of, ends_with, is_white_space, joined, leading_run, parse_number, push_decimal, same_text,
    slice_of, split_word, starts_with, strip_v, text_of, trailing_run, trimmed, CharClass,
};
use openlogi::utf16::{from_utf16_lossy, wide};

#[test]
fn white_space_agrees_with_std() {
    for c in '\0'..=char::MAX {
        assert_eq!(is_white_space(c), c.is_whitespace(), "{:x}", c as u32);
    }
}

#[test]
fn trimming_and_words_agree_with_std() {
    for s in ["", " ", "a", " a ", "\u{2003}set-dpi\t 800 \n", "x  y z", "\u{feff} q"] {
        assert_eq!(text_of(&trimmed(s)), s.trim());
        let mut words = Vec::new();
        let mut rest = chars_of(s);
        loop {
            let (word, after) = split_word(&rest);
            match word {
                Some(w) => words.push(text_of(&w)),
                None => break,
            }
            rest = after;
        }
        assert_eq!(words, s.split_whitespace().collect::<Vec<_>>());
    }
}

#[test]
fn numbers_agree_with_std() {
    for s in [
        "", "0", "7", "007", "+7", "++7", "-7", "+", "-", "65535", "65536", "99999", "12a", " 1",
        "18446744073709551615", "18446744073709551616", "99999999999999999999999", "１",
    ] {
        let v = chars_of(s);
        assert_eq!(parse_number(&v, u64::MAX), s.parse::<u64>().ok(), "{s}");
        assert_eq!(
            parse_number(&v, u16::MAX as u64).map(|n| n as u16),
            s.parse::<u16>().ok(),
            "{s}"
        );
    }
}

#[test]
fn decimal_notation_reads_back() {
    for n in [0, 1, 9, 10, 99, 100, 800, 65535, u64::MAX] {
        let mut s = String::from("n=");
        push_decimal(&mut s, n);
        assert_eq!(s, format!("n={n}"));
        assert_eq!(parse_number(&chars_of(&s[2..]), u64::MAX), Some(n));
    }
}

#[test]
fn runs_prefixes_and_suffixes() {
    let v = chars_of("vv1.2-rc");
    assert_eq!(leading_run(&v, CharClass::LetterV), 2);
    assert_eq!(leading_run(&v, CharClass::Core), 5);
    assert_eq!(leading_run(&v, CharClass::Part), 3);
    assert_eq!(text_of(&strip_v(&v)), "1.2-rc");
    assert_eq!(trailing_run(&chars_of("a\\b/c.exe"), CharClass::Name), 5);
    assert!(starts_with(&v, "vv1") && !starts_with(&v, "v1") && starts_with(&v, ""));
    assert!(ends_with(&v, "-rc") && !ends_with(&v, "rd") && !ends_with(&v, "xxvv1.2-rc"));
    assert_eq!(slice_of(&v, 2, 5), vec!['1', '.', '2']);
    assert_eq!(joined("ab", "cd"), "abcd");
    assert!(same_text("é", "é") && !same_text("a", "b"));
}

#[test]
fn wide_agrees_with_std() {
    for s in ["", "OpenLogi", "é·→", "🪟 a", "\u{10ffff}\u{10000}\u{ffff}\u{e000}\u{d7ff}"] {
        let std_form: Vec<u16> = s.encode_utf16().chain(std::iter::once(0)).collect();
        assert_eq!(wide(s), std_form);
    }
}

#[test]
fn decoding_agrees_with_std() {
    for u in [
        vec![],
        vec![0x61, 0x62],
        vec![0xD800],
        vec![0xD800, 0x61],
        vec![0xD83E, 0xDE9F],
        vec![0xDC00, 0xD83E, 0xDE9F],
        vec![0xD83E, 0xD83E, 0xDE9F, 0xDE9F],
        vec![0xFFFF, 0xE000, 0xDFFF],
    ] {
        assert_eq!(from_utf16_lossy(&u), String::from_utf16_lossy(&u));
    }
}

#[test]
fn utf16_round_trip() {
    let s = "MX Master 3S · 80% 🪟";
    let mut units = wide(s);
    assert_eq!(units.pop(), Some(0));
    assert_eq!(from_utf16_lossy(&units), s);
}

#[test]
fn wide_is_terminated_once() {
    let units = wide("Quit OpenLogi");
    assert_eq!(units.iter().position(|&u| u == 0), Some(units.len() - 1));
}
