use axum_erp_api::text::{
    chars_of, keep_plain_chars, push_signed, push_zero_padded, replace_spaces, squeeze_chars,
    trim_chars,
};

fn s(v: &[char]) -> String {
    v.iter().collect()
}

#[test]
fn trim_removes_unicode_white_space_at_both_ends() {
    let cs = chars_of("\u{a0}\t a b \u{3000}\n");
    assert_eq!(s(&trim_chars(&cs)), "a b");
    assert_eq!(s(&trim_chars(&chars_of("   "))), "");
    assert_eq!(s(&trim_chars(&chars_of("x"))), "x");
}

#[test]
fn squeeze_joins_words_with_single_spaces() {
    assert_eq!(s(&squeeze_chars(&chars_of("  a   b\tc\u{b}d  "))), "a b c d");
    assert_eq!(s(&squeeze_chars(&chars_of(" \t "))), "");
    assert_eq!(s(&squeeze_chars(&chars_of("one"))), "one");
}

#[test]
fn keep_plain_drops_non_ascii_and_stars() {
    assert_eq!(s(&keep_plain_chars(&chars_of("a*ñb é"))), "ab ");
}

#[test]
fn zero_padding_matches_std_formatting() {
    for (n, w) in [(7i64, 4usize), (-5, 4), (12345, 4), (0, 4), (-1234, 4), (i64::MIN, 4), (i64::MAX, 4), (3, 0)] {
        let mut out = Vec::new();
        push_zero_padded(&mut out, n, w);
        assert_eq!(s(&out), format!("{n:0w$}"));
    }
    let mut out = Vec::new();
    push_zero_padded(&mut out, 7, 4);
    assert_eq!(s(&out), "0007");
    let mut out = Vec::new();
    push_zero_padded(&mut out, -5, 4);
    assert_eq!(s(&out), "-005");
}

#[test]
fn signed_decimal_matches_display() {
    for n in [0i64, 9, 10, -42, 1000000, i64::MIN, i64::MAX] {
        let mut out = vec!['x'];
        push_signed(&mut out, n);
        assert_eq!(s(&out), format!("x{n}"));
    }
}

#[test]
fn spaces_become_wildcards() {
    assert_eq!(s(&replace_spaces(&chars_of(" a b "))), "%a%b%");
}
