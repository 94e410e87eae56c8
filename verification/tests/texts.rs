use prist::text::{
    blank, byte_length, cut_bytes, decimal_of, has, joined, lines_of, lowered, padded, pieces_of,
    signed_decimal_of, stripped, terminate, trimmed, white_space, without_leading,
    without_trailing,
};

#[test]
fn white_space_is_that_of_unicode() {
    for u in 0..=0x10ffffu32 {
        if let Some(c) = char::from_u32(u) {
            assert_eq!(white_space(c), c.is_whitespace(), "{u:x}");
        }
    }
}

#[test]
fn trimming() {
    assert_eq!(trimmed("  a b\t\n"), "a b");
    assert_eq!(trimmed(trimmed("\u{3000}x ").as_str()), "x");
    assert_eq!(trimmed(" \n"), "");
    assert!(blank(""));
    assert!(blank(" \r\n\t"));
    assert!(!blank(" x "));
    assert_eq!(without_trailing("a//", '/'), "a");
    assert_eq!(without_leading("vv1v", 'v'), "1v");
    assert_eq!(stripped("version:version: 1", "version:"), " 1");
}

#[test]
fn lines_are_those_of_std() {
    for s in ["", "a", "a\n", "a\nb", "a\r\nb\r\n", "\n\n", "a\r", "a\r\r\nb", "\r\n"] {
        let want: Vec<&str> = s.lines().collect();
        assert_eq!(lines_of(s), want, "{s:?}");
    }
}

#[test]
fn pieces_are_those_of_std() {
    for s in ["", ":", "a:b", "::a", "a:"] {
        let want: Vec<&str> = s.split(':').collect();
        let got = pieces_of(s, ':');
        assert_eq!(got, want, "{s:?}");
        assert_eq!(joined(&got, ":"), s);
    }
    assert_eq!(joined(&Vec::new(), ", "), "");
}

#[test]
fn lines_are_read_back() {
    let list = vec!["one".to_string(), "".to_string(), "three".to_string()];
    assert_eq!(lines_of(&(joined(&list, "\n") + "\n")), list);
}

#[test]
fn last_lines_are_terminated() {
    assert_eq!(terminate(""), "");
    assert_eq!(terminate("a"), "a\n");
    assert_eq!(terminate("a\n"), "a\n");
}

#[test]
fn numbers_are_written_in_decimal() {
    assert_eq!(decimal_of(0), "0");
    assert_eq!(decimal_of(u64::MAX), "18446744073709551615");
    assert_eq!(signed_decimal_of(-128), "-128");
    assert_eq!(signed_decimal_of(i32::MIN), "-2147483648");
    assert_eq!(signed_decimal_of(7), "7");
}

#[test]
fn cells_are_padded_by_characters() {
    assert_eq!(padded("ab", 4), "ab  ");
    assert_eq!(padded("é", 3), format!("{:<3}", "é"));
    assert_eq!(padded("abcdef", 4), "abcdef");
}

#[test]
fn letters_are_lowered_in_ascii_only() {
    assert_eq!(lowered("AbZ É[`"), "abz É[`");
}

#[test]
fn bytes_are_counted_and_cut() {
    for s in ["", "abc", "aé€😀"] {
        assert_eq!(byte_length(s), s.len());
        for n in 0..=12 {
            assert_eq!(cut_bytes(s, n).as_deref(), s.get(..n), "{s:?} {n}");
        }
    }
}

#[test]
fn texts_are_found() {
    assert!(has("abcabd", "abd"));
    assert!(has("abc", ""));
    assert!(!has("ab", "abc"));
}
