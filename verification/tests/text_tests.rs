use cursor_sdk::text::{blank, bool_to_string, decimal, trim_slashes_end};

#[test]
fn decimal_matches_to_string() {
    for n in [0u64, 5, 9, 10, 42, 100, 1234567890, u64::MAX] {
        assert_eq!(decimal(n), n.to_string());
    }
}

#[test]
fn bools_are_written_as_words() {
    assert_eq!(bool_to_string(true), "true");
    assert_eq!(bool_to_string(false), "false");
}

#[test]
fn trailing_slashes_are_trimmed() {
    assert_eq!(trim_slashes_end("https://api.cursor.com/"), "https://api.cursor.com");
    assert_eq!(trim_slashes_end("https://api.cursor.com///"), "https://api.cursor.com");
    assert_eq!(trim_slashes_end("https://api.cursor.com"), "https://api.cursor.com");
    assert_eq!(trim_slashes_end("/"), "");
    assert_eq!(trim_slashes_end(""), "");
    assert_eq!(trim_slashes_end("a/b/"), "a/b");
    assert_eq!(trim_slashes_end("héllo/"), "héllo");
}

#[test]
fn trimming_twice_changes_nothing() {
    for s in ["x//", "//", "a/b", ""] {
        let once = trim_slashes_end(s);
        assert_eq!(trim_slashes_end(&once), once);
        assert_eq!(once, s.trim_end_matches('/'));
    }
}

#[test]
fn blank_means_trim_is_empty() {
    for s in ["", " ", "\t\n\r ", "\u{a0}\u{3000}\u{2028}", " x ", "x", "\u{200b}"] {
        assert_eq!(blank(s), s.trim().is_empty(), "{s:?}");
    }
}
