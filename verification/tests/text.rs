use tmux_shim::format::apply_format;
use tmux_shim::text::{
    has_prefix, join, parse_u64, replace_all, same, show_u64, strip_prefix, trim,
};

#[test]
fn replace_all_agrees_with_std() {
    let samples = [
        "", "a", "aa", "aaa", "aaaa", "aba", "ababa", "xabaabay", "#{p}#{p}", "é#{p}é", "#{#{p}",
    ];
    for s in samples {
        for pat in ["a", "aa", "aba", "#{p}", "é"] {
            for with in ["", "b", "aa", "#{p}", "\r"] {
                assert_eq!(replace_all(s, pat, with), s.replace(pat, with));
            }
        }
    }
}

#[test]
fn parse_u64_agrees_with_std() {
    let samples = [
        "", "0", "7", "007", "42", "+42", "+", "++1", "-1", "-0", " 1", "1 ", "1a", "a",
        "18446744073709551615", "18446744073709551616", "99999999999999999999999",
        "+18446744073709551615", "%3", "@3", "１", "0x10", "1_000", "18446744073709551620",
    ];
    for s in samples {
        assert_eq!(parse_u64(s), s.parse::<u64>().ok(), "{:?}", s);
    }
}

#[test]
fn show_u64_agrees_with_std() {
    for n in [0, 1, 9, 10, 11, 99, 100, 12345, u64::MAX - 1, u64::MAX] {
        assert_eq!(show_u64(n), n.to_string());
        assert_eq!(parse_u64(&show_u64(n)), Some(n));
    }
}

#[test]
fn trim_agrees_with_std() {
    for s in ["", " ", "15\n", "\r\n 15 \t\r\n", "a b", " a b ", "\u{a0}x\u{3000}", "x\u{200b}"] {
        assert_eq!(trim(s), s.trim());
    }
}

#[test]
fn white_space_is_that_of_std() {
    for n in 0..=0x10ffffu32 {
        if let Some(c) = char::from_u32(n) {
            if c.is_whitespace() || n % 97 == 0 || n < 0x3100 {
                let s = c.to_string();
                assert_eq!(trim(&s).is_empty(), c.is_whitespace(), "{:x}", n);
            }
        }
    }
}

#[test]
fn join_agrees_with_std() {
    let lists: [&[&str]; 4] = [&[], &["a"], &["a", "b"], &["", "é", ""]];
    for list in lists {
        let owned: Vec<String> = list.iter().map(|s| s.to_string()).collect();
        assert_eq!(join(&owned, " "), owned.join(" "));
        assert_eq!(join(&owned, ""), owned.concat());
    }
}

#[test]
fn prefixes_agree_with_std() {
    for s in ["", "@", "@3", "%3", "é3", "@@"] {
        for p in ["", "@", "@3", "é", "longer than all"] {
            assert_eq!(has_prefix(s, p), s.starts_with(p));
            assert_eq!(strip_prefix(s, p), s.strip_prefix(p).map(|r| r.to_string()));
        }
    }
    assert!(same("é", "é"));
    assert!(!same("e", "é"));
}

#[test]
fn formats_fill_in_known_placeholders() {
    assert_eq!(apply_format("#{pane_id}", Some("%3"), Some("@0")), "%3");
    assert_eq!(
        apply_format("<#{window_id}:#{pane_id}:#{pane_id}>", Some("%3"), Some("@7")),
        "<@7:%3:%3>"
    );
    assert_eq!(apply_format("#{client_termtype}", None, None), "tmux-256color");
    assert_eq!(apply_format("#{client_control_mode}", None, None), "0");
}

#[test]
fn formats_leave_unknown_placeholders() {
    assert_eq!(
        apply_format("#{session_name} #{pane_idx} #S", Some("%3"), Some("@0")),
        "#{session_name} #{pane_idx} #S"
    );
    assert_eq!(apply_format("", Some("%3"), Some("@0")), "");
    assert_eq!(apply_format("#{pane_id}", None, Some("@0")), "#{pane_id}");
    assert_eq!(apply_format("#{window_id}", Some("%3"), None), "#{window_id}");
}

#[test]
fn formats_substitute_one_kind_after_the_other() {
    // A pane id that looks like a placeholder is filled in by the next kind.
    assert_eq!(
        apply_format("#{pane_id}", Some("#{window_id}"), Some("@2")),
        "@2"
    );
    assert_eq!(
        apply_format("#{window_id}", Some("%1"), Some("#{pane_id}")),
        "#{pane_id}"
    );
}
