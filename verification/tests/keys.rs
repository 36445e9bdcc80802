use tmux_shim::keys::{build_send_text, translate_key_token};
use tmux_shim::options::{parse_capture_pane_args, parse_keys_args};

fn words(list: &[&str]) -> Vec<String> {
    list.iter().map(|s| s.to_string()).collect()
}

#[test]
fn translate_key_token_maps_enter_and_c_m() {
    assert_eq!(translate_key_token("Enter"), "\r");
    assert_eq!(translate_key_token("C-m"), "\r");
}

#[test]
fn translate_key_token_maps_tab_and_space() {
    assert_eq!(translate_key_token("Tab"), "\t");
    assert_eq!(translate_key_token("Space"), " ");
}

#[test]
fn translate_key_token_maps_control_letter() {
    assert_eq!(translate_key_token("C-c"), "\u{3}");
    assert_eq!(translate_key_token("C-a"), "\u{1}");
}

#[test]
fn translate_key_token_passes_through_literal_text() {
    assert_eq!(translate_key_token("hello"), "hello");
    // Non-letter after "C-" is not a recognized control sequence.
    assert_eq!(translate_key_token("C-1"), "C-1");
}

#[test]
fn build_send_text_literal_mode_joins_with_space() {
    let tokens = vec!["hello".to_string(), "world".to_string()];
    assert_eq!(build_send_text(&tokens, true), "hello world");
}

#[test]
fn build_send_text_translates_and_concatenates_without_separator() {
    let tokens = vec!["ls".to_string(), "Enter".to_string()];
    assert_eq!(build_send_text(&tokens, false), "ls\r");
}

#[test]
fn parse_capture_pane_args_parses_all_flags() {
    let args: Vec<String> = ["-t", "%3", "-p", "-S", "-10", "-E", "-1", "-e"]
        .iter()
        .map(|s| s.to_string())
        .collect();
    let opts = parse_capture_pane_args(&args);
    assert_eq!(opts.target, "%3");
    assert!(opts.print);
    assert_eq!(opts.start, Some("-10".to_string()));
    assert_eq!(opts.end, Some("-1".to_string()));
    assert!(opts.escapes);
}

#[test]
fn parse_capture_pane_args_defaults_when_no_flags_given() {
    let opts = parse_capture_pane_args(&[]);
    assert_eq!(opts.target, "");
    assert!(!opts.print);
    assert_eq!(opts.start, None);
    assert_eq!(opts.end, None);
    assert!(!opts.escapes);
}

#[test]
fn every_control_letter_has_its_code() {
    for (i, c) in ('a'..='z').enumerate() {
        let expected = ((i + 1) as u8 as char).to_string();
        assert_eq!(translate_key_token(&format!("C-{}", c)), expected);
        assert_eq!(
            translate_key_token(&format!("C-{}", c.to_ascii_uppercase())),
            expected
        );
    }
}

#[test]
fn odd_control_tokens_stay_literal() {
    assert_eq!(translate_key_token("C-"), "C-");
    assert_eq!(translate_key_token("C-ab"), "C-ab");
    assert_eq!(translate_key_token("C-é"), "C-é");
    assert_eq!(translate_key_token("c-a"), "c-a");
    assert_eq!(translate_key_token(""), "");
    assert_eq!(translate_key_token("enter"), "enter");
}

#[test]
fn keys_in_turn_are_keys_together() {
    let first = words(&["cd /tmp", "Enter"]);
    let second = words(&["ls", "Tab", "C-c"]);
    let both = words(&["cd /tmp", "Enter", "ls", "Tab", "C-c"]);
    assert_eq!(
        build_send_text(&both, false),
        build_send_text(&first, false) + &build_send_text(&second, false)
    );
    assert_eq!(build_send_text(&both, false), "cd /tmp\rls\t\u{3}");
}

#[test]
fn literal_mode_does_not_translate() {
    assert_eq!(build_send_text(&words(&["Enter", "C-c"]), true), "Enter C-c");
    assert_eq!(build_send_text(&[], true), "");
    assert_eq!(build_send_text(&[], false), "");
}

#[test]
fn send_keys_options_are_told_from_tokens() {
    let opts = parse_keys_args(&words(&["-t", "%1", "ls", "-l", "-la", "Enter", "-t"]));
    assert_eq!(opts.target, "%1");
    assert!(opts.literal);
    assert_eq!(opts.tokens, words(&["ls", "-la", "Enter"]));
}
