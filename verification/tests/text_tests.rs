use shazam_tray::quote::{applescript_escaped, push_shell_quoted};
use shazam_tray::text::{
    chars_of, contains_exec, decimal_string, join_path_exec, parse_u32_exec,
    push_money, same_text, trimmed,
};

fn money(cents: u128) -> String {
    let mut s = String::new();
    push_money(&mut s, cents);
    s
}

#[test]
fn decimal_renders_without_leading_zeros() {
    assert_eq!(decimal_string(0), "0");
    assert_eq!(decimal_string(7), "7");
    assert_eq!(decimal_string(4040), "4040");
    assert_eq!(decimal_string(u64::MAX as u128), u64::MAX.to_string());
}

#[test]
fn money_has_two_decimals() {
    assert_eq!(money(0), "0.00");
    assert_eq!(money(5), "0.05");
    assert_eq!(money(42), "0.42");
    assert_eq!(money(1234), "12.34");
    assert_eq!(money(100), "1.00");
}

#[test]
fn trim_removes_unicode_white_space() {
    assert_eq!(trimmed("  12 \n"), "12");
    assert_eq!(trimmed("\u{3000}x y\u{a0}\t"), "x y");
    assert_eq!(trimmed(" \r\n "), "");
    assert_eq!(trimmed("abc"), "abc");
}

#[test]
fn parse_u32_matches_std() {
    for s in ["0", "42", "+7", "4294967295", "4294967296", "-1", "", "+", "12a", "007", "99999999999999"] {
        assert_eq!(parse_u32_exec(s), s.parse::<u32>().ok(), "input {:?}", s);
    }
}

#[test]
fn contains_and_equality() {
    assert!(contains_exec("HTTP/1.1 200 OK", "200 OK"));
    assert!(!contains_exec("HTTP/1.1 404 Not Found", "200 OK"));
    assert!(contains_exec("abc", ""));
    assert!(same_text("é", "é"));
    assert!(!same_text("a", "ab"));
    assert_eq!(chars_of("añb"), vec!['a', 'ñ', 'b']);
}

#[test]
fn join_path_follows_pathbuf() {
    assert_eq!(join_path_exec("/Users/me", "bin"), "/Users/me/bin");
    assert_eq!(join_path_exec("/Users/me/", "bin"), "/Users/me/bin");
    assert_eq!(join_path_exec("", "bin"), "bin");
    for (a, b) in [("/Users/me", ".shazam/daemon.pid"), (".", ".shazam/daemon.pid"), ("/", "x")] {
        let expected = std::path::PathBuf::from(a).join(b).to_string_lossy().into_owned();
        assert_eq!(join_path_exec(a, b), expected);
    }
}

#[test]
fn shell_quoting() {
    let mut out = String::from("cd ");
    push_shell_quoted(&mut out, "/tmp/a b; rm -rf ~");
    assert_eq!(out, "cd '/tmp/a b; rm -rf ~'");
    let mut out = String::new();
    push_shell_quoted(&mut out, "it's");
    assert_eq!(out, "'it'\\''s'");
    let mut out = String::new();
    push_shell_quoted(&mut out, "");
    assert_eq!(out, "''");
}

#[test]
fn applescript_escaping() {
    assert_eq!(applescript_escaped("a \"b\" c\\d"), "a \\\"b\\\" c\\\\d");
    assert_eq!(applescript_escaped("plain"), "plain");
}
