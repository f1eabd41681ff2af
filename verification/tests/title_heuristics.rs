use nirinit::text::{eq_ignore_ascii_case, find_char, same_text, starts_with, str_less, trim};
use nirinit::title::{extract_multiplexer_session, extract_project_path};

#[test]
fn project_path_expands_home() {
    let found = extract_project_path("camel [~/projects/camel] \u{2013} main.py", Some("/home/user"));
    assert_eq!(found, Some(String::from("/home/user/projects/camel")));
}

#[test]
fn project_path_without_home_drops_tilde() {
    let found = extract_project_path("camel [~/projects/camel] \u{2013} main.py", None);
    assert_eq!(found, Some(String::from("/projects/camel")));
}

#[test]
fn project_path_absolute_is_kept() {
    let found = extract_project_path("x [/srv/code] y", Some("/home/user"));
    assert_eq!(found, Some(String::from("/srv/code")));
}

#[test]
fn project_path_only_leading_tilde_is_expanded() {
    let found = extract_project_path("x [~/a/~b] y", Some("/h"));
    assert_eq!(found, Some(String::from("/h/a/~b")));
    let inner = extract_project_path("x [/a/~b] y", Some("/h"));
    assert_eq!(inner, Some(String::from("/a/~b")));
}

#[test]
fn project_path_empty_brackets() {
    assert_eq!(extract_project_path("a [] b", Some("/h")), Some(String::new()));
}

#[test]
fn project_path_without_brackets_is_none() {
    assert_eq!(extract_project_path("main.py", Some("/home/user")), None);
    assert_eq!(extract_project_path("", Some("/home/user")), None);
    assert_eq!(extract_project_path("only [ open", Some("/home/user")), None);
    assert_eq!(extract_project_path("only ] close", Some("/home/user")), None);
}

#[test]
fn project_path_close_before_open_is_none() {
    assert_eq!(extract_project_path("a ] b [ c", Some("/home/user")), None);
    assert_eq!(extract_project_path("a ] b [ c ] d", Some("/home/user")), None);
}

#[test]
fn project_path_uses_first_brackets() {
    let found = extract_project_path("[one] [two]", None);
    assert_eq!(found, Some(String::from("one")));
}

#[test]
fn multiplexer_session_is_found() {
    let found = extract_multiplexer_session("surfi1 \u{2750} dt-agent \u{25cf} 2 zsh");
    assert_eq!(found, Some((String::from("surfi1"), String::from("dt-agent"))));
}

#[test]
fn multiplexer_session_marker_at_start_is_none() {
    assert_eq!(extract_multiplexer_session("\u{2750} dt-agent \u{25cf} 2 zsh"), None);
    assert_eq!(extract_multiplexer_session("   \u{2750} dt-agent \u{25cf} 2 zsh"), None);
}

#[test]
fn multiplexer_session_missing_marker_is_none() {
    assert_eq!(extract_multiplexer_session("surfi1 dt-agent \u{25cf} 2 zsh"), None);
    assert_eq!(extract_multiplexer_session("surfi1 \u{2750} dt-agent 2 zsh"), None);
    assert_eq!(extract_multiplexer_session("zsh"), None);
    assert_eq!(extract_multiplexer_session(""), None);
}

#[test]
fn multiplexer_session_empty_session_is_none() {
    assert_eq!(extract_multiplexer_session("host \u{2750}   \u{25cf} 2 zsh"), None);
    assert_eq!(extract_multiplexer_session("host \u{2750}\u{25cf}"), None);
}

#[test]
fn multiplexer_session_end_mark_first_is_none() {
    assert_eq!(extract_multiplexer_session("host \u{25cf} s \u{2750} t"), None);
}

#[test]
fn trim_drops_white_space_at_both_ends() {
    assert_eq!(trim("  a b \t\n"), "a b");
    assert_eq!(trim("\u{2003}x\u{00a0}"), "x");
    assert_eq!(trim("   "), "");
    assert_eq!(trim(""), "");
    assert_eq!(trim("abc"), "abc");
}

#[test]
fn find_char_counts_characters() {
    assert_eq!(find_char("\u{2750}a[b", '['), Some(2));
    assert_eq!(find_char("abc", 'x'), None);
    assert_eq!(find_char("a[b[c", '['), Some(1));
    assert_eq!(find_char("", '['), None);
}

#[test]
fn str_less_is_the_order_of_str() {
    let words = ["", "a", "ab", "b", "B", "DP-1", "DP-2", "HDMI-A-1", "eDP-1", "\u{e9}", "z"];
    for x in words.iter() {
        for y in words.iter() {
            assert_eq!(str_less(x, y), x < y);
        }
    }
}

#[test]
fn same_text_and_prefix() {
    assert!(same_text("abc", "abc"));
    assert!(!same_text("abc", "abd"));
    assert!(!same_text("abc", "ab"));
    assert!(starts_with("jetbrains-idea", "jetbrains-"));
    assert!(!starts_with("jetbrain", "jetbrains-"));
    assert!(starts_with("x", ""));
}

#[test]
fn ascii_case_is_ignored() {
    assert!(eq_ignore_ascii_case("Surfi1", "sURFI1"));
    assert!(!eq_ignore_ascii_case("surfi1", "surfi2"));
    assert!(!eq_ignore_ascii_case("\u{e9}", "\u{c9}"));
    assert!(!eq_ignore_ascii_case("a", "ab"));
    assert!(!eq_ignore_ascii_case("@", "`"));
    assert!(!eq_ignore_ascii_case("[", "{"));
}
