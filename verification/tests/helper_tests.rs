use git_arrow::helper::{format_duration, path_to_string};
use git_arrow::text::{
    chars_of, join, replace_all, same_text, split_fields, split_lines, split_on, string_of_range,
};

fn strings(items: &[&str]) -> Vec<String> {
    items.iter().map(|s| s.to_string()).collect()
}

#[test]
fn duration_below_one_second_is_in_milliseconds() {
    assert_eq!(format_duration(0), "0ms");
    assert_eq!(format_duration(7), "7ms");
    assert_eq!(format_duration(999), "999ms");
}

#[test]
fn duration_below_one_minute_is_in_seconds() {
    assert_eq!(format_duration(1000), "1s");
    assert_eq!(format_duration(1500), "1s");
    assert_eq!(format_duration(59_999), "59s");
}

#[test]
fn duration_below_one_hour_is_in_minutes_and_seconds() {
    assert_eq!(format_duration(60_000), "1m0s");
    assert_eq!(format_duration(61_000), "1m1s");
    assert_eq!(format_duration(3_599_999), "59m59s");
}

#[test]
fn duration_from_one_hour_on_has_hours() {
    assert_eq!(format_duration(3_600_000), "1h0m0s");
    assert_eq!(format_duration(3_661_000), "1h1m1s");
    assert_eq!(format_duration(90_061_000), "25h1m1s");
}

#[test]
fn duration_agrees_with_std_duration() {
    let du = std::time::Duration::from_millis(754_321);
    assert_eq!(format_duration(du.as_millis()), "12m34s");
}

#[test]
fn path_text_or_default() {
    assert_eq!(path_to_string(Some("/srv/repo.git"), "none"), "/srv/repo.git");
    assert_eq!(path_to_string(None, "none"), "none");
}

#[test]
fn chars_round_trip() {
    let chars = chars_of("héllo");
    assert_eq!(chars, vec!['h', 'é', 'l', 'l', 'o']);
    assert_eq!(string_of_range(&chars, 0, 5), "héllo");
    assert_eq!(string_of_range(&chars, 1, 3), "él");
    assert_eq!(string_of_range(&chars, 2, 2), "");
}

#[test]
fn split_keeps_empty_pieces() {
    assert_eq!(split_on("a,b,", ','), strings(&["a", "b", ""]));
    assert_eq!(split_on("", ','), strings(&[""]));
    assert_eq!(split_on(",", ','), strings(&["", ""]));
    assert_eq!(split_on("abc", ','), strings(&["abc"]));
}

#[test]
fn split_agrees_with_std() {
    for text in ["refs/heads/main", "/a//b/", "x", ""] {
        let want: Vec<String> = text.split('/').map(String::from).collect();
        assert_eq!(split_on(text, '/'), want);
    }
}

#[test]
fn join_puts_separator_between() {
    assert_eq!(join(&strings(&["a", "b", "c"]), ", "), "a, b, c");
    assert_eq!(join(&strings(&["a"]), ", "), "a");
    assert_eq!(join(&strings(&[]), ", "), "");
    assert_eq!(join(&strings(&["", ""]), "-"), "-");
}

#[test]
fn replace_all_is_left_to_right_without_overlap() {
    assert_eq!(replace_all("aaa", "aa", "b"), "ba");
    assert_eq!(replace_all("x$Ay$A", "$A", "1"), "x1y1");
    assert_eq!(replace_all("abc", "", "-"), "abc");
    assert_eq!(replace_all("abc", "d", "-"), "abc");
    assert_eq!(replace_all("", "d", "-"), "");
}

#[test]
fn replace_all_agrees_with_std() {
    for (text, pat, with) in [("a$B$Bc", "$B", "xy"), ("abab", "ab", ""), ("aXbX", "X", "XX")] {
        assert_eq!(replace_all(text, pat, with), text.replace(pat, with));
    }
}

#[test]
fn same_text_compares_characters() {
    assert!(same_text("abc", "abc"));
    assert!(!same_text("abc", "abd"));
    assert!(!same_text("abc", "ab"));
}

#[test]
fn fields_are_runs_without_white_space() {
    assert_eq!(split_fields("aaa111 bbb222 refs/heads/main"), strings(&["aaa111", "bbb222", "refs/heads/main"]));
    assert_eq!(split_fields("  a \t b\n"), strings(&["a", "b"]));
    assert_eq!(split_fields(""), strings(&[]));
    assert_eq!(split_fields(" \n "), strings(&[]));
    assert_eq!(split_fields("a\u{00A0}b\u{3000}c"), strings(&["a", "b", "c"]));
}

#[test]
fn fields_agree_with_std() {
    for text in ["a b  c", " lead", "trail ", "x\u{2003}y", "one"] {
        let want: Vec<String> = text.split_whitespace().map(String::from).collect();
        assert_eq!(split_fields(text), want);
    }
}

#[test]
fn lines_drop_their_endings() {
    assert_eq!(split_lines("a\nb\n"), strings(&["a", "b"]));
    assert_eq!(split_lines("a\r\nb"), strings(&["a", "b"]));
    assert_eq!(split_lines(""), strings(&[]));
    assert_eq!(split_lines("\n"), strings(&[""]));
    assert_eq!(split_lines("a\n\nb"), strings(&["a", "", "b"]));
    assert_eq!(split_lines("a\r"), strings(&["a\r"]));
}

#[test]
fn lines_agree_with_std() {
    for text in ["README.md\nsrc/main.go\n", "x\r\ny\r\n", "one", "\n\n", "a\rb\n"] {
        let want: Vec<String> = text.lines().map(String::from).collect();
        assert_eq!(split_lines(text), want);
    }
}
