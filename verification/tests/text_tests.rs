use modtool_core::text::{
    contains_str, dash_fields, first_line, i64_to_string, last_url_segment, str_eq,
    u64_to_string,
};

#[test]
fn str_eq_compares_contents() {
    assert!(str_eq("abc", "abc"));
    assert!(!str_eq("abc", "abd"));
    assert!(!str_eq("abc", "ab"));
    assert!(str_eq("", ""));
}

#[test]
fn contains_finds_substrings() {
    assert!(contains_str("fabric-loader-0.14.21-1.19.2", "fabric-loader"));
    assert!(contains_str("fabric-loader-0.14.21-1.19.2", "1.19.2"));
    assert!(!contains_str("1.20.1-forge-47.2.0", "fabric"));
    assert!(contains_str("anything", ""));
    assert!(!contains_str("ab", "abc"));
    assert!(contains_str("aaab", "aab"));
}

#[test]
fn first_line_stops_at_newline() {
    assert_eq!(first_line("openjdk 17.0.2\nsecond\nthird"), "openjdk 17.0.2");
    assert_eq!(first_line("no newline"), "no newline");
    assert_eq!(first_line("\nleading"), "");
}

#[test]
fn url_segment_is_after_last_slash() {
    assert_eq!(
        last_url_segment("https://example.com/files/sodium-0.5.8.jar"),
        "sodium-0.5.8.jar"
    );
    assert_eq!(last_url_segment("plain-name.jar"), "plain-name.jar");
    assert_eq!(last_url_segment("https://example.com/dir/"), "");
}

#[test]
fn dash_fields_split_every_dash() {
    let f = dash_fields("fabric-loader-0.14.21-1.19.2");
    assert_eq!(f, vec!["fabric", "loader", "0.14.21", "1.19.2"]);
    assert_eq!(dash_fields(""), vec![""]);
    assert_eq!(dash_fields("a--b"), vec!["a", "", "b"]);
    assert_eq!(dash_fields("-x"), vec!["", "x"]);
}

#[test]
fn integers_render_in_decimal() {
    assert_eq!(u64_to_string(0), "0");
    assert_eq!(u64_to_string(7), "7");
    assert_eq!(u64_to_string(1_000_000), "1000000");
    assert_eq!(u64_to_string(u64::MAX), "18446744073709551615");
    assert_eq!(i64_to_string(-42), "-42");
    assert_eq!(i64_to_string(42), "42");
    assert_eq!(i64_to_string(i64::MIN), "-9223372036854775808");
}
