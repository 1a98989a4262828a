use worker_fullstack::text::{
    chars_of, ends_with, i64_to_string, join_strings, parse_i64, parse_u32, parse_usize,
    starts_with, str_equal, trim_chars, u64_to_string,
};

#[test]
fn decimal_formatting_matches_to_string() {
    for n in [0u64, 7, 10, 99, 100, 12345, u64::MAX] {
        assert_eq!(u64_to_string(n), n.to_string());
    }
    for n in [0i64, -1, 42, -9876, i64::MIN, i64::MAX] {
        assert_eq!(i64_to_string(n), n.to_string());
    }
}

#[test]
fn parse_u32_matches_std() {
    let cases = ["0", "42", "+7", "-1", "", "+", "4294967295", "4294967296", "12a", " 1", "007"];
    for c in cases {
        assert_eq!(parse_u32(c), c.parse::<u32>().ok(), "input {:?}", c);
    }
}

#[test]
fn parse_i64_matches_std() {
    let cases = [
        "0", "-0", "-1", "+5", "-", "+", "", "9223372036854775807", "9223372036854775808",
        "-9223372036854775808", "-9223372036854775809", "1-", "--1", "-+1",
    ];
    for c in cases {
        assert_eq!(parse_i64(c), c.parse::<i64>().ok(), "input {:?}", c);
    }
}

#[test]
fn parse_usize_matches_std() {
    for c in ["1048576", "1048577", "x", "", "18446744073709551615"] {
        assert_eq!(parse_usize(c), c.parse::<usize>().ok(), "input {:?}", c);
    }
}

#[test]
fn decimal_round_trips_through_parse() {
    for n in [0u32, 1, 99, 100, 4294967295] {
        assert_eq!(parse_u32(&u64_to_string(n as u64)), Some(n));
    }
}

#[test]
fn trim_matches_std() {
    for s in ["  a b  ", "\t\napplication/json \u{3000}", "", "   ", "x"] {
        let trimmed: String = trim_chars(&chars_of(s)).into_iter().collect();
        assert_eq!(trimmed, s.trim());
    }
}

#[test]
fn prefix_and_suffix_tests() {
    assert!(starts_with("/api/items", "/api/"));
    assert!(!starts_with("/ap", "/api/"));
    assert!(ends_with("index.html", ".html"));
    assert!(!ends_with("index.htm", ".html"));
    assert!(str_equal("abc", "abc"));
    assert!(!str_equal("abc", "abd"));
}

#[test]
fn join_matches_std() {
    let parts = vec!["GET".to_string(), "POST".to_string(), "PUT".to_string()];
    assert_eq!(join_strings(&parts, ", "), parts.join(", "));
    assert_eq!(join_strings(&Vec::new(), ", "), "");
    assert_eq!(join_strings(&vec!["one".to_string()], "&"), "one");
}
