use docsrs_mcp::docs_fetcher::build_json_url;
use docsrs_mcp::text::{format_number, get_first_line, parse_u64_dec, str_eq, u64_to_dec};

#[test]
fn first_line_takes_only_the_first_line() {
    assert_eq!(get_first_line("Hello world.\nSecond line."), "Hello world.");
    assert_eq!(get_first_line("One line only"), "One line only");
    assert_eq!(get_first_line(""), "");
}

#[test]
fn first_line_trims_whitespace() {
    assert_eq!(get_first_line("   padded   \nnext"), "padded");
    assert_eq!(get_first_line("\t tabs and spaces \t"), "tabs and spaces");
    assert_eq!(get_first_line("   \nnext"), "");
    assert_eq!(get_first_line("line with \r carriage\r\nnext"), "line with \r carriage");
}

#[test]
fn first_line_truncates_at_one_hundred() {
    let line: String = std::iter::repeat('x').take(150).collect();
    let out = get_first_line(&line);
    let expected: String = std::iter::repeat('x').take(97).collect::<String>() + "...";
    assert_eq!(out, expected);
    assert_eq!(out.chars().count(), 100);

    let hundred: String = std::iter::repeat('x').take(100).collect();
    assert_eq!(get_first_line(&hundred), hundred);

    let hundred_one: String = std::iter::repeat('x').take(101).collect();
    let expected101: String = std::iter::repeat('x').take(97).collect::<String>() + "...";
    assert_eq!(get_first_line(&hundred_one), expected101);
}

#[test]
fn decimal_rendering() {
    assert_eq!(u64_to_dec(0), "0");
    assert_eq!(u64_to_dec(7), "7");
    assert_eq!(u64_to_dec(1234567890), "1234567890");
    assert_eq!(u64_to_dec(u64::MAX), "18446744073709551615");
}

#[test]
fn number_grouping() {
    assert_eq!(format_number(0), "0");
    assert_eq!(format_number(999), "999");
    assert_eq!(format_number(1000), "1,000");
    assert_eq!(format_number(1234567), "1,234,567");
    assert_eq!(format_number(12345678), "12,345,678");
    assert_eq!(format_number(1000000000), "1,000,000,000");
}

#[test]
fn decimal_parsing_inverts_rendering() {
    assert_eq!(parse_u64_dec("0"), Some(0));
    assert_eq!(parse_u64_dec("123"), Some(123));
    assert_eq!(parse_u64_dec("007"), None);
    assert_eq!(parse_u64_dec(""), None);
    assert_eq!(parse_u64_dec("12a"), None);
    assert_eq!(parse_u64_dec("18446744073709551615"), Some(u64::MAX));
    assert_eq!(parse_u64_dec("18446744073709551616"), None);
    assert_eq!(parse_u64_dec("99999999999999999999999"), None);
}

#[test]
fn string_equality_by_content() {
    assert!(str_eq("abc", "abc"));
    assert!(!str_eq("abc", "abd"));
    assert!(!str_eq("abc", "ab"));
    assert!(str_eq("", ""));
}

#[test]
fn json_url_defaults_to_latest() {
    assert_eq!(
        build_json_url("serde", None, None, None),
        "https://docs.rs/crate/serde/latest/json"
    );
}

#[test]
fn json_url_with_version_target_and_format() {
    assert_eq!(
        build_json_url("tokio", Some("1.0.0"), Some("i686-pc-windows-msvc"), Some(46)),
        "https://docs.rs/crate/tokio/1.0.0/i686-pc-windows-msvc/json/46"
    );
    assert_eq!(
        build_json_url("tokio", Some("~4"), None, Some(53)),
        "https://docs.rs/crate/tokio/~4/json/53"
    );
}
