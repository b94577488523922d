use auto_action::content::{delete_count, is_date_placeholder, resolve_content, resolve_content_on};
use auto_action::date::{get_date_str, Date};
use auto_action::decimal::{append_padded, append_signed, append_unsigned, append_zero_padded};
use auto_action::report::{
    backspace_line, change_line, date_line, delete_line, double_click_line, enter_line,
    input_line, left_click_line, missing_initial_line, move_click_line, move_initial_line,
    move_line, move_relative_line, right_click_line, sleep_line,
};

fn unsigned(n: u64) -> String {
    let mut out = String::new();
    append_unsigned(&mut out, n);
    out
}

fn signed(v: i64) -> String {
    let mut out = String::new();
    append_signed(&mut out, v);
    out
}

fn zero_padded(n: u64, width: usize) -> String {
    let mut out = String::new();
    append_zero_padded(&mut out, n, width);
    out
}

fn padded(v: i64, width: usize) -> String {
    let mut out = String::new();
    append_padded(&mut out, v, width);
    out
}

#[test]
fn unsigned_numbers_are_written_in_decimal() {
    assert_eq!(unsigned(0), "0");
    assert_eq!(unsigned(7), "7");
    assert_eq!(unsigned(10), "10");
    assert_eq!(unsigned(1234567890), "1234567890");
    assert_eq!(unsigned(u64::MAX), "18446744073709551615");
}

#[test]
fn signed_numbers_are_written_in_decimal() {
    assert_eq!(signed(0), "0");
    assert_eq!(signed(-1), "-1");
    assert_eq!(signed(110), "110");
    assert_eq!(signed(i32::MIN as i64), "-2147483648");
    assert_eq!(signed(i64::MIN), "-9223372036854775808");
    assert_eq!(signed(i64::MAX), "9223372036854775807");
}

#[test]
fn appending_keeps_what_was_there() {
    let mut out = String::from("x = ");
    append_signed(&mut out, -42);
    assert_eq!(out, "x = -42");
    append_unsigned(&mut out, 7);
    assert_eq!(out, "x = -427");
    append_zero_padded(&mut out, 3, 2);
    assert_eq!(out, "x = -42703");
    append_padded(&mut out, -3, 4);
    assert_eq!(out, "x = -42703-003");
}

#[test]
fn zero_padding_fills_up_to_the_width() {
    assert_eq!(zero_padded(3, 2), "03");
    assert_eq!(zero_padded(31, 2), "31");
    assert_eq!(zero_padded(0, 2), "00");
    assert_eq!(zero_padded(123, 2), "123");
    assert_eq!(zero_padded(5, 0), "5");
    assert_eq!(zero_padded(5, 1), "5");
    assert_eq!(zero_padded(2024, 4), "2024");
    assert_eq!(zero_padded(7, 4), "0007");
}

#[test]
fn padding_agrees_with_the_standard_formatter() {
    for v in [0i64, 1, 9, 10, 99, 100, 999, 1000, 9999, 10000, -1, -9, -10, -99, -100, -999, -1000] {
        assert_eq!(padded(v, 4), format!("{:04}", v));
        assert_eq!(padded(v, 2), format!("{:02}", v));
        assert_eq!(padded(v, 1), format!("{:01}", v));
        assert_eq!(padded(v, 0), format!("{}", v));
        assert_eq!(signed(v), format!("{}", v));
    }
}

#[test]
fn date_is_written_as_eight_digits() {
    assert_eq!(Date { year: 2024, month: 3, day: 31 }.to_text(), "20240331");
    assert_eq!(Date { year: 1999, month: 12, day: 1 }.to_text(), "19991201");
    assert_eq!(Date { year: 2026, month: 10, day: 28 }.to_text(), "20261028");
    assert_eq!(Date { year: 0, month: 1, day: 1 }.to_text(), "00000101");
    assert_eq!(Date { year: 33, month: 1, day: 9 }.to_text(), "00330109");
    assert_eq!(Date { year: 9999, month: 12, day: 31 }.to_text(), "99991231");
}

#[test]
fn date_outside_four_digit_years_is_longer_or_signed() {
    assert_eq!(Date { year: 10000, month: 1, day: 1 }.to_text(), "100000101");
    assert_eq!(Date { year: -5, month: 1, day: 1 }.to_text(), "-0050101");
    assert_eq!(Date { year: -12345, month: 1, day: 1 }.to_text(), "-123450101");
}

#[test]
fn date_text_agrees_with_the_standard_formatter() {
    for year in [-262143, -1000, -1, 0, 1, 999, 1000, 1969, 2024, 9999, 10000, 262142] {
        for (month, day) in [(1u32, 1u32), (9, 10), (10, 9), (12, 31)] {
            assert_eq!(
                Date { year, month, day }.to_text(),
                format!("{:04}{:02}{:02}", year, month, day)
            );
        }
    }
}

#[test]
fn date_of_today_is_eight_digits() {
    let text = get_date_str();
    assert_eq!(text.len(), 8);
    assert!(text.chars().all(|c| c.is_ascii_digit()));
    let month: u32 = text[4..6].parse().unwrap();
    let day: u32 = text[6..8].parse().unwrap();
    assert!((1..=12).contains(&month));
    assert!((1..=31).contains(&day));
}

#[test]
fn placeholder_is_matched_exactly() {
    assert!(is_date_placeholder(&"${DATE}".to_string()));
    assert!(!is_date_placeholder(&"${date}".to_string()));
    assert!(!is_date_placeholder(&" ${DATE}".to_string()));
    assert!(!is_date_placeholder(&"${DATE}${DATE}".to_string()));
    assert!(!is_date_placeholder(&String::new()));
}

#[test]
fn content_resolves_to_itself_or_the_date() {
    let day = Date { year: 2024, month: 3, day: 31 };
    assert_eq!(resolve_content_on(&"${DATE}".to_string(), &day), "20240331");
    assert_eq!(resolve_content_on(&"hello".to_string(), &day), "hello");
    assert_eq!(resolve_content_on(&"x${DATE}".to_string(), &day), "x${DATE}");
    assert_eq!(resolve_content_on(&String::new(), &day), "");
}

#[test]
fn resolving_twice_changes_nothing() {
    let first = Date { year: 2024, month: 3, day: 31 };
    let second = Date { year: 2025, month: 1, day: 1 };
    for content in ["${DATE}", "hello", "20240331", ""] {
        let once = resolve_content_on(&content.to_string(), &first);
        let twice = resolve_content_on(&once, &second);
        assert_eq!(once, twice);
    }
}

#[test]
fn content_resolved_now_reads_the_clock_for_the_placeholder() {
    assert_eq!(resolve_content(&"plain".to_string()), "plain");
    let date = resolve_content(&"${DATE}".to_string());
    assert_eq!(date.len(), 8);
    assert!(date.chars().all(|c| c.is_ascii_digit()));
}

#[test]
fn delete_count_is_explicit_or_the_length() {
    assert_eq!(delete_count(-1, "hi"), 2);
    assert_eq!(delete_count(-100, "hello, world"), 12);
    assert_eq!(delete_count(0, "hi"), 0);
    assert_eq!(delete_count(10, "hi"), 10);
    assert_eq!(delete_count(i32::MAX, ""), i32::MAX as usize);
    assert_eq!(delete_count(-1, ""), 0);
    assert_eq!(delete_count(-1, "\u{e9}\u{4e2d}"), 5);
}

#[test]
fn lines_are_worded_for_the_user() {
    assert_eq!(
        missing_initial_line(),
        "Please specify the initial cursor -x -y in CLI parameters, actions not executed"
    );
    assert_eq!(move_initial_line(3, 4), "move mouse cursor to initial position x:3 y:4");
    assert_eq!(move_line(-3, 40), "move mouse cursor to position x:-3 y:40");
    assert_eq!(move_click_line(110, 110), "move mouse cursor to position x:110 y:110, and click");
    assert_eq!(move_relative_line(0, -1), "move mouse cursor relatively x:0 y:-1");
    assert_eq!(left_click_line(), "click the left mouse button");
    assert_eq!(double_click_line(), "double click the left mouse button");
    assert_eq!(right_click_line(), "click the right mouse button");
    assert_eq!(sleep_line(500), "sleep for 500ms");
    assert_eq!(backspace_line(8), "press the BACKSPACE 8 times");
    assert_eq!(delete_line(), "press the DELETE key");
    assert_eq!(input_line("Hello world"), "input the content: Hello world");
    assert_eq!(change_line(1, 2, "abc"), "move to x:1 y:2, change the content to: abc");
    assert_eq!(date_line("20240331"), "input the date string: 20240331");
    assert_eq!(enter_line(), "press the RETURN key");
}
