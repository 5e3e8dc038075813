use restbed::text::{answer_or, clean_string, is_yes, parse_choice, parse_usize};

#[test]
fn clean_string_removes_line_feed() {
    assert_eq!(clean_string(String::from("abc\n")), "abc");
}

#[test]
fn clean_string_removes_carriage_return_and_line_feed() {
    assert_eq!(clean_string(String::from("abc\r\n")), "abc");
}

#[test]
fn clean_string_keeps_a_line_without_ending() {
    assert_eq!(clean_string(String::from("abc")), "abc");
    assert_eq!(clean_string(String::new()), "");
}

#[test]
fn clean_string_removes_a_lone_carriage_return() {
    assert_eq!(clean_string(String::from("abc\r")), "abc");
}

#[test]
fn clean_string_removes_one_ending_only() {
    assert_eq!(clean_string(String::from("abc\n\n")), "abc\n");
    assert_eq!(clean_string(String::from("abc\r\r\n")), "abc\r");
    assert_eq!(clean_string(String::from("abc\n\r")), "abc\n");
}

#[test]
fn clean_string_of_bare_endings_is_empty() {
    assert_eq!(clean_string(String::from("\n")), "");
    assert_eq!(clean_string(String::from("\r\n")), "");
    assert_eq!(clean_string(String::from("\r")), "");
}

#[test]
fn clean_string_keeps_inner_bytes() {
    assert_eq!(clean_string(String::from(" h\u{e9}llo \u{4e16}\u{754c}\t\r\n")), " h\u{e9}llo \u{4e16}\u{754c}\t");
    assert_eq!(clean_string(String::from("a\nb\r\n")), "a\nb");
}

#[test]
fn answer_or_gives_the_fallback_for_an_empty_line() {
    assert_eq!(answer_or(String::from("\r\n"), "0.0.0.0:1412"), "0.0.0.0:1412");
    assert_eq!(answer_or(String::new(), "N"), "N");
}

#[test]
fn answer_or_gives_the_cleaned_line_otherwise() {
    assert_eq!(answer_or(String::from("127.0.0.1:9999\n"), "0.0.0.0:1412"), "127.0.0.1:9999");
    assert_eq!(answer_or(String::from(" \n"), "x"), " ");
}

#[test]
fn is_yes_takes_the_letter_in_either_case() {
    assert!(is_yes("y"));
    assert!(is_yes("Y"));
}

#[test]
fn is_yes_refuses_everything_else() {
    for other in ["", "n", "N", "yes", "yy", " y", "y ", "1"] {
        assert!(!is_yes(other), "{:?}", other);
        assert_eq!(is_yes(other), other.to_lowercase() == "y");
    }
}

#[test]
fn parse_choice_reads_decimal_numbers() {
    assert_eq!(parse_choice("0"), 0);
    assert_eq!(parse_choice("1"), 1);
    assert_eq!(parse_choice("12"), 12);
    assert_eq!(parse_choice("007"), 7);
    assert_eq!(parse_choice("+3"), 3);
    assert_eq!(parse_choice(&usize::MAX.to_string()), usize::MAX);
}

#[test]
fn parse_choice_falls_back_to_zero() {
    for other in ["", "abc", "-1", " 1", "1 ", "1.5", "+", "++1", "1_0", "0x10", "99999999999999999999999999999999"] {
        assert_eq!(parse_choice(other), 0, "{:?}", other);
    }
}

#[test]
fn parse_usize_reads_what_it_is_given() {
    assert_eq!(parse_usize("0"), Some(0));
    assert_eq!(parse_usize("+0"), Some(0));
    assert_eq!(parse_usize("42"), Some(42));
    assert_eq!(parse_usize("+42"), Some(42));
    assert_eq!(parse_usize("0000000000000000000000000000000000000017"), Some(17));
    assert_eq!(parse_usize(&usize::MAX.to_string()), Some(usize::MAX));
}

#[test]
fn parse_usize_refuses_what_is_no_numeral() {
    for other in ["", "+", "-", "-0", "+-1", "++1", " 1", "1 ", "1a", "a1", "1_000", "1.0", "\u{663}", "1\u{e9}", "+\u{e9}"] {
        assert_eq!(parse_usize(other), None, "{:?}", other);
    }
}

#[test]
fn parse_usize_refuses_what_does_not_fit() {
    let max = usize::MAX.to_string();
    let mut beyond = max.clone();
    let last = beyond.pop().unwrap();
    beyond.push((last as u8 + 1) as char);
    assert_eq!(parse_usize(&beyond), None);
    assert_eq!(parse_usize(&format!("{}0", max)), None);
    assert_eq!(parse_usize("99999999999999999999999999999999"), None);
}

#[test]
fn parse_usize_agrees_with_the_standard_parser() {
    let max = usize::MAX.to_string();
    for text in ["", "0", "+", "+7", "-7", "007", "12345", "1e3", "٣", " 5", "18446744073709551615", "18446744073709551616", "+18446744073709551615", max.as_str()] {
        assert_eq!(parse_usize(text), text.parse::<usize>().ok(), "{:?}", text);
    }
}
