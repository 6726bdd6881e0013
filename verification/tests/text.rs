use abraca::text::{chars_eq_str, chars_of, parse_i64, push_i64, split_chars, str_eq};

fn chars(s: &str) -> Vec<char> {
    s.chars().collect()
}

fn decimal(n: i64) -> String {
    let mut out = String::new();
    push_i64(n, &mut out);
    out
}

#[test]
fn chars_of_gives_the_characters_in_order() {
    assert_eq!(chars_of(""), Vec::<char>::new());
    assert_eq!(chars_of("a-b"), vec!['a', '-', 'b']);
    assert_eq!(chars_of("héllo"), vec!['h', 'é', 'l', 'l', 'o']);
}

#[test]
fn strings_compare_by_their_text() {
    assert!(str_eq("", ""));
    assert!(str_eq("buy", "buy"));
    assert!(!str_eq("buy", "sell"));
    assert!(!str_eq("buy", "buys"));
    assert!(chars_eq_str(&chars("SWAP"), "SWAP"));
    assert!(!chars_eq_str(&chars("SWAP"), "SWAp"));
    assert!(!chars_eq_str(&chars("SWA"), "SWAP"));
}

#[test]
fn split_keeps_empty_pieces() {
    assert_eq!(split_chars(&chars(""), '-'), vec![chars("")]);
    assert_eq!(split_chars(&chars("abc"), '-'), vec![chars("abc")]);
    assert_eq!(split_chars(&chars("a-b"), '-'), vec![chars("a"), chars("b")]);
    assert_eq!(split_chars(&chars("-a--b-"), '-'), vec![
        chars(""),
        chars("a"),
        chars(""),
        chars("b"),
        chars("")
    ]);
    assert_eq!(split_chars(&chars("a.b-c"), '.'), vec![chars("a"), chars("b-c")]);
}

#[test]
fn integers_are_read_with_an_optional_sign() {
    assert_eq!(parse_i64(&chars("0")), Some(0));
    assert_eq!(parse_i64(&chars("10000")), Some(10000));
    assert_eq!(parse_i64(&chars("+7")), Some(7));
    assert_eq!(parse_i64(&chars("-7")), Some(-7));
    assert_eq!(parse_i64(&chars("007")), Some(7));
    assert_eq!(parse_i64(&chars("-0")), Some(0));
    assert_eq!(parse_i64(&chars("9223372036854775807")), Some(i64::MAX));
    assert_eq!(parse_i64(&chars("-9223372036854775808")), Some(i64::MIN));
    assert_eq!(parse_i64(&chars("0000000000000000000000000000000000000042")), Some(42));
}

#[test]
fn texts_that_write_no_integer_are_refused() {
    assert_eq!(parse_i64(&chars("")), None);
    assert_eq!(parse_i64(&chars("-")), None);
    assert_eq!(parse_i64(&chars("+")), None);
    assert_eq!(parse_i64(&chars("--1")), None);
    assert_eq!(parse_i64(&chars("1e4")), None);
    assert_eq!(parse_i64(&chars("12 ")), None);
    assert_eq!(parse_i64(&chars(" 12")), None);
    assert_eq!(parse_i64(&chars("1.0")), None);
    assert_eq!(parse_i64(&chars("9223372036854775808")), None);
    assert_eq!(parse_i64(&chars("-9223372036854775809")), None);
    assert_eq!(parse_i64(&chars("99999999999999999999999999")), None);
    assert_eq!(parse_i64(&chars("99999999999999999999999999x")), None);
}

#[test]
fn integers_are_written_in_decimal() {
    assert_eq!(decimal(0), "0");
    assert_eq!(decimal(7), "7");
    assert_eq!(decimal(10), "10");
    assert_eq!(decimal(10000), "10000");
    assert_eq!(decimal(-1), "-1");
    assert_eq!(decimal(i64::MAX), "9223372036854775807");
    assert_eq!(decimal(i64::MIN), "-9223372036854775808");
    let mut out = String::from("id=");
    push_i64(42, &mut out);
    assert_eq!(out, "id=42");
}

#[test]
fn written_integers_are_read_back() {
    for n in [0, 1, -1, 9, 10, -10, 12345, -98765, i64::MAX, i64::MIN] {
        assert_eq!(parse_i64(&chars(&decimal(n))), Some(n));
        assert_eq!(n.to_string(), decimal(n));
        assert_eq!(decimal(n).parse::<i64>().ok(), parse_i64(&chars(&decimal(n))));
    }
}
