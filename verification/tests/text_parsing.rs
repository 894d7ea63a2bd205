use app_server::text::{chars_of, parse_i64, same_text, split_path};

fn chars(s: &str) -> Vec<char> {
    s.chars().collect()
}

fn pieces(s: &str) -> Vec<String> {
    split_path(&chars(s)).into_iter().map(|p| p.into_iter().collect()).collect()
}

#[test]
fn chars_of_keeps_every_character() {
    assert_eq!(chars_of("a/é1"), vec!['a', '/', 'é', '1']);
    assert_eq!(chars_of(""), Vec::<char>::new());
}

#[test]
fn same_text_compares_contents() {
    assert!(same_text(&chars("items"), &chars("items")));
    assert!(!same_text(&chars("items"), &chars("item")));
    assert!(!same_text(&chars("menu"), &chars("menv")));
    assert!(same_text(&chars(""), &chars("")));
}

#[test]
fn parse_plain_numbers() {
    assert_eq!(parse_i64(&chars("0")), Some(0));
    assert_eq!(parse_i64(&chars("42")), Some(42));
    assert_eq!(parse_i64(&chars("999")), Some(999));
    assert_eq!(parse_i64(&chars("007")), Some(7));
}

#[test]
fn parse_signed_numbers() {
    assert_eq!(parse_i64(&chars("-17")), Some(-17));
    assert_eq!(parse_i64(&chars("+17")), Some(17));
    assert_eq!(parse_i64(&chars("-0")), Some(0));
}

#[test]
fn parse_rejects_what_is_no_number() {
    assert_eq!(parse_i64(&chars("")), None);
    assert_eq!(parse_i64(&chars("-")), None);
    assert_eq!(parse_i64(&chars("+")), None);
    assert_eq!(parse_i64(&chars("12a")), None);
    assert_eq!(parse_i64(&chars("a12")), None);
    assert_eq!(parse_i64(&chars(" 12")), None);
    assert_eq!(parse_i64(&chars("1 2")), None);
    assert_eq!(parse_i64(&chars("--1")), None);
    assert_eq!(parse_i64(&chars("1.5")), None);
    assert_eq!(parse_i64(&chars("١٢")), None);
}

#[test]
fn parse_at_the_edges_of_the_range() {
    assert_eq!(parse_i64(&chars("9223372036854775807")), Some(i64::MAX));
    assert_eq!(parse_i64(&chars("-9223372036854775808")), Some(i64::MIN));
    assert_eq!(parse_i64(&chars("9223372036854775808")), None);
    assert_eq!(parse_i64(&chars("-9223372036854775809")), None);
    assert_eq!(parse_i64(&chars("99999999999999999999999999")), None);
    assert_eq!(parse_i64(&chars("92233720368547758070")), None);
}

#[test]
fn parse_agrees_with_the_standard_parser() {
    for text in ["5", "-5", "+5", "", "x", "0010", "9223372036854775807", "9223372036854775808", "-"] {
        assert_eq!(parse_i64(&chars(text)), text.parse::<i64>().ok(), "{:?}", text);
    }
}

#[test]
fn split_gives_one_piece_more_than_slashes() {
    assert_eq!(pieces(""), vec![""]);
    assert_eq!(pieces("tables"), vec!["tables"]);
    assert_eq!(pieces("tables/1/items"), vec!["tables", "1", "items"]);
    assert_eq!(pieces("/a"), vec!["", "a"]);
    assert_eq!(pieces("a/"), vec!["a", ""]);
    assert_eq!(pieces("a//b"), vec!["a", "", "b"]);
    assert_eq!(pieces("/"), vec!["", ""]);
}

#[test]
fn split_then_join_gives_the_text_back() {
    for text in ["", "/", "a/b", "//x//", "orders/7/items/9"] {
        assert_eq!(pieces(text).join("/"), text);
    }
}
