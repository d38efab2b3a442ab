use todo::text::{chars_of, parse_index, string_of, to_decimal};

#[test]
fn parse_index_reads_plain_digits() {
    assert_eq!(parse_index("1"), Some(1));
    assert_eq!(parse_index("42"), Some(42));
    assert_eq!(parse_index("0"), Some(0));
}

#[test]
fn parse_index_allows_a_plus_sign_and_leading_zeros() {
    assert_eq!(parse_index("+7"), Some(7));
    assert_eq!(parse_index("007"), Some(7));
    assert_eq!(parse_index("+000"), Some(0));
}

#[test]
fn parse_index_rejects_what_is_no_number() {
    assert_eq!(parse_index(""), None);
    assert_eq!(parse_index("+"), None);
    assert_eq!(parse_index("-1"), None);
    assert_eq!(parse_index("++1"), None);
    assert_eq!(parse_index("1a"), None);
    assert_eq!(parse_index("a1"), None);
    assert_eq!(parse_index(" 1"), None);
    assert_eq!(parse_index("1 "), None);
    assert_eq!(parse_index("1_000"), None);
    assert_eq!(parse_index("١"), None);
}

#[test]
fn parse_index_stops_at_the_machine_limit() {
    let max = usize::MAX.to_string();
    assert_eq!(parse_index(&max), Some(usize::MAX));
    let mut beyond = max.clone();
    beyond.push('0');
    assert_eq!(parse_index(&beyond), None);
    let last = max.len() - 1;
    let mut next = String::from(&max[..last]);
    next.push('6');
    assert_eq!(parse_index(&next), None);
}

#[test]
fn parse_index_agrees_with_the_standard_parser() {
    let inputs = [
        "", "+", "-", "0", "1", "9", "10", "+10", "-10", "0010", "12x", "x12", "1.5", "١٢",
        "99999999999999999999999999", "18446744073709551615", "18446744073709551616",
        "4294967295", "4294967296", "+-1", "1+", " 3", "3\n",
    ];
    for s in inputs {
        assert_eq!(parse_index(s), s.parse::<usize>().ok(), "input {:?}", s);
    }
}

#[test]
fn to_decimal_writes_numerals() {
    assert_eq!(to_decimal(0), "0");
    assert_eq!(to_decimal(9), "9");
    assert_eq!(to_decimal(10), "10");
    assert_eq!(to_decimal(12345), "12345");
    assert_eq!(to_decimal(1000), "1000");
    assert_eq!(to_decimal(usize::MAX), usize::MAX.to_string());
}

#[test]
fn to_decimal_then_parse_index_gives_the_number_back() {
    for n in [0usize, 1, 9, 10, 11, 99, 100, 101, 65535, 1 << 20, usize::MAX] {
        assert_eq!(parse_index(&to_decimal(n)), Some(n));
    }
}

#[test]
fn chars_of_keeps_every_character_in_order() {
    assert_eq!(chars_of(""), Vec::<char>::new());
    assert_eq!(chars_of("a é📭"), vec!['a', ' ', 'é', '📭']);
}

#[test]
fn string_of_copies_a_range_of_characters() {
    let chars = vec!['h', 'é', 'l', 'l', 'o'];
    assert_eq!(string_of(&chars, 0, 5), "héllo");
    assert_eq!(string_of(&chars, 1, 3), "él");
    assert_eq!(string_of(&chars, 2, 2), "");
    assert_eq!(string_of(&chars, 5, 5), "");
}
