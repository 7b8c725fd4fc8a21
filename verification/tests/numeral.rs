use dumb_init::numeral::parse_small;

#[test]
fn numbers_up_to_the_highest_signal_are_read() {
    for n in 0..=31 {
        assert_eq!(parse_small(&n.to_string()), Some(n));
    }
    assert_eq!(parse_small("32"), None);
    assert_eq!(parse_small("40"), None);
    assert_eq!(parse_small("99"), None);
    assert_eq!(parse_small("310"), None);
}

#[test]
fn leading_zeros_and_signs_are_read() {
    assert_eq!(parse_small("007"), Some(7));
    assert_eq!(parse_small("00000000000000000000000031"), Some(31));
    assert_eq!(parse_small("+5"), Some(5));
    assert_eq!(parse_small("-0"), Some(0));
    assert_eq!(parse_small("-1"), None);
    assert_eq!(parse_small("-31"), None);
}

#[test]
fn text_that_is_no_numeral_is_refused() {
    assert_eq!(parse_small(""), None);
    assert_eq!(parse_small("+"), None);
    assert_eq!(parse_small("-"), None);
    assert_eq!(parse_small("--1"), None);
    assert_eq!(parse_small("1a"), None);
    assert_eq!(parse_small("a1"), None);
    assert_eq!(parse_small(" 1"), None);
    assert_eq!(parse_small("1 "), None);
    assert_eq!(parse_small("1_0"), None);
    assert_eq!(parse_small("\u{663}"), None);
    assert_eq!(parse_small("1\u{663}"), None);
    assert_eq!(parse_small("99999999999999999999999999"), None);
}
