use gateflow::text::{decimal_string, join, signed_decimal_string, str_eq, trim};

#[test]
fn decimal_renders_without_leading_zeros() {
    assert_eq!(decimal_string(0), "0");
    assert_eq!(decimal_string(7), "7");
    assert_eq!(decimal_string(10), "10");
    assert_eq!(decimal_string(1000), "1000");
    assert_eq!(decimal_string(u64::MAX), "18446744073709551615");
    assert_eq!(signed_decimal_string(i32::MIN), "-2147483648");
    assert_eq!(signed_decimal_string(0), "0");
}

#[test]
fn decimal_reads_back_as_the_number() {
    for n in [0u64, 9, 10, 99, 100, 4096, 268_435_456, u64::MAX] {
        assert_eq!(decimal_string(n).parse::<u64>().unwrap(), n);
    }
}

#[test]
fn join_inserts_one_separator() {
    assert_eq!(join("/a", "b"), "/a/b");
    assert_eq!(join("/a/", "b"), "/a/b");
    assert_eq!(join("", "b"), "b");
    assert_eq!(join("/", "b"), "/b");
}

#[test]
fn str_eq_compares_whole_text() {
    assert!(str_eq("delay_ms", "delay_ms"));
    assert!(!str_eq("delay_ms", "delay_m"));
    assert!(!str_eq("é", "e"));
    assert!(str_eq("", ""));
}

#[test]
fn trim_agrees_with_std() {
    for s in ["1\n", "  0 ", "\t\r\n", "", "a b", "\u{a0}x\u{3000}", "\u{200b}y", "1"] {
        assert_eq!(trim(s), s.trim(), "{s:?}");
    }
}
