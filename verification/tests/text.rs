use multicast_relay::text::{parse_u32, push_decimal};

#[test]
fn push_decimal_renders_numbers() {
    let cases: Vec<u64> = vec![0, 7, 10, 99, 100, 23502, 65535, 4294967295, u64::MAX];
    for n in cases {
        let mut s = String::from("x=");
        push_decimal(&mut s, n);
        assert_eq!(s, format!("x={}", n));
    }
}

#[test]
fn parse_u32_agrees_with_std() {
    let cases = vec![
        "0", "42", "007", "+7", "+", "-", "-1", "-0", "", " 1", "1 ", "12a", "4294967295",
        "4294967296", "99999999999999999999", "\u{663}", "+-1", "++1", "1_000",
    ];
    for c in cases {
        assert_eq!(parse_u32(c), c.parse::<u32>().ok(), "input {:?}", c);
    }
}

#[test]
fn parse_u32_exact_values() {
    assert_eq!(parse_u32("4294967295"), Some(u32::MAX));
    assert_eq!(parse_u32("+12"), Some(12));
    assert_eq!(parse_u32("4294967296"), None);
    assert_eq!(parse_u32(""), None);
}

#[test]
fn decimal_text_reads_back() {
    for n in [0u32, 1, 9, 10, 12345, u32::MAX] {
        let mut s = String::new();
        push_decimal(&mut s, n as u64);
        assert_eq!(parse_u32(&s), Some(n));
    }
}
