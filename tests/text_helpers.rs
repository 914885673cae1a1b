use bragi_status::text::{decimal, parse_u32, split_on, starts_with};

#[test]
fn split_matches_str_split() {
    for s in ["", "a", "a_b", "_a_", "__", "munin_addr_fr_20200101_000000", "é_ü"] {
        let expected: Vec<String> = s.split('_').map(String::from).collect();
        assert_eq!(split_on(s, '_'), expected);
    }
}

#[test]
fn decimal_writes_numbers() {
    assert_eq!(decimal(0), "0");
    assert_eq!(decimal(7), "7");
    assert_eq!(decimal(9200), "9200");
    assert_eq!(decimal(65535), "65535");
    assert_eq!(decimal(u64::MAX), "18446744073709551615");
}

#[test]
fn parse_u32_matches_std() {
    for s in ["", "+", "0", "+0", "-0", "42", "007", "4294967295", "4294967296", "99999999999", "1 ", " 1", "١"] {
        assert_eq!(parse_u32(s), s.parse::<u32>().ok(), "{}", s);
    }
}

#[test]
fn prefix_test() {
    assert!(starts_with("priv.fr", "priv."));
    assert!(starts_with("abc", ""));
    assert!(!starts_with("pri", "priv."));
    assert!(!starts_with("Priv.fr", "priv."));
}
