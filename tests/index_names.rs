use bragi_status::index::{build_time, decode_index, decode_indices, parse_count, visibility};
use bragi_status::model::{ElasticsearchIndexInfoDetails, PrivateStatus};
use bragi_status::time::UtcDateTime;

fn entry(index: &str, count: &str) -> ElasticsearchIndexInfoDetails {
    ElasticsearchIndexInfoDetails {
        health: String::from("green"),
        status: String::from("open"),
        index: String::from(index),
        prim: 1,
        rep: 0,
        count: String::from(count),
        deleted: String::from("0"),
        size: String::from("1kb"),
        pri_size: String::from("1kb"),
    }
}

fn at(year: i32, month: u32, day: u32, hour: u32, minute: u32, second: u32) -> UtcDateTime {
    UtcDateTime { year, month, day, hour, minute, second }
}

#[test]
fn decodes_private_index() {
    let now = at(2024, 5, 6, 7, 8, 9);
    let r = decode_index(&entry("munin_addr_priv.fr_20200101_000000", "42"), now).unwrap();
    assert_eq!(r.label, "munin_addr_priv.fr_20200101_000000");
    assert_eq!(r.place_type, "addr");
    assert_eq!(r.coverage, "fr");
    assert_eq!(r.private, PrivateStatus::Private);
    assert_eq!(r.date, at(2020, 1, 1, 0, 0, 0));
    assert_eq!(r.count, 42);
    assert_eq!(r.updated_at, now);
}

#[test]
fn private_prefix_is_stripped() {
    let now = at(2024, 1, 1, 0, 0, 0);
    let r = decode_index(&entry("munin_poi_priv.europe_20210315_123456", "7"), now).unwrap();
    assert_eq!(r.private, PrivateStatus::Private);
    assert_eq!(r.coverage, "europe");
    let r = decode_index(&entry("munin_poi_europe_20210315_123456", "7"), now).unwrap();
    assert_eq!(r.private, PrivateStatus::Public);
    assert_eq!(r.coverage, "europe");
    assert_eq!(r.date, at(2021, 3, 15, 12, 34, 56));
}

#[test]
fn visibility_of_tokens() {
    assert_eq!(visibility("priv.europe"), (PrivateStatus::Private, String::from("europe")));
    assert_eq!(visibility("europe"), (PrivateStatus::Public, String::from("europe")));
    assert_eq!(visibility("priv."), (PrivateStatus::Private, String::new()));
    assert_eq!(visibility("priv"), (PrivateStatus::Public, String::from("priv")));
    assert_eq!(visibility("xpriv.fr"), (PrivateStatus::Public, String::from("xpriv.fr")));
}

#[test]
fn malformed_date_and_time_fall_back() {
    let now = at(2024, 1, 1, 0, 0, 0);
    let r = decode_index(&entry("munin_addr_fr_notadate_nottime", "1"), now).unwrap();
    assert_eq!(r.date, at(1970, 1, 1, 0, 1, 1));
}

#[test]
fn malformed_date_keeps_readable_time() {
    assert_eq!(build_time("abcdefgh", "120000"), at(1970, 1, 1, 12, 0, 0));
    assert_eq!(build_time("20200230", "000000"), at(1970, 1, 1, 0, 0, 0));
    assert_eq!(build_time("20200229", "99"), at(2020, 2, 29, 0, 1, 1));
}

#[test]
fn build_time_reads_both_tokens() {
    assert_eq!(build_time("19991231", "235959"), at(1999, 12, 31, 23, 59, 59));
}

#[test]
fn non_numeric_count_is_zero() {
    assert_eq!(parse_count("abc"), 0);
    assert_eq!(parse_count(""), 0);
    assert_eq!(parse_count("-3"), 0);
    assert_eq!(parse_count("+"), 0);
    assert_eq!(parse_count("12a"), 0);
    assert_eq!(parse_count("4294967296"), 0);
    assert_eq!(parse_count("4294967295"), 4294967295);
    assert_eq!(parse_count("+17"), 17);
    assert_eq!(parse_count("0042"), 42);
    let now = at(2024, 1, 1, 0, 0, 0);
    let r = decode_index(&entry("munin_addr_fr_20200101_000000", "many"), now).unwrap();
    assert_eq!(r.count, 0);
}

#[test]
fn short_names_are_skipped() {
    let now = at(2024, 1, 1, 0, 0, 0);
    assert!(decode_index(&entry("munin_addr_fr_20200101", "1"), now).is_none());
    assert!(decode_index(&entry("", "1"), now).is_none());
    assert!(decode_index(&entry(".kibana", "1"), now).is_none());
    let r = decode_index(&entry("a_b_c_20200101_000000_extra", "1"), now).unwrap();
    assert_eq!(r.place_type, "b");
    assert_eq!(r.coverage, "c");
    let r = decode_index(&entry("___", "1"), now);
    assert!(r.is_none());
    let r = decode_index(&entry("____", "1"), now).unwrap();
    assert_eq!(r.place_type, "");
    assert_eq!(r.date, at(1970, 1, 1, 0, 1, 1));
}

#[test]
fn decoding_is_deterministic_but_for_the_stamp() {
    let e = entry("munin_stop_area_20200101_101010", "5");
    let a = decode_index(&e, at(2024, 1, 1, 0, 0, 0)).unwrap();
    let b = decode_index(&e, at(2025, 2, 2, 1, 1, 1)).unwrap();
    assert_eq!(a.label, b.label);
    assert_eq!(a.place_type, b.place_type);
    assert_eq!(a.coverage, b.coverage);
    assert_eq!(a.private, b.private);
    assert_eq!(a.date, b.date);
    assert_eq!(a.count, b.count);
    assert_eq!(b.updated_at, at(2025, 2, 2, 1, 1, 1));
    assert_eq!(a.place_type, "stop");
    assert_eq!(a.coverage, "area");
    assert_eq!(a.date, at(2020, 1, 1, 10, 10, 10));
}

#[test]
fn catalog_keeps_order_and_skips_short_names() {
    let now = at(2024, 1, 1, 0, 0, 0);
    let entries = vec![
        entry("munin_addr_fr_20200101_000000", "1"),
        entry(".tasks", "9"),
        entry("munin_poi_priv.be_20200202_020202", "2"),
    ];
    let r = decode_indices(&entries, now);
    assert_eq!(r.len(), 2);
    assert_eq!(r[0].coverage, "fr");
    assert_eq!(r[1].coverage, "be");
    assert_eq!(r[1].private, PrivateStatus::Private);
    assert_eq!(r[1].count, 2);
    assert!(decode_indices(&Vec::new(), now).is_empty());
}
