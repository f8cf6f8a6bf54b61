use bluestation::network_time::{encode_tetra_network_time, encode_tetra_network_time_inner, pack_network_time};
use chrono::{TimeZone, Utc};

#[test]
fn test_encode_known_time() {
    // 2026-02-15 12:00:00 UTC
    let dt = Utc.with_ymd_and_hms(2026, 2, 15, 12, 0, 0).unwrap();
    let tz = "Europe/Amsterdam";

    let value = encode_tetra_network_time_inner(dt.timestamp(), tz).unwrap();

    // Seconds since 2026-01-01 00:00 UTC:
    // Jan=31 days + 14 days (Feb 1-14) + 12 hours = 45 days + 12h
    let year_start = Utc.with_ymd_and_hms(2026, 1, 1, 0, 0, 0).unwrap();
    let expected_secs = (dt - year_start).num_seconds();
    let expected_utc_time = (expected_secs / 2) as u64;

    // Europe/Amsterdam in February = CET = UTC+1 -> offset_sign=0, offset=4 (4*15min=60min=1h)
    let expected_sign: u64 = 0;
    let expected_offset: u64 = 4; // 60 minutes / 15 = 4
    let expected_year: u64 = 26; // 2026 - 2000
    let expected_reserved: u64 = 0x7FF;

    let expected =
        (expected_utc_time << 24) | (expected_sign << 23) | (expected_offset << 17) | (expected_year << 11) | expected_reserved;

    assert_eq!(value, expected);

    // Verify individual fields by extraction
    assert_eq!((value >> 24) & 0xFF_FFFF, expected_utc_time);
    assert_eq!((value >> 23) & 1, 0); // positive offset
    assert_eq!((value >> 17) & 0x3F, 4); // +1h = 4 * 15min
    assert_eq!((value >> 11) & 0x3F, 26); // year 2026
    assert_eq!(value & 0x7FF, 0x7FF); // reserved
}

#[test]
fn test_encode_negative_offset() {
    // 2026-01-15 12:00:00 UTC, New York (EST = UTC-5)
    let dt = Utc.with_ymd_and_hms(2026, 1, 15, 12, 0, 0).unwrap();
    let tz = "America/New_York";

    let value = encode_tetra_network_time_inner(dt.timestamp(), tz).unwrap();

    assert_eq!((value >> 23) & 1, 1); // negative offset
    assert_eq!((value >> 17) & 0x3F, 20); // 5h = 300min / 15 = 20
    assert_eq!((value >> 11) & 0x3F, 26); // year 2026
    assert_eq!(value & 0x7FF, 0x7FF);
}

#[test]
fn test_encode_utc_timezone() {
    let dt = Utc.with_ymd_and_hms(2026, 2, 1, 0, 0, 0).unwrap();
    let tz = "UTC";

    let value = encode_tetra_network_time_inner(dt.timestamp(), tz).unwrap();

    assert_eq!((value >> 23) & 1, 0); // positive
    assert_eq!((value >> 17) & 0x3F, 0); // zero offset
}

#[test]
fn test_invalid_timezone() {
    assert!(encode_tetra_network_time("Invalid/Timezone").is_none());
}

#[test]
fn network_time_now_in_utc_is_some() {
    let value = encode_tetra_network_time("UTC").unwrap();
    assert_eq!(value & 0x7FF, 0x7FF);
    assert_eq!((value >> 17) & 0x7F, 0);
    assert!(value < 1 << 48);
}

#[test]
fn network_time_year_start_and_india() {
    // Exactly at the start of the year the UTC time field is zero.
    let dt = Utc.with_ymd_and_hms(2030, 1, 1, 0, 0, 0).unwrap();
    let value = encode_tetra_network_time_inner(dt.timestamp(), "Asia/Kolkata").unwrap();
    assert_eq!(value >> 24, 0);
    // UTC+5:30 is 22 quarter hours.
    assert_eq!((value >> 17) & 0x3F, 22);
    assert_eq!((value >> 11) & 0x3F, 30);
    assert_eq!(encode_tetra_network_time_inner(dt.timestamp(), "Nowhere/Special"), None);
}

#[test]
fn pack_network_time_fields() {
    assert_eq!(pack_network_time(0, 0, 2000), 0x7FF);
    assert_eq!(pack_network_time(3, 3600, 2001), (1 << 24) | (4 << 17) | (1 << 11) | 0x7FF);
    assert_eq!(pack_network_time(10, -900, 2064), (5 << 24) | (1 << 23) | (1 << 17) | 0x7FF);
    // Values below zero wrap as Rust's casts and masks do.
    assert_eq!(pack_network_time(-3, 0, 1999), ((((-3i64 / 2) as u64) & 0xFF_FFFF) << 24) | (((1999i64 - 2000) as u64 & 0x3F) << 11) | 0x7FF);
}
