use vstd::prelude::*;
use chrono::{Datelike, Offset, TimeZone};
use std::str::FromStr;

verus! {

/// The earliest year whose dates chrono represents.
pub open spec fn chrono_min_year() -> int {
    -262143
}

/// The latest year whose dates chrono represents.
pub open spec fn chrono_max_year() -> int {
    262142
}

/// Days from 1 January of year 1 to 1 January of `year` in the proleptic
/// Gregorian calendar (negative before year 1; year 0 is 1 BCE).
pub open spec fn days_before_year(year: int) -> int {
    365 * (year - 1) + (year - 1) / 4 - (year - 1) / 100 + (year - 1) / 400
}

/// Whether `year` is a leap year of the Gregorian calendar.
pub open spec fn is_leap_year(year: int) -> bool {
    year % 4 == 0 && (year % 100 != 0 || year % 400 == 0)
}

/// The Unix time of 1 January 00:00:00 UTC of `year`.
pub open spec fn year_start_secs(year: int) -> int {
    (days_before_year(year) - days_before_year(1970)) * 86400
}

/// Whether a Unix time falls in `year`.
pub open spec fn in_year(secs: int, year: int) -> bool {
    year_start_secs(year) <= secs < year_start_secs(year + 1)
}

/// Whether chrono represents the Unix time: whether it falls in a year that
/// chrono represents.
pub open spec fn utc_representable(secs: int) -> bool {
    year_start_secs(chrono_min_year()) <= secs < year_start_secs(chrono_max_year() + 1)
}

/// The UTC calendar year of a Unix time.
pub open spec fn utc_year_of(secs: int) -> int {
    choose|year: int| in_year(secs, year)
}

/// A year is 365 days long, 366 in a leap year.
pub proof fn lemma_year_length(year: int)
    ensures
        days_before_year(year + 1) - days_before_year(year) == if is_leap_year(year) { 366int } else { 365int },
{
    lemma_div_step(year, 4);
    lemma_div_step(year, 100);
    lemma_div_step(year, 400);
    assert(year % 100 == 0 ==> year % 4 == 0) by {
        vstd::arithmetic::div_mod::lemma_fundamental_div_mod(year, 100);
        vstd::arithmetic::div_mod::lemma_fundamental_div_mod_converse(year, 4, 25 * (year / 100) + (year % 100) / 4, (year % 100) % 4);
    }
    assert(year % 400 == 0 ==> year % 100 == 0) by {
        vstd::arithmetic::div_mod::lemma_fundamental_div_mod(year, 400);
        vstd::arithmetic::div_mod::lemma_fundamental_div_mod_converse(year, 100, 4 * (year / 400) + (year % 400) / 100, (year % 400) % 100);
    }
}

/// Stepping from `year - 1` to `year` adds one to the floor of the quotient
/// by `k` exactly where `k` divides `year`.
proof fn lemma_div_step(year: int, k: int)
    requires
        k > 0,
    ensures
        year / k - (year - 1) / k == if year % k == 0 { 1int } else { 0int },
{
    vstd::arithmetic::div_mod::lemma_fundamental_div_mod(year, k);
    let q = year / k;
    let r = year % k;
    vstd::arithmetic::div_mod::lemma_mod_bound(year, k);
    assert((q - 1) * k == q * k - k) by (nonlinear_arith);
    assert(k * q == q * k) by (nonlinear_arith);
    if r == 0 {
        vstd::arithmetic::div_mod::lemma_fundamental_div_mod_converse(year - 1, k, q - 1, k - 1);
    } else {
        vstd::arithmetic::div_mod::lemma_fundamental_div_mod_converse(year - 1, k, q, r - 1);
    }
}

/// Years start later the later they are.
pub proof fn lemma_year_start_monotone(a: int, b: int)
    requires
        a <= b,
    ensures
        year_start_secs(a) <= year_start_secs(b),
    decreases b - a,
{
    if a < b {
        lemma_year_length(a);
        lemma_year_start_monotone(a + 1, b);
    }
}

/// A Unix time falls in one year at most, and that year is `utc_year_of`.
pub proof fn lemma_year_unique(secs: int, year: int)
    requires
        in_year(secs, year),
    ensures
        utc_year_of(secs) == year,
{
    let other = utc_year_of(secs);
    assert(in_year(secs, other));
    if other < year {
        lemma_year_start_monotone(other + 1, year);
    } else if year < other {
        lemma_year_start_monotone(year + 1, other);
    }
}

/// The offset of local time from UTC, in seconds east of UTC, in the IANA time
/// zone named `tz_name` at a Unix time, as chrono-tz gives it; `None` where
/// the name is no time zone chrono-tz knows or chrono cannot represent the time.
pub uninterp spec fn chrono_tz_offset(tz_name: Seq<char>, secs: i64) -> Option<i32>;

/// Whether chrono-tz's `Tz::from_str` accepts the name.
pub uninterp spec fn chrono_tz_known(tz_name: Seq<char>) -> bool;

/// Calls chrono's `DateTime::<Utc>::from_timestamp(secs, 0)` and takes the
/// year of the result. Claims that chrono gives a result exactly where the
/// time falls in a year from `chrono_min_year()` to `chrono_max_year()` (the
/// range of its `NaiveDate`, which `from_num_days_from_ce_opt` checks), and
/// that the year is the proleptic Gregorian year that the time falls in.
#[verifier::external_body]
fn utc_year_at(secs: i64) -> (res: Option<i32>)
    ensures
        (res is Some) == utc_representable(secs as int),
        res matches Some(year) ==> in_year(secs as int, year as int),
{
    match chrono::DateTime::from_timestamp(secs, 0) {
        Some(dt) => Some(dt.year()),
        None => None,
    }
}

/// Calls chrono's `Utc.with_ymd_and_hms(year, 1, 1, 0, 0, 0).single()` and
/// takes the Unix time of the result. Claims that there is one exactly for
/// the years from `chrono_min_year()` to `chrono_max_year()` (the check in
/// `NaiveDate::from_ymd_opt`; UTC maps every local time to one instant), and
/// that it is the first second of the year in the proleptic Gregorian calendar.
#[verifier::external_body]
fn utc_year_start(year: i32) -> (res: Option<i64>)
    ensures
        (res is Some) == (chrono_min_year() <= year <= chrono_max_year()),
        res matches Some(start) ==> start == year_start_secs(year as int),
{
    match chrono::Utc.with_ymd_and_hms(year, 1, 1, 0, 0, 0).single() {
        Some(dt) => Some(dt.timestamp()),
        None => None,
    }
}

/// Parses the time zone name with chrono-tz's `Tz::from_str` and, at the
/// Unix time converted by chrono's `DateTime::from_timestamp`, takes
/// `offset().fix().local_minus_utc()` of the time in that zone. Claims that
/// the result is `chrono_tz_offset(tz_name@, secs)`, and that there is one
/// exactly where the name parses and the time converts (the same conversion
/// that `utc_year_at` makes).
#[verifier::external_body]
fn tz_offset_at(tz_name: &str, secs: i64) -> (res: Option<i32>)
    ensures
        res == chrono_tz_offset(tz_name@, secs),
        (res is Some) == (chrono_tz_known(tz_name@) && utc_representable(secs as int)),
{
    match (chrono_tz::Tz::from_str(tz_name), chrono::DateTime::from_timestamp(secs, 0)) {
        (Ok(tz), Some(dt)) => Some(dt.with_timezone(&tz).offset().fix().local_minus_utc()),
        _ => None,
    }
}

/// Calls chrono-tz's `Tz::from_str` and tells whether it accepted the name.
#[verifier::external_body]
fn tz_is_known(tz_name: &str) -> (res: bool)
    ensures
        res == chrono_tz_known(tz_name@),
{
    chrono_tz::Tz::from_str(tz_name).is_ok()
}

/// Reads the system clock as chrono's `Utc::now()` does, without its panics:
/// the whole seconds since the Unix epoch that std's `UNIX_EPOCH.elapsed()`
/// gives, passed through chrono's `DateTime::from_timestamp(secs, 0)`.
/// `None` where the clock reads before 1970 or a time chrono cannot
/// represent, the cases in which `Utc::now()` panics. Claims only that a
/// reading is a time chrono represents (the same conversion that
/// `utc_year_at` makes); which time it is, is the system clock's.
#[verifier::external_body]
fn now_utc_secs() -> (res: Option<i64>)
    ensures
        res matches Some(secs) ==> utc_representable(secs as int),
{
    match std::time::UNIX_EPOCH.elapsed() {
        Ok(d) => match chrono::DateTime::from_timestamp(d.as_secs() as i64, 0) {
            Some(dt) => Some(dt.timestamp()),
            None => None,
        },
        Err(_) => None,
    }
}

/// `d / 2` rounded toward zero, as Rust's integer division gives it.
pub open spec fn half_toward_zero(d: int) -> int {
    if d >= 0 {
        d / 2
    } else {
        -((-d) / 2)
    }
}

/// UTC time field: seconds since the start of the year, halved, in 24 bits.
pub open spec fn spec_utc_time_field(secs_since_year_start: int) -> int {
    half_toward_zero(secs_since_year_start) % 0x100_0000
}

/// Local time offset sign field: 1 where local time is west of UTC.
pub open spec fn spec_offset_sign_field(offset_secs: int) -> int {
    if offset_secs < 0 { 1 } else { 0 }
}

/// Local time offset field: magnitude in 15-minute steps, in 6 bits.
pub open spec fn spec_offset_field(offset_secs: int) -> int {
    ((if offset_secs < 0 { -offset_secs } else { offset_secs }) / 900) % 64
}

/// Year field: the year minus 2000, in 6 bits.
pub open spec fn spec_year_field(year: int) -> int {
    (year - 2000) % 64
}

/// The 48-bit TETRA network time (clause 18.5.24), most significant first:
/// UTC time (24 bits), offset sign (1 bit), offset (6 bits), year (6 bits),
/// and 11 reserved bits set to 1.
pub open spec fn spec_pack_network_time(secs_since_year_start: int, offset_secs: int, year: int) -> int {
    spec_utc_time_field(secs_since_year_start) * 0x100_0000
        + spec_offset_sign_field(offset_secs) * 0x80_0000
        + spec_offset_field(offset_secs) * 0x2_0000
        + spec_year_field(year) * 0x800
        + 0x7FF
}

/// The network time at Unix time `now_utc_secs` in the time zone named
/// `tz_name`, from what chrono gives for the year, its start and the offset.
pub open spec fn spec_network_time(now_utc_secs: i64, tz_name: Seq<char>) -> Option<u64> {
    if !utc_representable(now_utc_secs as int) {
        None
    } else {
        let year = utc_year_of(now_utc_secs as int);
        match chrono_tz_offset(tz_name, now_utc_secs) {
            None => None,
            Some(offset) => Some(spec_pack_network_time(now_utc_secs - year_start_secs(year), offset as int, year) as u64),
        }
    }
}

/// Packs the fields of a 48-bit TETRA network time (clause 18.5.24).
pub fn pack_network_time(secs_since_year_start: i64, offset_secs: i32, year: i32) -> (res: u64)
    ensures
        res == spec_pack_network_time(secs_since_year_start as int, offset_secs as int, year as int),
        res < 0x1_0000_0000_0000,
        (res >> 24u64) & 0xFF_FFFF == spec_utc_time_field(secs_since_year_start as int),
        (res >> 23u64) & 1 == spec_offset_sign_field(offset_secs as int),
        (res >> 17u64) & 0x3F == spec_offset_field(offset_secs as int),
        (res >> 11u64) & 0x3F == spec_year_field(year as int),
        res & 0x7FF == 0x7FF,
{
    // Seconds since the start of the year, halved toward zero, reduced to 24 bits.
    let d = secs_since_year_start as i128;
    let half: i128 = if d >= 0 {
        (d as u128 / 2) as i128
    } else {
        -(((-d) as u128 / 2) as i128)
    };
    let utc_time: u64 = if half >= 0 {
        (half as u128 % 0x100_0000) as u64
    } else {
        let r = ((-half) as u128 % 0x100_0000) as u64;
        if r == 0 { 0 } else { 0x100_0000 - r }
    };
    // Offset from UTC: sign, and magnitude in 15-minute steps, reduced to 6 bits.
    let offset_sign: u64 = if offset_secs < 0 { 1 } else { 0 };
    let magnitude: u64 = if offset_secs < 0 { (-(offset_secs as i64)) as u64 } else { offset_secs as u64 };
    let offset_magnitude: u64 = (magnitude / 900) % 64;
    // Year relative to 2000, reduced to 6 bits.
    let y = year as i64 - 2000;
    let year_field: u64 = if y >= 0 {
        (y as u64) % 64
    } else {
        let r = ((-y) as u64) % 64;
        if r == 0 { 0 } else { 64 - r }
    };
    // Reserved bits set to all 1s.
    let reserved: u64 = 0x7FF;
    proof {
        assert(utc_time == spec_utc_time_field(secs_since_year_start as int)) by {
            if half < 0 {
                let r = (-half) % 0x100_0000;
                vstd::arithmetic::div_mod::lemma_fundamental_div_mod(-half as int, 0x100_0000);
                if r != 0 {
                    vstd::arithmetic::div_mod::lemma_fundamental_div_mod_converse(
                        half as int, 0x100_0000, -((-half) / 0x100_0000) - 1, 0x100_0000 - r);
                } else {
                    vstd::arithmetic::div_mod::lemma_fundamental_div_mod_converse(
                        half as int, 0x100_0000, -((-half) / 0x100_0000), 0);
                }
            }
        }
        assert(year_field == spec_year_field(year as int)) by {
            if y < 0 {
                let r = (-y) % 64;
                vstd::arithmetic::div_mod::lemma_fundamental_div_mod(-y as int, 64);
                if r != 0 {
                    vstd::arithmetic::div_mod::lemma_fundamental_div_mod_converse(y as int, 64, -((-y) / 64) - 1, 64 - r);
                } else {
                    vstd::arithmetic::div_mod::lemma_fundamental_div_mod_converse(y as int, 64, -((-y) / 64), 0);
                }
            }
        }
    }
    let value = (utc_time << 24u64) | (offset_sign << 23u64) | (offset_magnitude << 17u64) | (year_field << 11u64) | reserved;
    proof {
        lemma_pack_fields(utc_time, offset_sign, offset_magnitude, year_field, value);
    }
    value
}

/// Or-ing shifted fields that fit their widths adds them, and the fields can
/// be read back by shifting and masking.
proof fn lemma_pack_fields(a: u64, b: u64, c: u64, d: u64, v: u64)
    requires
        a < 0x100_0000,
        b < 2,
        c < 64,
        d < 64,
        v == (a << 24u64) | (b << 23u64) | (c << 17u64) | (d << 11u64) | 0x7FFu64,
    ensures
        v == a * 0x100_0000 + b * 0x80_0000 + c * 0x2_0000 + d * 0x800 + 0x7FF,
        v < 0x1_0000_0000_0000,
        (v >> 24u64) & 0xFF_FFFF == a,
        (v >> 23u64) & 1 == b,
        (v >> 17u64) & 0x3F == c,
        (v >> 11u64) & 0x3F == d,
        v & 0x7FF == 0x7FF,
{
    assert(v == a * 0x100_0000 + b * 0x80_0000 + c * 0x2_0000 + d * 0x800 + 0x7FF) by (bit_vector)
        requires
            a < 0x100_0000,
            b < 2,
            c < 64,
            d < 64,
            v == (a << 24u64) | (b << 23u64) | (c << 17u64) | (d << 11u64) | 0x7FFu64,
    ;
    assert(v < 0x1_0000_0000_0000 && (v >> 24u64) & 0xFF_FFFF == a && (v >> 23u64) & 1 == b
        && (v >> 17u64) & 0x3F == c && (v >> 11u64) & 0x3F == d && v & 0x7FF == 0x7FF) by (bit_vector)
        requires
            a < 0x100_0000,
            b < 2,
            c < 64,
            d < 64,
            v == (a << 24u64) | (b << 23u64) | (c << 17u64) | (d << 11u64) | 0x7FFu64,
    ;
}

/// Adding fields that fit their widths at their places puts each field, read
/// back by shifting and masking, where it was placed.
proof fn lemma_pack_sum_fields(a: u64, b: u64, c: u64, d: u64, v: u64)
    requires
        a < 0x100_0000,
        b < 2,
        c < 64,
        d < 64,
        v == a * 0x100_0000 + b * 0x80_0000 + c * 0x2_0000 + d * 0x800 + 0x7FF,
    ensures
        (v >> 24u64) & 0xFF_FFFF == a,
        (v >> 23u64) & 1 == b,
        (v >> 17u64) & 0x3F == c,
        (v >> 11u64) & 0x3F == d,
        v & 0x7FF == 0x7FF,
{
    assert((v >> 24u64) & 0xFF_FFFF == a && (v >> 23u64) & 1 == b && (v >> 17u64) & 0x3F == c
        && (v >> 11u64) & 0x3F == d && v & 0x7FF == 0x7FF) by (bit_vector)
        requires
            a < 0x100_0000,
            b < 2,
            c < 64,
            d < 64,
            v == a * 0x100_0000 + b * 0x80_0000 + c * 0x2_0000 + d * 0x800 + 0x7FF,
    ;
}

/// What the network time at a Unix time says, field by field: the time
/// exists exactly where chrono places the time in a year and chrono-tz gives
/// the zone an offset at that very time; its UTC field is half the seconds
/// since 1 January 00:00 UTC of the year the time falls in, in 24 bits; its
/// sign bit is set exactly where that offset is west of UTC; its offset field
/// is the offset's magnitude in whole quarter hours, in 6 bits; its year field
/// is the year minus 2000, in 6 bits; its 11 lowest bits are all set.
pub proof fn lemma_network_time_fields(now: i64, tz_name: Seq<char>, year: int)
    requires
        in_year(now as int, year),
    ensures
        (spec_network_time(now, tz_name) is Some)
            == (utc_representable(now as int) && chrono_tz_offset(tz_name, now) is Some),
        spec_network_time(now, tz_name) matches Some(v) ==> chrono_tz_offset(tz_name, now) matches Some(offset) && {
            &&& v < 0x1_0000_0000_0000
            &&& (v >> 24u64) & 0xFF_FFFF == ((now - year_start_secs(year)) / 2) % 0x100_0000
            &&& ((v >> 23u64) & 1 == 1) == (offset < 0)
            &&& (v >> 23u64) & 1 <= 1
            &&& (v >> 17u64) & 0x3F == ((if offset < 0 { -offset } else { offset as int }) / 900) % 64
            &&& (v >> 11u64) & 0x3F == (year - 2000) % 64
            &&& v & 0x7FF == 0x7FF
        },
{
    lemma_year_unique(now as int, year);
    if spec_network_time(now, tz_name) is Some {
        let offset = chrono_tz_offset(tz_name, now).unwrap();
        let secs = now - year_start_secs(year);
        assert(secs >= 0);
        let a = spec_utc_time_field(secs);
        let b = spec_offset_sign_field(offset as int);
        let c = spec_offset_field(offset as int);
        let d = spec_year_field(year);
        let total = spec_pack_network_time(secs, offset as int, year);
        assert(0 <= a < 0x100_0000 && 0 <= b < 2 && 0 <= c < 64 && 0 <= d < 64);
        assert(total == a * 0x100_0000 + b * 0x80_0000 + c * 0x2_0000 + d * 0x800 + 0x7FF);
        assert(0 <= total < 0x1_0000_0000_0000);
        let v = total as u64;
        assert(v == total);
        lemma_pack_sum_fields(a as u64, b as u64, c as u64, d as u64, v);
    }
}

/// The 48-bit TETRA network time at Unix time `now_utc_secs` (whole seconds)
/// in the IANA time zone named `tz_name`; `None` where the zone is unknown or
/// chrono cannot place the time.
pub fn encode_tetra_network_time_inner(now_utc_secs: i64, tz_name: &str) -> (res: Option<u64>)
    ensures
        res == spec_network_time(now_utc_secs, tz_name@),
        res is Some <==> chrono_tz_known(tz_name@) && utc_representable(now_utc_secs as int),
        res matches Some(v) ==> chrono_tz_offset(tz_name@, now_utc_secs) matches Some(offset) && {
            &&& ((v >> 23u64) & 1 == 1) == (offset < 0)
            &&& (v >> 17u64) & 0x3F == ((if offset < 0 { -offset } else { offset as int }) / 900) % 64
            &&& (v >> 11u64) & 0x3F == (utc_year_of(now_utc_secs as int) - 2000) % 64
            &&& (v >> 24u64) & 0xFF_FFFF
                == ((now_utc_secs - year_start_secs(utc_year_of(now_utc_secs as int))) / 2) % 0x100_0000
        },
{
    let year = match utc_year_at(now_utc_secs) {
        Some(y) => y,
        None => return None,
    };
    proof {
        lemma_year_unique(now_utc_secs as int, year as int);
        lemma_year_length(year as int);
        if (year as int) < chrono_min_year() {
            lemma_year_start_monotone(year as int + 1, chrono_min_year());
        }
        if (year as int) > chrono_max_year() {
            lemma_year_start_monotone(chrono_max_year() + 1, year as int);
        }
    }
    let year_start = match utc_year_start(year) {
        Some(s) => s,
        None => return None,
    };
    let secs_since_year_start = match now_utc_secs.checked_sub(year_start) {
        Some(d) => d,
        None => return None,
    };
    let offset_secs = match tz_offset_at(tz_name, now_utc_secs) {
        Some(o) => o,
        None => return None,
    };
    let value = pack_network_time(secs_since_year_start, offset_secs, year);
    proof {
        lemma_network_time_fields(now_utc_secs, tz_name@, year as int);
    }
    Some(value)
}

/// The 48-bit TETRA network time now, in the IANA time zone named `tz_name`;
/// `None` where the zone is unknown, or where the system clock gives no
/// reading (see `now_utc_secs`). Which time the clock reads, and whether it
/// gives a reading, is not stated: both are the machine's.
pub fn encode_tetra_network_time(tz_name: &str) -> (res: Option<u64>)
    ensures
        !chrono_tz_known(tz_name@) ==> res is None,
        res is Some ==> exists|now: i64| utc_representable(now as int) && res == #[trigger] spec_network_time(now, tz_name@),
{
    if !tz_is_known(tz_name) {
        return None;
    }
    let now = match now_utc_secs() {
        Some(s) => s,
        None => return None,
    };
    let res = encode_tetra_network_time_inner(now, tz_name);
    assert(res == spec_network_time(now, tz_name@));
    res
}

} // verus!
