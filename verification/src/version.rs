//! Version information embedded in the Windows executables: the packed
//! version number, its text form, the build day count and the copyright
//! line.
use vstd::prelude::*;

use crate::text::{decimal, push_decimal};

verus! {

/// The packed version: major, minor and patch in the top three 16-bit
/// fields and the build in the low bits, combined by bitwise or.
pub open spec fn version_number_spec(major: u64, minor: u64, patch: u64, build: u64) -> u64 {
    (major << 48u64) | (minor << 32u64) | (patch << 16u64) | build
}

/// Packs a version number.
pub fn version_number(major: u64, minor: u64, patch: u64, build: u64) -> (r: u64)
    ensures
        r == version_number_spec(major, minor, patch, build),
{
    (major << 48u64) | (minor << 32u64) | (patch << 16u64) | build
}

/// With every part below `2^16`, the packed version is the weighted sum of
/// the parts and each part can be read back from its field.
pub proof fn lemma_version_fields(major: u64, minor: u64, patch: u64, build: u64)
    requires
        major < 0x10000,
        minor < 0x10000,
        patch < 0x10000,
        build < 0x10000,
    ensures
        version_number_spec(major, minor, patch, build) as int == major * 0x1_0000_0000_0000 + minor * 0x1_0000_0000
            + patch * 0x10000 + build,
        version_number_spec(major, minor, patch, build) >> 48u64 == major,
        (version_number_spec(major, minor, patch, build) >> 32u64) & 0xffff == minor,
        (version_number_spec(major, minor, patch, build) >> 16u64) & 0xffff == patch,
        version_number_spec(major, minor, patch, build) & 0xffff == build,
{
    assert(((major << 48u64) | (minor << 32u64) | (patch << 16u64) | build) as int == major * 0x1_0000_0000_0000
        + minor * 0x1_0000_0000 + patch * 0x10000 + build) by (bit_vector)
        requires
            major < 0x10000,
            minor < 0x10000,
            patch < 0x10000,
            build < 0x10000,
    ;
    assert(((major << 48u64) | (minor << 32u64) | (patch << 16u64) | build) >> 48u64 == major) by (bit_vector)
        requires
            major < 0x10000,
            minor < 0x10000,
            patch < 0x10000,
            build < 0x10000,
    ;
    assert((((major << 48u64) | (minor << 32u64) | (patch << 16u64) | build) >> 32u64) & 0xffff == minor)
        by (bit_vector)
        requires
            major < 0x10000,
            minor < 0x10000,
            patch < 0x10000,
            build < 0x10000,
    ;
    assert((((major << 48u64) | (minor << 32u64) | (patch << 16u64) | build) >> 16u64) & 0xffff == patch)
        by (bit_vector)
        requires
            major < 0x10000,
            minor < 0x10000,
            patch < 0x10000,
            build < 0x10000,
    ;
    assert(((major << 48u64) | (minor << 32u64) | (patch << 16u64) | build) & 0xffff == build) by (bit_vector)
        requires
            major < 0x10000,
            minor < 0x10000,
            patch < 0x10000,
            build < 0x10000,
    ;
}

/// The version text `major.minor.patch.build`.
pub fn version_string(major: u64, minor: u64, patch: u64, build: u64) -> (r: String)
    ensures
        r@ == decimal(major as nat) + "."@ + decimal(minor as nat) + "."@ + decimal(patch as nat) + "."@
            + decimal(build as nat),
{
    let mut r = String::new();
    push_decimal(&mut r, major);
    r.append(".");
    push_decimal(&mut r, minor);
    r.append(".");
    push_decimal(&mut r, patch);
    r.append(".");
    push_decimal(&mut r, build);
    r
}

/// The copyright line for the current year.
pub fn copyright(year: u32) -> (r: String)
    ensures
        r@ == "Copyright © 2012-"@ + decimal(year as nat) + " Virtual Cable S.L.U."@,
{
    let mut r = String::from_str("Copyright © 2012-");
    push_decimal(&mut r, year as u64);
    r.append(" Virtual Cable S.L.U.");
    r
}

/// Whether `y` is a leap year of the Gregorian calendar.
pub open spec fn is_leap(y: int) -> bool {
    (y % 4 == 0 && y % 100 != 0) || y % 400 == 0
}

/// Days in month `m` (1 to 12) of year `y`.
pub open spec fn month_len(y: int, m: int) -> int {
    if m == 2 {
        if is_leap(y) {
            29
        } else {
            28
        }
    } else if m == 4 || m == 6 || m == 9 || m == 11 {
        30
    } else {
        31
    }
}

/// Days of year `y` before month `m`.
pub open spec fn days_before_month(y: int, m: int) -> int
    decreases m,
{
    if m <= 1 {
        0
    } else {
        days_before_month(y, m - 1) + month_len(y, m - 1)
    }
}

/// Whether a calendar date exists in the range that `chrono` represents.
pub open spec fn valid_date(y: i32, m: u32, d: u32) -> bool {
    &&& -262143 <= y <= 262142
    &&& 1 <= m <= 12
    &&& 1 <= d <= month_len(y as int, m as int)
}

/// The day number of a date in the proleptic Gregorian calendar, with
/// 1 January of year 1 as day 1.
pub open spec fn days_from_ce_spec(y: i32, m: u32, d: u32) -> int {
    let p = y as int - 1;
    365 * p + p / 4 - p / 100 + p / 400 + days_before_month(y as int, m as int) + d as int
}

/// Calls `chrono::NaiveDate::from_ymd_opt` and, for a date that exists,
/// `Datelike::num_days_from_ce`: `None` for a date that does not exist or
/// is out of `chrono`'s range, else the date's day number.
#[verifier::external_body]
fn days_from_ce(y: i32, m: u32, d: u32) -> (r: Option<i32>)
    ensures
        r is Some <==> valid_date(y, m, d),
        r is Some ==> r->0 as int == days_from_ce_spec(y, m, d),
{
    match chrono::NaiveDate::from_ymd_opt(y, m, d) {
        Some(date) => Some(chrono::Datelike::num_days_from_ce(&date)),
        None => None,
    }
}

/// The build number: days from 1 July 1972 to the given date; `None` for a
/// date that does not exist.
pub fn build_days(y: i32, m: u32, d: u32) -> (r: Option<i64>)
    ensures
        r is Some <==> valid_date(y, m, d),
        r is Some ==> r->0 as int == days_from_ce_spec(y, m, d) - days_from_ce_spec(1972, 7, 1),
{
    let base = days_from_ce(1972, 7, 1);
    assert(valid_date(1972, 7, 1)) by {
        reveal_with_fuel(days_before_month, 3);
    }
    match (days_from_ce(y, m, d), base) {
        (Some(t), Some(b)) => Some(t as i64 - b as i64),
        _ => None,
    }
}

} // verus!
