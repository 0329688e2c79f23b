//! The duration humanizer: an elapsed time span rendered as a coarse,
//! localized magnitude bucket (seconds / minutes / hours / days / months /
//! years), with the month fixed at 30 days and the year at 365 days.

use vstd::prelude::*;
use vstd::string::*;

verus! {

pub const ONE_MINUTE: u64 = 60;

pub const ONE_HOUR: u64 = 3600;

pub const ONE_DAY: u64 = 86400;

/// A month is a fixed 30 days: a deliberate approximation, not calendar-aware.
pub const ONE_MONTH: u64 = 2592000;

/// A year is a fixed 365 days: a deliberate approximation, not calendar-aware.
pub const ONE_YEAR: u64 = 31536000;

/// The decimal digit `d` as a one-character sequence.
pub open spec fn spec_digit(d: int) -> Seq<char>
    recommends
        0 <= d < 10,
{
    if d == 0 {
        "0"@
    } else if d == 1 {
        "1"@
    } else if d == 2 {
        "2"@
    } else if d == 3 {
        "3"@
    } else if d == 4 {
        "4"@
    } else if d == 5 {
        "5"@
    } else if d == 6 {
        "6"@
    } else if d == 7 {
        "7"@
    } else if d == 8 {
        "8"@
    } else {
        "9"@
    }
}

/// The usual decimal rendering of a non-negative integer, without leading
/// zeros (except for zero itself).
pub open spec fn spec_decimal(n: int) -> Seq<char>
    recommends
        n >= 0,
    decreases n,
{
    if n < 10 {
        spec_digit(n)
    } else {
        spec_decimal(n / 10) + spec_digit(n % 10)
    }
}

fn digit_str(d: u64) -> (r: &'static str)
    requires
        d < 10,
    ensures
        r@ == spec_digit(d as int),
{
    if d == 0 {
        "0"
    } else if d == 1 {
        "1"
    } else if d == 2 {
        "2"
    } else if d == 3 {
        "3"
    } else if d == 4 {
        "4"
    } else if d == 5 {
        "5"
    } else if d == 6 {
        "6"
    } else if d == 7 {
        "7"
    } else if d == 8 {
        "8"
    } else {
        "9"
    }
}

/// Renders a non-negative integer in decimal.
pub fn u64_to_decimal(n: u64) -> (r: String)
    ensures
        r@ == spec_decimal(n as int),
    decreases n,
{
    if n < 10 {
        digit_str(n).to_owned()
    } else {
        let mut s = u64_to_decimal(n / 10);
        s.append(digit_str(n % 10));
        s
    }
}

/// The humanized rendering of `s` elapsed seconds: the bucket's magnitude
/// (all divisions truncate) followed by the bucket's localized unit label.
pub open spec fn spec_humanize(s: int) -> Seq<char>
    recommends
        s >= 0,
{
    if s < ONE_MINUTE as int {
        spec_decimal(s) + "秒"@
    } else if s < ONE_HOUR as int {
        spec_decimal(s / (ONE_MINUTE as int)) + "分"@
    } else if s < ONE_DAY as int {
        spec_decimal(s / (ONE_HOUR as int)) + "時間"@
    } else if s < ONE_MONTH as int {
        spec_decimal(s / (ONE_DAY as int)) + "日"@
    } else if s < ONE_YEAR as int {
        spec_decimal(s / (ONE_MONTH as int)) + "ヶ月"@
    } else {
        spec_decimal(s / (ONE_YEAR as int)) + "年"@
    }
}

/// Renders an elapsed duration, given as whole seconds, as a short localized
/// order-of-magnitude description.
///
/// A negative duration (clock skew, an instant in the future) is out of
/// contract here; the caller clamps such an elapsed span to zero.
pub fn human_readable_duration(secs: i64) -> (r: String)
    requires
        secs >= 0,
    ensures
        r@ == spec_humanize(secs as int),
{
    let s: u64 = secs as u64;
    if s < ONE_MINUTE {
        let mut out = u64_to_decimal(s);
        out.append("秒");
        out
    } else if s < ONE_HOUR {
        let mut out = u64_to_decimal(s / ONE_MINUTE);
        out.append("分");
        out
    } else if s < ONE_DAY {
        let mut out = u64_to_decimal(s / ONE_HOUR);
        out.append("時間");
        out
    } else if s < ONE_MONTH {
        let mut out = u64_to_decimal(s / ONE_DAY);
        out.append("日");
        out
    } else if s < ONE_YEAR {
        let mut out = u64_to_decimal(s / ONE_MONTH);
        out.append("ヶ月");
        out
    } else {
        let mut out = u64_to_decimal(s / ONE_YEAR);
        out.append("年");
        out
    }
}

} // verus!
