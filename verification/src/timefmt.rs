//! Decimal rendering of integers and the timestamp-derived path formats:
//! the `{yyyy}/{mm}/{dd}/{hh}` cache subdirectory and the compact
//! `{yyyy}{mm}{dd}_{hh}{mi}{ss}{mmm}` file-name timestamp.

use vstd::prelude::*;
use chrono::Datelike;
use chrono::Timelike;

verus! {

/// Largest timestamp handled, in milliseconds: the last instant of year 9999.
pub const MAX_TIMESTAMP_MS: i64 = 253_402_300_799_999;

/// The decimal digit character for one digit value.
pub open spec fn digit_char(d: int) -> char {
    if d == 0 {
        '0'
    } else if d == 1 {
        '1'
    } else if d == 2 {
        '2'
    } else if d == 3 {
        '3'
    } else if d == 4 {
        '4'
    } else if d == 5 {
        '5'
    } else if d == 6 {
        '6'
    } else if d == 7 {
        '7'
    } else if d == 8 {
        '8'
    } else {
        '9'
    }
}

/// Decimal representation of a non-negative integer, most significant
/// digit first, without leading zeros (a lone zero for 0).
pub open spec fn dec_rep(n: int) -> Seq<char>
    recommends
        n >= 0,
    decreases n,
{
    if n < 10 {
        seq![digit_char(n)]
    } else {
        dec_rep(n / 10).push(digit_char(n % 10))
    }
}

/// Decimal representation of a signed integer.
pub open spec fn signed_dec_rep(n: int) -> Seq<char> {
    if n >= 0 {
        dec_rep(n)
    } else {
        seq!['-'] + dec_rep(-n)
    }
}

/// Decimal representation padded to at least two digits.
pub open spec fn pad2_rep(n: int) -> Seq<char> {
    if n < 10 {
        seq!['0'] + dec_rep(n)
    } else {
        dec_rep(n)
    }
}

/// Decimal representation padded to at least three digits.
pub open spec fn pad3_rep(n: int) -> Seq<char> {
    if n < 100 {
        seq!['0'] + pad2_rep(n)
    } else {
        dec_rep(n)
    }
}

/// The one-character string for a decimal digit.
pub fn digit_str(d: u64) -> (r: &'static str)
    requires
        d < 10,
    ensures
        r@ == seq![digit_char(d as int)],
{
    proof {
        reveal_strlit("0");
        reveal_strlit("1");
        reveal_strlit("2");
        reveal_strlit("3");
        reveal_strlit("4");
        reveal_strlit("5");
        reveal_strlit("6");
        reveal_strlit("7");
        reveal_strlit("8");
        reveal_strlit("9");
    }
    let r = if d == 0 {
        "0"
    } else if d == 1 {
        "1"
    } else if d == 2 {
        "2"
    } else if d == 3 {
        "3"
    } else if d == 4 {
        "4"
    } else if d == 5 {
        "5"
    } else if d == 6 {
        "6"
    } else if d == 7 {
        "7"
    } else if d == 8 {
        "8"
    } else {
        "9"
    };
    proof {
        assert(r@ =~= seq![digit_char(d as int)]);
    }
    r
}

/// Render an unsigned integer in decimal.
pub fn u64_to_string(n: u64) -> (r: String)
    ensures
        r@ == dec_rep(n as int),
    decreases n,
{
    if n < 10 {
        String::from_str(digit_str(n))
    } else {
        let mut s = u64_to_string(n / 10);
        s.append(digit_str(n % 10));
        proof {
            assert(dec_rep((n / 10) as int).push(digit_char((n % 10) as int)) =~= dec_rep(
                (n / 10) as int,
            ) + seq![digit_char((n % 10) as int)]);
        }
        s
    }
}

/// Render an unsigned 128-bit integer in decimal.
pub fn u128_to_string(n: u128) -> (r: String)
    ensures
        r@ == dec_rep(n as int),
    decreases n,
{
    if n < 10 {
        String::from_str(digit_str(n as u64))
    } else {
        let mut s = u128_to_string(n / 10);
        s.append(digit_str((n % 10) as u64));
        proof {
            assert(dec_rep((n / 10) as int).push(digit_char((n % 10) as int)) =~= dec_rep(
                (n / 10) as int,
            ) + seq![digit_char((n % 10) as int)]);
        }
        s
    }
}

/// Render a signed integer in decimal.
pub fn i64_to_string(n: i64) -> (r: String)
    requires
        n > i64::MIN,
    ensures
        r@ == signed_dec_rep(n as int),
{
    if n >= 0 {
        u64_to_string(n as u64)
    } else {
        let mut s = String::from_str("-");
        s.append(u64_to_string((-n) as u64).as_str());
        proof {
            reveal_strlit("-");
            assert(s@ =~= seq!['-'] + dec_rep(-n as int));
        }
        s
    }
}

/// Render a value below 100 as exactly two decimal digits.
pub fn pad2(n: u32) -> (r: String)
    requires
        n < 100,
    ensures
        r@ == pad2_rep(n as int),
{
    if n < 10 {
        let mut s = String::from_str("0");
        s.append(digit_str(n as u64));
        proof {
            reveal_strlit("0");
            assert(s@ =~= seq!['0'] + dec_rep(n as int));
        }
        s
    } else {
        u64_to_string(n as u64)
    }
}

/// Render a value below 1000 as exactly three decimal digits.
pub fn pad3(n: u32) -> (r: String)
    requires
        n < 1000,
    ensures
        r@ == pad3_rep(n as int),
{
    if n < 100 {
        let mut s = String::from_str("0");
        s.append(pad2(n).as_str());
        proof {
            reveal_strlit("0");
            assert(s@ =~= seq!['0'] + pad2_rep(n as int));
        }
        s
    } else {
        u64_to_string(n as u64)
    }
}

/// Calendar fields of a timestamp: year, month, day, hour, minute, second
/// and millisecond, all in UTC.
pub open spec fn civil_in_range(c: (i32, u32, u32, u32, u32, u32, u32)) -> bool {
    &&& 1970 <= c.0 <= 9999
    &&& 1 <= c.1 <= 12
    &&& 1 <= c.2 <= 31
    &&& c.3 < 24
    &&& c.4 < 60
    &&& c.5 < 60
    &&& c.6 < 1000
}

/// The UTC calendar decomposition of a millisecond timestamp: a function
/// of the timestamp alone, computed by the calendar library.
pub uninterp spec fn civil_of(ms: i64) -> (i32, u32, u32, u32, u32, u32, u32);

/// Relies on chrono's DateTime::from_timestamp_millis, which is documented
/// to return Some for every in-range millisecond count, and on its Datelike
/// and Timelike accessors for the UTC calendar fields and their ranges.
#[verifier::external_body]
pub fn civil_from_millis(ms: i64) -> (r: (i32, u32, u32, u32, u32, u32, u32))
    requires
        0 <= ms <= MAX_TIMESTAMP_MS,
    ensures
        r == civil_of(ms),
        civil_in_range(r),
{
    let dt = chrono::DateTime::from_timestamp_millis(ms).unwrap();
    (dt.year(), dt.month(), dt.day(), dt.hour(), dt.minute(), dt.second(), dt.timestamp_subsec_millis())
}

/// Relies on chrono::Utc::now for the wall clock. What it reads depends on
/// the machine, so nothing is stated of the value.
#[verifier::external_body]
pub fn now_millis() -> i64 {
    chrono::Utc::now().timestamp_millis()
}

/// Clamp a timestamp into the representable calendar range; an in-range
/// timestamp passes through unchanged.
pub fn clamp_timestamp(t: i64) -> (r: i64)
    ensures
        0 <= r <= MAX_TIMESTAMP_MS,
        0 <= t <= MAX_TIMESTAMP_MS ==> r == t,
{
    if t < 0 {
        0
    } else if t > MAX_TIMESTAMP_MS {
        MAX_TIMESTAMP_MS
    } else {
        t
    }
}

/// The `{yyyy}/{mm}/{dd}/{hh}` cache subdirectory for given calendar fields.
pub open spec fn spec_path_subdir(y: int, mo: int, d: int, h: int) -> Seq<char> {
    dec_rep(y) + seq!['/'] + pad2_rep(mo) + seq!['/'] + pad2_rep(d) + seq!['/'] + pad2_rep(h)
}

/// Build the `{yyyy}/{mm}/{dd}/{hh}` cache subdirectory.
pub fn path_subdir_of(y: i32, mo: u32, d: u32, h: u32) -> (r: String)
    requires
        1000 <= y <= 9999,
        mo < 100,
        d < 100,
        h < 100,
    ensures
        r@ == spec_path_subdir(y as int, mo as int, d as int, h as int),
{
    let mut s = u64_to_string(y as u64);
    s.append("/");
    s.append(pad2(mo).as_str());
    s.append("/");
    s.append(pad2(d).as_str());
    s.append("/");
    s.append(pad2(h).as_str());
    proof {
        reveal_strlit("/");
        assert(s@ =~= spec_path_subdir(y as int, mo as int, d as int, h as int));
    }
    s
}

/// The RFC 3339 rendering of a UTC instant with millisecond precision:
/// `{yyyy}-{mm}-{dd}T{hh}:{mi}:{ss}.{mmm}+00:00`.
pub open spec fn spec_rfc3339_utc(
    y: int,
    mo: int,
    d: int,
    h: int,
    mi: int,
    sec: int,
    ms: int,
) -> Seq<char> {
    dec_rep(y) + seq!['-'] + pad2_rep(mo) + seq!['-'] + pad2_rep(d) + seq!['T'] + pad2_rep(h)
        + seq![':'] + pad2_rep(mi) + seq![':'] + pad2_rep(sec) + seq!['.'] + pad3_rep(ms)
        + "+00:00"@
}

/// Render a UTC instant in RFC 3339 with millisecond precision.
pub fn rfc3339_utc_of(y: i32, mo: u32, d: u32, h: u32, mi: u32, sec: u32, ms: u32) -> (r: String)
    requires
        1000 <= y <= 9999,
        mo < 100,
        d < 100,
        h < 100,
        mi < 100,
        sec < 100,
        ms < 1000,
    ensures
        r@ == spec_rfc3339_utc(y as int, mo as int, d as int, h as int, mi as int, sec as int, ms as int),
{
    let mut s = u64_to_string(y as u64);
    s.append("-");
    s.append(pad2(mo).as_str());
    s.append("-");
    s.append(pad2(d).as_str());
    s.append("T");
    s.append(pad2(h).as_str());
    s.append(":");
    s.append(pad2(mi).as_str());
    s.append(":");
    s.append(pad2(sec).as_str());
    s.append(".");
    s.append(pad3(ms).as_str());
    s.append("+00:00");
    proof {
        reveal_strlit("-");
        reveal_strlit("T");
        reveal_strlit(":");
        reveal_strlit(".");
        assert(s@ =~= spec_rfc3339_utc(
            y as int,
            mo as int,
            d as int,
            h as int,
            mi as int,
            sec as int,
            ms as int,
        ));
    }
    s
}

/// Render a timestamp in RFC 3339 via its calendar fields.
pub fn rfc3339_of_millis(ms: i64) -> (r: String)
    requires
        0 <= ms <= MAX_TIMESTAMP_MS,
    ensures
        r@ == spec_rfc3339_utc(
            civil_of(ms).0 as int,
            civil_of(ms).1 as int,
            civil_of(ms).2 as int,
            civil_of(ms).3 as int,
            civil_of(ms).4 as int,
            civil_of(ms).5 as int,
            civil_of(ms).6 as int,
        ),
{
    let c = civil_from_millis(ms);
    rfc3339_utc_of(c.0, c.1, c.2, c.3, c.4, c.5, c.6)
}

/// The compact `{yyyy}{mm}{dd}_{hh}{mi}{ss}{mmm}` timestamp used in cached
/// file names.
pub open spec fn spec_compact_timestamp(
    y: int,
    mo: int,
    d: int,
    h: int,
    mi: int,
    sec: int,
    ms: int,
) -> Seq<char> {
    dec_rep(y) + pad2_rep(mo) + pad2_rep(d) + seq!['_'] + pad2_rep(h) + pad2_rep(mi) + pad2_rep(
        sec,
    ) + pad3_rep(ms)
}

/// Build the compact timestamp for cached file names.
pub fn compact_timestamp_of(y: i32, mo: u32, d: u32, h: u32, mi: u32, sec: u32, ms: u32) -> (r:
    String)
    requires
        1000 <= y <= 9999,
        mo < 100,
        d < 100,
        h < 100,
        mi < 100,
        sec < 100,
        ms < 1000,
    ensures
        r@ == spec_compact_timestamp(
            y as int,
            mo as int,
            d as int,
            h as int,
            mi as int,
            sec as int,
            ms as int,
        ),
{
    let mut s = u64_to_string(y as u64);
    s.append(pad2(mo).as_str());
    s.append(pad2(d).as_str());
    s.append("_");
    s.append(pad2(h).as_str());
    s.append(pad2(mi).as_str());
    s.append(pad2(sec).as_str());
    s.append(pad3(ms).as_str());
    proof {
        reveal_strlit("_");
        assert(s@ =~= spec_compact_timestamp(
            y as int,
            mo as int,
            d as int,
            h as int,
            mi as int,
            sec as int,
            ms as int,
        ));
    }
    s
}

} // verus!
