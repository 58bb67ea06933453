//! Calendar dates and their `YYYY-MM-DD` rendering, plus the bridge from a
//! file's last-modified timestamp to the local calendar date.

use vstd::prelude::*;
use vstd::string::*;
use chrono::Datelike;
use chrono::TimeZone;
use crate::digits::digit_char;
use crate::digits::digit_str;

verus! {

/// A calendar date in local time: what the organizer reads of a file's
/// last-modified timestamp.
#[derive(Clone, Copy, Debug, PartialEq, Eq, Structural)]
pub struct Date {
    pub year: i32,
    pub month: u8,
    pub day: u8,
}

impl Date {
    /// A valid calendar date: month and day in their calendar ranges.
    pub open spec fn well_formed(self) -> bool {
        &&& 1 <= self.month <= 12
        &&& 1 <= self.day <= 31
    }
}

/// The decimal rendering of a non-negative integer, most significant digit
/// first, with no leading zeros (a single `0` for zero).
pub open spec fn dec_str(n: int) -> Seq<char>
    decreases n,
{
    if n < 10 {
        seq![digit_char(n)]
    } else {
        dec_str(n / 10) + seq![digit_char(n % 10)]
    }
}

/// The rendering of a year: a `-` sign for negative years, then the decimal
/// digits zero-padded to at least four.
pub open spec fn year_str(y: int) -> Seq<char> {
    let a = if y < 0 { -y } else { y };
    let sign: Seq<char> = if y < 0 { seq!['-'] } else { Seq::empty() };
    let pad: Seq<char> = if a < 10 {
        "000"@
    } else if a < 100 {
        "00"@
    } else if a < 1000 {
        "0"@
    } else {
        Seq::empty()
    };
    sign + pad + dec_str(a)
}

/// A two-digit zero-padded rendering, for months and days.
pub open spec fn two_digits(n: int) -> Seq<char> {
    seq![digit_char(n / 10), digit_char(n % 10)]
}

/// The ISO-style rendering of a date: `YYYY-MM-DD`.
pub open spec fn spec_date_str(d: Date) -> Seq<char> {
    year_str(d.year as int) + "-"@ + two_digits(d.month as int) + "-"@ + two_digits(d.day as int)
}

/// Appends the decimal digits of `n` to `s`.
pub fn append_decimal(s: &mut String, n: u64)
    ensures
        final(s)@ == old(s)@ + dec_str(n as int),
    decreases n,
{
    if n < 10 {
        s.append(digit_str(n as u8));
    } else {
        append_decimal(s, n / 10);
        s.append(digit_str((n % 10) as u8));
        proof {
            assert(final(s)@ =~= old(s)@ + dec_str(n as int));
        }
    }
}

/// Renders a date as `YYYY-MM-DD`: the year zero-padded to four digits
/// (signed if negative), the month and day each to two.
pub fn date_string(d: &Date) -> (r: String)
    requires
        d.well_formed(),
    ensures
        r@ == spec_date_str(*d),
{
    let mut r = String::new();
    if d.year < 0 {
        r.append("-");
        proof {
            reveal_strlit("-");
            assert(r@ =~= seq!['-']);
        }
    }
    let a: u64 = if d.year < 0 {
        (-(d.year as i64)) as u64
    } else {
        d.year as u64
    };
    if a < 10 {
        r.append("000");
    } else if a < 100 {
        r.append("00");
    } else if a < 1000 {
        r.append("0");
    }
    append_decimal(&mut r, a);
    r.append("-");
    r.append(digit_str(d.month / 10));
    r.append(digit_str(d.month % 10));
    r.append("-");
    r.append(digit_str(d.day / 10));
    r.append(digit_str(d.day % 10));
    proof {
        assert(r@ =~= spec_date_str(*d));
    }
    r
}

#[verifier::external_type_specification]
#[verifier::external_body]
pub struct ExSystemTime(std::time::SystemTime);

/// Relies on std's `SystemTime::duration_since` against `UNIX_EPOCH`: the
/// distance to the epoch, `Err` meaning the time lies before it (then
/// `SystemTimeError::duration` is that positive distance). The first
/// component says which side of the epoch the time lies on; `Duration`
/// documents `subsec_nanos` as below one billion. Never panics.
#[verifier::external_body]
fn epoch_delta(t: std::time::SystemTime) -> (r: (bool, u64, u32))
    ensures
        r.2 < 1_000_000_000,
{
    match t.duration_since(std::time::UNIX_EPOCH) {
        Ok(d) => (false, d.as_secs(), d.subsec_nanos()),
        Err(e) => {
            let d = e.duration();
            (true, d.as_secs(), d.subsec_nanos())
        },
    }
}

/// Relies on chrono: `Utc.timestamp_opt` turns a unix timestamp into a
/// `DateTime<Utc>`, answering `None` (never panicking) outside chrono's
/// representable range of roughly plus or minus 262000 years or for an
/// invalid nanosecond; `with_timezone` converts it to the machine's local
/// time; `Datelike::month` and `Datelike::day` document their ranges as
/// 1..=12 and 1..=31. The date depends on the machine's time zone, so
/// nothing more is claimed of it.
#[verifier::external_body]
fn local_ymd_of_timestamp(sec: i64, nsec: u32) -> (r: Option<(i32, u8, u8)>)
    ensures
        r matches Some(ymd) ==> 1 <= ymd.1 <= 12 && 1 <= ymd.2 <= 31,
{
    match chrono::Utc.timestamp_opt(sec, nsec) {
        chrono::MappedLocalTime::Single(dt) => {
            let local = dt.with_timezone(&chrono::Local);
            Some((local.year(), local.month() as u8, local.day() as u8))
        },
        _ => None,
    }
}

/// The local calendar date of a timestamp, as chrono computes it for the
/// machine's time zone; `None` when the timestamp lies outside the
/// representable range.
pub fn local_date_of(t: std::time::SystemTime) -> (d: Option<Date>)
    ensures
        d matches Some(dd) ==> dd.well_formed(),
{
    let (before_epoch, secs, nanos) = epoch_delta(t);
    let stamp: Option<(i64, u32)> = if !before_epoch {
        if secs <= i64::MAX as u64 {
            Some((secs as i64, nanos))
        } else {
            None
        }
    } else if nanos == 0 {
        if secs <= i64::MAX as u64 {
            Some((-(secs as i64), 0))
        } else {
            None
        }
    } else {
        // a fractional second before the epoch: one whole second further
        // down, with the remainder of that second in nanoseconds
        if secs < i64::MAX as u64 {
            Some((-((secs as i64) + 1), 1_000_000_000 - nanos))
        } else {
            None
        }
    };
    match stamp {
        Some((sec, nsec)) => match local_ymd_of_timestamp(sec, nsec) {
            Some((year, month, day)) => Some(Date { year, month, day }),
            None => None,
        },
        None => None,
    }
}

} // verus!
