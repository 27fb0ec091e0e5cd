//! Announcement-timestamp formatting.
//!
//! An RFC 3339 timestamp string is converted to Asia/Tokyo local time and
//! rendered with the fixed template `YYYY年MM月DD日 HH時MM分`. A string that
//! does not parse as RFC 3339 is displayed unchanged: a display detail never
//! fails the whole report.

use vstd::prelude::*;
use vstd::string::StringExecFns;

use crate::text::decimal_padded;
use crate::text::spec_decimal_padded;

use chrono::Datelike;
use chrono::Timelike;

verus! {

/// The civil (wall-clock) time of an instant in the Asia/Tokyo timezone:
/// the year, and the one-based month and day, hour and minute of the day.
#[derive(Clone, Copy, PartialEq, Eq, Structural, Debug)]
pub struct TokyoTime {
    pub year: i32,
    pub month: u32,
    pub day: u32,
    pub hour: u32,
    pub minute: u32,
}

/// The Asia/Tokyo civil time denoted by `s` read as an RFC 3339 timestamp,
/// or `None` where `s` is not a valid RFC 3339 timestamp.
///
/// The value is determined by the characters of `s` alone: RFC 3339 carries
/// its own UTC offset, and the Asia/Tokyo offset of an instant is a fixed
/// table lookup, so no clock, locale or environment enters into it.
pub uninterp spec fn tokyo_civil_time(s: Seq<char>) -> Option<TokyoTime>;

/// Relies on chrono's `DateTime::parse_from_rfc3339` and `with_timezone`
/// (with chrono-tz's `Asia::Tokyo`) to parse the string and convert the
/// instant, and on the `Datelike`/`Timelike` accessors for the components,
/// whose documented ranges are month 1–12, day 1–31, hour 0–23, minute 0–59.
#[verifier::external_body]
fn parse_rfc3339_tokyo(s: &str) -> (r: Option<TokyoTime>)
    ensures
        r == tokyo_civil_time(s@),
        r matches Some(t) ==> 1 <= t.month <= 12 && 1 <= t.day <= 31 && t.hour <= 23 && t.minute
            <= 59,
{
    match chrono::DateTime::parse_from_rfc3339(s) {
        Ok(dt) => {
            let local = dt.with_timezone(&chrono_tz::Asia::Tokyo);
            Some(
                TokyoTime {
                    year: local.year(),
                    month: local.month(),
                    day: local.day(),
                    hour: local.hour(),
                    minute: local.minute(),
                },
            )
        },
        Err(_) => None,
    }
}

/// The decimal digits of a year, zero-padded to at least four, with a leading
/// minus sign for a year before year zero.
pub open spec fn spec_year_digits(y: int) -> Seq<char> {
    if y < 0 {
        seq!['-'] + spec_decimal_padded((-y) as nat, 4)
    } else {
        spec_decimal_padded(y as nat, 4)
    }
}

/// The fixed display template `YYYY年MM月DD日 HH時MM分` applied to a Tokyo
/// civil time.
pub open spec fn spec_render_tokyo(t: TokyoTime) -> Seq<char> {
    spec_year_digits(t.year as int) + "年"@ + spec_decimal_padded(t.month as nat, 2) + "月"@
        + spec_decimal_padded(t.day as nat, 2) + "日 "@ + spec_decimal_padded(t.hour as nat, 2)
        + "時"@ + spec_decimal_padded(t.minute as nat, 2) + "分"@
}

/// What the timestamp formatter displays for an input string: the rendered
/// Tokyo civil time where the input is valid RFC 3339, the input unchanged
/// otherwise.
pub open spec fn spec_format_datetime(s: Seq<char>) -> Seq<char> {
    match tokyo_civil_time(s) {
        Some(t) => spec_render_tokyo(t),
        None => s,
    }
}

/// Renders a Tokyo civil time with the fixed display template.
pub fn render_tokyo_time(t: &TokyoTime) -> (r: String)
    ensures
        r@ == spec_render_tokyo(*t),
{
    let mut r: String;
    if t.year < 0 {
        let magnitude: u32 = (-(t.year as i64)) as u32;
        assert(magnitude == -(t.year as int));
        r = "-".to_owned();
        proof {
            reveal_strlit("-");
        }
        assert(r@ =~= seq!['-']);
        r.append(decimal_padded(magnitude, 4).as_str());
    } else {
        r = decimal_padded(t.year as u32, 4);
    }
    assert(r@ =~= spec_year_digits(t.year as int));
    r.append("年");
    r.append(decimal_padded(t.month, 2).as_str());
    r.append("月");
    r.append(decimal_padded(t.day, 2).as_str());
    r.append("日 ");
    r.append(decimal_padded(t.hour, 2).as_str());
    r.append("時");
    r.append(decimal_padded(t.minute, 2).as_str());
    r.append("分");
    assert(r@ =~= spec_render_tokyo(*t));
    r
}

/// Formats an RFC 3339 timestamp string as Asia/Tokyo local time with the
/// template `YYYY年MM月DD日 HH時MM分`; a string that does not parse as
/// RFC 3339 comes back unchanged.
pub fn format_datetime(s: &str) -> (r: String)
    ensures
        r@ == spec_format_datetime(s@),
{
    match parse_rfc3339_tokyo(s) {
        Some(t) => render_tokyo_time(&t),
        None => s.to_owned(),
    }
}

/// The displayed timestamp is a function of the input string alone: two
/// results of formatting the same input are identical. No hidden current-time
/// dependency enters the formatter.
pub proof fn lemma_format_datetime_deterministic(s: Seq<char>, r1: Seq<char>, r2: Seq<char>)
    requires
        r1 == spec_format_datetime(s),
        r2 == spec_format_datetime(s),
    ensures
        r1 == r2,
{
}

} // verus!
