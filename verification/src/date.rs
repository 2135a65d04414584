//! The access-date cell: a Unix timestamp interpreted in UTC, shown as an
//! ISO-8601 calendar date `YYYY-MM-DD`. The calendar conversion comes from
//! the `chrono` crate; the rendering of the three fields is verified here.

use vstd::prelude::*;
use chrono::Datelike;
use crate::numfmt::{is_digit, pad2, pad2_str, pad4, pad4_str};
use crate::strutil::push_char;

verus! {

/// The Unix timestamp of 9999-12-31T23:59:59Z, the last second whose year
/// still has four decimal digits.
pub const MAX_DATE_SECS: i64 = 253402300799;

/// Whether a timestamp lies between the epoch and the end of year 9999,
/// the range over which the date cell is exactly ten characters.
pub open spec fn valid_atime(secs: int) -> bool {
    0 <= secs <= MAX_DATE_SECS
}

/// Whether a timestamp lies in the range the date cell supports.
pub fn atime_in_range(secs: i64) -> (b: bool)
    ensures
        b == valid_atime(secs as int),
{
    0 <= secs && secs <= MAX_DATE_SECS
}

/// The (year, month, day) of a Unix timestamp, read in UTC on the
/// proleptic Gregorian calendar.
pub uninterp spec fn civil_of(secs: int) -> (int, int, int);

/// Relies on `chrono::DateTime::from_timestamp` and the `chrono::Datelike`
/// accessors `year`, `month` and `day`: the civil date, in UTC, of a Unix
/// timestamp, a function of the timestamp alone. `month` and `day` are
/// documented to start from 1; between the epoch and the last second of
/// year 9999 the year has four digits.
#[verifier::external_body]
fn civil_from_timestamp(secs: i64) -> (r: (u64, u64, u64))
    requires
        valid_atime(secs as int),
    ensures
        (r.0 as int, r.1 as int, r.2 as int) == civil_of(secs as int),
        1970 <= r.0 <= 9999,
        1 <= r.1 <= 12,
        1 <= r.2 <= 31,
{
    let dt = chrono::DateTime::from_timestamp(secs, 0).unwrap();
    (dt.year() as u64, dt.month() as u64, dt.day() as u64)
}

/// The date cell text for a timestamp: four-digit year, two-digit month
/// and two-digit day, separated by hyphens.
pub open spec fn date_text(secs: int) -> Seq<char> {
    pad4(civil_of(secs).0) + seq!['-'] + pad2(civil_of(secs).1) + seq!['-'] + pad2(civil_of(secs).2)
}

/// Whether `s` has the shape of an ISO-8601 calendar date: ten characters,
/// hyphens at positions four and seven, decimal digits everywhere else.
pub open spec fn is_date_shape(s: Seq<char>) -> bool {
    &&& s.len() == 10
    &&& s[4] == '-'
    &&& s[7] == '-'
    &&& forall|i: int| 0 <= i < 10 && i != 4 && i != 7 ==> is_digit(#[trigger] s[i])
}

/// Renders the date cell text for a timestamp.
pub fn date_cell_text(secs: i64) -> (r: String)
    requires
        valid_atime(secs as int),
    ensures
        r@ == date_text(secs as int),
        is_date_shape(r@),
{
    let (y, m, d) = civil_from_timestamp(secs);
    let mut s = pad4_str(y);
    push_char(&mut s, '-');
    let ms = pad2_str(m);
    s.append(ms.as_str());
    push_char(&mut s, '-');
    let ds = pad2_str(d);
    s.append(ds.as_str());
    proof {
        assert(s@ =~= date_text(secs as int));
        assert forall|i: int| 0 <= i < 10 && i != 4 && i != 7 implies is_digit(#[trigger] s@[i]) by {
            assert(s@[0] == pad4(civil_of(secs as int).0)[0]);
            assert(s@[1] == pad4(civil_of(secs as int).0)[1]);
            assert(s@[2] == pad4(civil_of(secs as int).0)[2]);
            assert(s@[3] == pad4(civil_of(secs as int).0)[3]);
            assert(s@[5] == pad2(civil_of(secs as int).1)[0]);
            assert(s@[6] == pad2(civil_of(secs as int).1)[1]);
            assert(s@[8] == pad2(civil_of(secs as int).2)[0]);
            assert(s@[9] == pad2(civil_of(secs as int).2)[1]);
        }
    }
    s
}

} // verus!
