use vstd::prelude::*;

use crate::text::digit_char;
use crate::text::digit_str;

verus! {

/// Whether year `y` is a leap year in the proleptic Gregorian calendar.
pub open spec fn is_leap_year(y: int) -> bool {
    (y % 4 == 0 && y % 100 != 0) || y % 400 == 0
}

/// The number of days in month `m` of year `y`.
pub open spec fn days_in_month(y: int, m: int) -> int {
    if m == 2 {
        if is_leap_year(y) {
            29
        } else {
            28
        }
    } else if m == 4 || m == 6 || m == 9 || m == 11 {
        30
    } else {
        31
    }
}

/// A calendar date, held as plain year, month and day numbers.
#[derive(Clone, Copy, Debug, PartialEq, Eq, Structural)]
pub struct Date {
    pub year: u32,
    pub month: u32,
    pub day: u32,
}

/// `(y1, m1, d1)` is on or before `(y2, m2, d2)` in calendar order.
pub open spec fn ymd_le(y1: int, m1: int, d1: int, y2: int, m2: int, d2: int) -> bool {
    if y1 != y2 {
        y1 < y2
    } else if m1 != m2 {
        m1 < m2
    } else {
        d1 <= d2
    }
}

impl Date {
    /// A well-formed calendar date within the supported year span.
    pub open spec fn valid(self) -> bool {
        &&& 1 <= self.year <= 9999
        &&& 1 <= self.month <= 12
        &&& 1 <= self.day <= days_in_month(self.year as int, self.month as int)
    }

    /// `self` is on or before `other` in calendar order.
    pub open spec fn le_spec(self, other: Date) -> bool {
        ymd_le(
            self.year as int,
            self.month as int,
            self.day as int,
            other.year as int,
            other.month as int,
            other.day as int,
        )
    }

    /// Calendar-order comparison.
    pub fn le(&self, other: &Date) -> (r: bool)
        ensures
            r == self.le_spec(*other),
    {
        if self.year != other.year {
            self.year < other.year
        } else if self.month != other.month {
            self.month < other.month
        } else {
            self.day <= other.day
        }
    }

    /// Whether the fields form a well-formed calendar date.
    pub fn is_valid(&self) -> (r: bool)
        ensures
            r == self.valid(),
    {
        let leap = (self.year % 4 == 0 && self.year % 100 != 0) || self.year % 400 == 0;
        let max_day: u32 = if self.month == 2 {
            if leap {
                29
            } else {
                28
            }
        } else if self.month == 4 || self.month == 6 || self.month == 9 || self.month == 11 {
            30
        } else {
            31
        };
        1 <= self.year && self.year <= 9999 && 1 <= self.month && self.month <= 12 && 1 <= self.day
            && self.day <= max_day
    }
}

/// An inclusive pair of calendar bounds, constructed fresh for each prompt
/// context.
#[derive(Clone, Copy, Debug, PartialEq, Eq, Structural)]
pub struct DateRange {
    pub minimum_date: Date,
    pub maximum_date: Date,
}

impl DateRange {
    /// Both bounds are well-formed and the lower bound is not after the
    /// upper one.
    pub open spec fn wf(self) -> bool {
        self.minimum_date.valid() && self.maximum_date.valid() && self.minimum_date.le_spec(
            self.maximum_date,
        )
    }

    /// `d` lies within the inclusive bounds.
    pub open spec fn contains(self, d: Date) -> bool {
        self.minimum_date.le_spec(d) && d.le_spec(self.maximum_date)
    }

    /// Builds a range, rejecting an ill-formed or reversed pair.
    pub fn new(minimum_date: Date, maximum_date: Date) -> (r: Option<DateRange>)
        ensures
            r matches Some(dr) ==> dr.wf() && dr.minimum_date == minimum_date && dr.maximum_date
                == maximum_date,
            r is None <==> !(minimum_date.valid() && maximum_date.valid() && minimum_date.le_spec(
                maximum_date,
            )),
    {
        if minimum_date.is_valid() && maximum_date.is_valid() && minimum_date.le(&maximum_date) {
            Some(DateRange { minimum_date, maximum_date })
        } else {
            None
        }
    }

    /// Inclusive containment check.
    pub fn contains_date(&self, d: &Date) -> (r: bool)
        ensures
            r == self.contains(*d),
    {
        self.minimum_date.le(d) && d.le(&self.maximum_date)
    }
}

/// A date answered at a prompt is handed on only when no bounds were given
/// or it lies within them; an out-of-range answer is rejected so that the
/// prompt is issued again.
pub fn accept_date(d: Date, range: &Option<DateRange>) -> (r: Option<Date>)
    ensures
        r is Some <==> (range is None || (range matches Some(dr) && dr.contains(d))),
        r is Some ==> r == Some(d),
{
    match range {
        None => Some(d),
        Some(dr) => {
            if dr.contains_date(&d) {
                Some(d)
            } else {
                None
            }
        },
    }
}

/// Relies on chrono: `Utc::now` and `DateTime::date_naive` give the current
/// UTC calendar date, and the `Datelike` accessors `year`, `month` and `day`
/// return a month in 1..=12 and a day within that month's length.
#[verifier::external_body]
fn today_raw() -> (r: (i64, u32, u32))
    ensures
        1 <= r.1 <= 12,
        1 <= r.2 <= days_in_month(r.0 as int, r.1 as int),
{
    let d = chrono::Utc::now().date_naive();
    (chrono::Datelike::year(&d) as i64, chrono::Datelike::month(&d), chrono::Datelike::day(&d))
}

/// What chrono computes for stepping the calendar date `(y, m, d)` back by
/// `n` days: the exact triple that `NaiveDate::checked_sub_days` returns on
/// the date `NaiveDate::from_ymd_opt` builds, or `None` where chrono cannot
/// represent either date. A function of its arguments alone.
pub uninterp spec fn minus_days(y: int, m: int, d: int, n: int) -> Option<(int, int, int)>;

/// Relies on chrono: `NaiveDate::checked_sub_days` steps a date back by
/// `n` days — the result named `minus_days` — yielding a well-formed
/// calendar date on or before the start (`NaiveDate::from_ymd_opt` builds
/// the start; `None` when chrono cannot represent either date).
#[verifier::external_body]
fn days_before_raw(year: u32, month: u32, day: u32, n: u64) -> (r: Option<(i64, u32, u32)>)
    ensures
        r matches Some(t) ==> minus_days(year as int, month as int, day as int, n as int) == Some(
            (t.0 as int, t.1 as int, t.2 as int),
        ),
        r is None ==> minus_days(year as int, month as int, day as int, n as int) is None,
        r matches Some(t) ==> 1 <= t.1 <= 12 && 1 <= t.2 <= days_in_month(t.0 as int, t.1 as int)
            && ymd_le(t.0 as int, t.1 as int, t.2 as int, year as int, month as int, day as int),
{
    let start = chrono::NaiveDate::from_ymd_opt(year as i32, month, day)?;
    let earlier = start.checked_sub_days(chrono::Days::new(n))?;
    Some((
        chrono::Datelike::year(&earlier) as i64,
        chrono::Datelike::month(&earlier),
        chrono::Datelike::day(&earlier),
    ))
}

/// Keeps a calendar triple only when its year lies in the supported span.
pub fn date_in_span(y: i64, m: u32, d: u32) -> (r: Option<Date>)
    requires
        1 <= m <= 12,
        1 <= d <= days_in_month(y as int, m as int),
    ensures
        1 <= y <= 9999 ==> r == (Some(Date { year: y as u32, month: m, day: d })),
        !(1 <= y <= 9999) ==> r is None,
        r matches Some(dd) ==> dd.valid(),
{
    if 1 <= y && y <= 9999 {
        Some(Date { year: y as u32, month: m, day: d })
    } else {
        None
    }
}

/// The current UTC date, when it lies within the supported year span.
pub fn today() -> (r: Option<Date>)
    ensures
        r matches Some(d) ==> d.valid(),
{
    let (y, m, d) = today_raw();
    date_in_span(y, m, d)
}

/// The date `n` days before `d`, clipped to the supported year span: what
/// chrono computes, kept only when its year lies in 1..=9999.
pub open spec fn spec_days_before(d: Date, n: int) -> Option<Date> {
    match minus_days(d.year as int, d.month as int, d.day as int, n) {
        Some(t) => if 1 <= t.0 <= 9999 {
            Some(Date { year: t.0 as u32, month: t.1 as u32, day: t.2 as u32 })
        } else {
            None
        },
        None => None,
    }
}

/// The date `n` days before `d`, when representable in the supported span.
pub fn days_before(d: &Date, n: u64) -> (r: Option<Date>)
    requires
        d.valid(),
    ensures
        r == spec_days_before(*d, n as int),
        r matches Some(e) ==> e.valid() && e.le_spec(*d),
{
    match days_before_raw(d.year, d.month, d.day, n) {
        None => None,
        Some((y, m, dd)) => {
            if 1 <= y && y <= 9999 {
                Some(Date { year: y as u32, month: m, day: dd })
            } else {
                None
            }
        },
    }
}

/// The zero-padded `YYYY-MM-DD` rendering of `d`.
pub open spec fn date_string(d: Date) -> Seq<char> {
    seq![
        digit_char(d.year as int / 1000 % 10),
        digit_char(d.year as int / 100 % 10),
        digit_char(d.year as int / 10 % 10),
        digit_char(d.year as int % 10),
        '-',
        digit_char(d.month as int / 10 % 10),
        digit_char(d.month as int % 10),
        '-',
        digit_char(d.day as int / 10 % 10),
        digit_char(d.day as int % 10),
    ]
}

/// Renders `d` as `YYYY-MM-DD` with zero padding.
pub fn format_date(d: &Date) -> (r: String)
    requires
        d.valid(),
    ensures
        r@ == date_string(*d),
{
    let mut out = String::new();
    out.append(digit_str(d.year / 1000 % 10));
    out.append(digit_str(d.year / 100 % 10));
    out.append(digit_str(d.year / 10 % 10));
    out.append(digit_str(d.year % 10));
    out.append(dash_str());
    out.append(digit_str(d.month / 10 % 10));
    out.append(digit_str(d.month % 10));
    out.append(dash_str());
    out.append(digit_str(d.day / 10 % 10));
    out.append(digit_str(d.day % 10));
    proof {
        assert(out@ =~= date_string(*d));
    }
    out
}

/// The separator between date fields.
fn dash_str() -> (r: &'static str)
    ensures
        r@ == seq!['-'],
{
    proof {
        reveal_strlit("-");
        assert("-"@ =~= seq!['-']);
    }
    "-"
}

/// The start-date span offered for a given current date: the year ending on
/// it, bounded below by exactly 365 days before it; `None` when that lower
/// bound is not representable in the supported span.
pub fn start_range_from(today_date: Date) -> (r: Option<DateRange>)
    requires
        today_date.valid(),
    ensures
        r == (match spec_days_before(today_date, 365) {
            Some(e) => Some(DateRange { minimum_date: e, maximum_date: today_date }),
            None => None,
        }),
        r matches Some(dr) ==> dr.wf() && dr.maximum_date == today_date && spec_days_before(
            today_date,
            365,
        ) == Some(dr.minimum_date),
{
    match days_before(&today_date, 365) {
        None => None,
        Some(earlier) => Some(DateRange { minimum_date: earlier, maximum_date: today_date }),
    }
}

/// The default span offered for a start date: the year ending today, its
/// lower bound exactly 365 days before its upper one. `None` when the clock
/// lies outside the supported span.
pub fn default_start_range() -> (r: Option<DateRange>)
    ensures
        r matches Some(dr) ==> dr.wf() && spec_days_before(dr.maximum_date, 365) == Some(
            dr.minimum_date,
        ),
{
    match today() {
        None => None,
        Some(t) => start_range_from(t),
    }
}

} // verus!
