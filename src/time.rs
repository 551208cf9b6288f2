use vstd::prelude::*;

verus! {

/// First year the epoch conversion accepts.
pub const EPOCH_YEAR: u16 = 1970;

/// Gregorian leap year.
pub open spec fn is_leap(y: int) -> bool {
    (y % 4 == 0 && y % 100 != 0) || y % 400 == 0
}

/// Days in a year.
pub open spec fn year_days(y: int) -> int {
    if is_leap(y) {
        366
    } else {
        365
    }
}

/// Days in a month (1 to 12) of a year.
pub open spec fn month_days(y: int, m: int) -> int {
    if m == 2 {
        if is_leap(y) {
            29
        } else {
            28
        }
    } else if m == 4 || m == 6 || m == 9 || m == 11 {
        30
    } else {
        31
    }
}

/// Days from 1 January 1970 to 1 January of year `y`.
pub open spec fn days_before_year(y: int) -> int
    decreases y - 1970,
{
    if y <= 1970 {
        0
    } else {
        days_before_year(y - 1) + year_days(y - 1)
    }
}

/// Days from 1 January to the first day of month `m` of year `y`.
pub open spec fn days_before_month(y: int, m: int) -> int
    decreases m,
{
    if m <= 1 {
        0
    } else {
        days_before_month(y, m - 1) + month_days(y, m - 1)
    }
}

/// The calendar fields name an existing instant from 1970 on.
pub open spec fn valid_time(
    year: int,
    month: int,
    day: int,
    hour: int,
    minute: int,
    second: int,
    millis: int,
) -> bool {
    &&& year >= 1970
    &&& 1 <= month <= 12
    &&& 1 <= day <= month_days(year, month)
    &&& 0 <= hour <= 23
    &&& 0 <= minute <= 59
    &&& 0 <= second <= 59
    &&& 0 <= millis <= 999
}

/// Milliseconds from the Unix epoch to the given UTC calendar time.
pub open spec fn millis_since_epoch(
    year: int,
    month: int,
    day: int,
    hour: int,
    minute: int,
    second: int,
    millis: int,
) -> int {
    let days = days_before_year(year) + days_before_month(year, month) + day - 1;
    (((days * 24 + hour) * 60 + minute) * 60 + second) * 1000 + millis
}

fn leap(y: u16) -> (r: bool)
    ensures
        r == is_leap(y as int),
{
    (y % 4 == 0 && y % 100 != 0) || y % 400 == 0
}

fn days_in_month(y: u16, m: u16) -> (r: u64)
    ensures
        r == month_days(y as int, m as int),
{
    if m == 2 {
        if leap(y) {
            29
        } else {
            28
        }
    } else if m == 4 || m == 6 || m == 9 || m == 11 {
        30
    } else {
        31
    }
}

proof fn lemma_days_before_year_bound(y: int)
    ensures
        0 <= days_before_year(y),
        y >= 1970 ==> days_before_year(y) <= 366 * (y - 1970),
    decreases y - 1970,
{
    if y > 1970 {
        lemma_days_before_year_bound(y - 1);
    }
}

proof fn lemma_days_before_month_bound(y: int, m: int)
    ensures
        0 <= days_before_month(y, m),
        m >= 1 ==> days_before_month(y, m) <= 31 * (m - 1),
    decreases m,
{
    if m > 1 {
        lemma_days_before_month_bound(y, m - 1);
    }
}

/// Milliseconds since the Unix epoch of a UTC calendar time, as the spooler
/// reports submission times; `None` when the fields name no instant from
/// 1970 on.
pub fn epoch_millis(
    year: u16,
    month: u16,
    day: u16,
    hour: u16,
    minute: u16,
    second: u16,
    millis: u16,
) -> (r: Option<u64>)
    ensures
        r is Some <==> valid_time(
            year as int,
            month as int,
            day as int,
            hour as int,
            minute as int,
            second as int,
            millis as int,
        ),
        r is Some ==> r->0 == millis_since_epoch(
            year as int,
            month as int,
            day as int,
            hour as int,
            minute as int,
            second as int,
            millis as int,
        ),
{
    if year < EPOCH_YEAR || month < 1 || month > 12 || day < 1 || day as u64 > days_in_month(
        year,
        month,
    ) || hour > 23 || minute > 59 || second > 59 || millis > 999 {
        return None;
    }
    let mut days: u64 = 0;
    let mut y: u16 = EPOCH_YEAR;
    while y < year
        invariant
            EPOCH_YEAR <= y <= year,
            days == days_before_year(y as int),
        decreases year - y,
    {
        proof {
            lemma_days_before_year_bound(y as int);
        }
        days = days + if leap(y) {
            366
        } else {
            365
        };
        y = y + 1;
    }
    let mut m: u16 = 1;
    let mut md: u64 = 0;
    while m < month
        invariant
            1 <= m <= month <= 12,
            md == days_before_month(year as int, m as int),
        decreases month - m,
    {
        proof {
            lemma_days_before_month_bound(year as int, m as int);
        }
        md = md + days_in_month(year, m);
        m = m + 1;
    }
    proof {
        lemma_days_before_year_bound(year as int);
        lemma_days_before_month_bound(year as int, month as int);
        assert(days <= 366 * 65535) by (nonlinear_arith)
            requires
                days <= 366 * (year - 1970),
                year <= 65535,
        ;
    }
    let total_days: u64 = days + md + day as u64 - 1;
    let r: u64 = (((total_days * 24 + hour as u64) * 60 + minute as u64) * 60 + second as u64)
        * 1000 + millis as u64;
    Some(r)
}

} // verus!
