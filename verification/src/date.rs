//! Proleptic Gregorian calendar dates and the relative-date computation used
//! by the trending-repository request builder.
//!
//! A [`Date`] is a plain year/month/day triple; its mathematical model is
//! [`Date::day_index`], the number of days since the first of January of year
//! one. The builder needs "the calendar date one week earlier" and its
//! `YYYY-MM-DD` rendering, both of which are verified against that model.

use vstd::prelude::*;

verus! {

/// A year has an extra day exactly when the Gregorian leap rule says so.
pub open spec fn is_leap_year(y: int) -> bool {
    y % 4 == 0 && (y % 100 != 0 || y % 400 == 0)
}

/// Number of days in month `m` of year `y`.
pub open spec fn days_in_month(y: int, m: int) -> int {
    if m == 2 {
        if is_leap_year(y) {
            29
        } else {
            28
        }
    } else if m == 4 || m == 6 || m == 9 || m == 11 {
        30
    } else {
        31
    }
}

/// Number of days of year `y` that lie strictly before month `m`.
pub open spec fn days_before_month(y: int, m: int) -> int {
    let base: int = if m == 1 {
        0
    } else if m == 2 {
        31
    } else if m == 3 {
        59
    } else if m == 4 {
        90
    } else if m == 5 {
        120
    } else if m == 6 {
        151
    } else if m == 7 {
        181
    } else if m == 8 {
        212
    } else if m == 9 {
        243
    } else if m == 10 {
        273
    } else if m == 11 {
        304
    } else {
        334
    };
    if m > 2 && is_leap_year(y) {
        base + 1
    } else {
        base
    }
}

/// Number of leap years among years `1, ..., y - 1`.
pub open spec fn leap_years_before(y: int) -> int {
    (y - 1) / 4 - (y - 1) / 100 + (y - 1) / 400
}

/// Day index of the first of January of year `y` (year one starts at zero).
pub open spec fn year_start_index(y: int) -> int {
    365 * (y - 1) + leap_years_before(y)
}

/// A calendar date, held as plain year/month/day numbers.
#[derive(Clone, Copy, Debug, PartialEq, Eq, Structural)]
pub struct Date {
    pub year: u32,
    pub month: u32,
    pub day: u32,
}

impl Date {
    /// A date the library works with: a valid calendar date in the supported
    /// year range (the range keeps the `YYYY-MM-DD` rendering four digits).
    pub open spec fn wf(self) -> bool {
        &&& 1 <= self.year <= 9999
        &&& 1 <= self.month <= 12
        &&& 1 <= self.day <= days_in_month(self.year as int, self.month as int)
    }

    /// The date's position in the calendar: days since the first of January
    /// of year one.
    pub open spec fn day_index(self) -> int {
        year_start_index(self.year as int) + days_before_month(
            self.year as int,
            self.month as int,
        ) + self.day - 1
    }

    /// Builds a date after checking that the triple is a valid calendar date
    /// in the supported year range; rejects everything else.
    pub fn new(year: u32, month: u32, day: u32) -> (r: Option<Date>)
        ensures
            r is Some <==> (Date { year, month, day }).wf(),
            r is Some ==> r->0 == (Date { year, month, day }),
    {
        if 1 <= year && year <= 9999 && 1 <= month && month <= 12 && 1 <= day && day
            <= days_in_month_exec(year, month) {
            Some(Date { year, month, day })
        } else {
            None
        }
    }

    /// Computes the day index as a machine integer.
    pub fn day_number(&self) -> (r: u32)
        requires
            self.wf(),
        ensures
            r == self.day_index(),
    {
        let y = self.year - 1;
        proof {
            assert(y / 100 <= y / 4 && y / 4 <= y) by (nonlinear_arith)
                requires
                    y >= 0,
            ;
            assert(365 * y <= 365 * 9998) by (nonlinear_arith)
                requires
                    0 <= y <= 9998,
            ;
        }
        let leaps = y / 4 - y / 100 + y / 400;
        let dbm = days_before_month_exec(self.year, self.month);
        365 * y + leaps + dbm + self.day - 1
    }
}

/// Dividing by `k` steps up by one exactly at the multiples of `k`.
proof fn lemma_div_step(n: int, k: int)
    requires
        n >= 1,
        k >= 2,
    ensures
        n % k == 0 ==> n / k == (n - 1) / k + 1,
        n % k != 0 ==> n / k == (n - 1) / k,
{
    vstd::arithmetic::div_mod::lemma_fundamental_div_mod(n, k);
    vstd::arithmetic::div_mod::lemma_mod_pos_bound(n, k);
    if n % k == 0 {
        assert((n / k - 1) * k + (k - 1) == k * (n / k) - 1) by (nonlinear_arith);
        vstd::arithmetic::div_mod::lemma_fundamental_div_mod_converse(n - 1, k, n / k - 1, k - 1);
    } else {
        assert((n / k) * k == k * (n / k)) by (nonlinear_arith);
        vstd::arithmetic::div_mod::lemma_fundamental_div_mod_converse(n - 1, k, n / k, n % k - 1);
    }
}

/// A multiple of 400 is a multiple of 100, and a multiple of 100 one of 4.
proof fn lemma_divisibility_chain(n: int)
    requires
        n >= 0,
    ensures
        n % 400 == 0 ==> n % 100 == 0,
        n % 100 == 0 ==> n % 4 == 0,
{
    if n % 400 == 0 {
        assert(n == 100 * (4 * (n / 400))) by (nonlinear_arith)
            requires
                n % 400 == 0,
        ;
        vstd::arithmetic::div_mod::lemma_mod_multiples_basic(4 * (n / 400), 100);
    }
    if n % 100 == 0 {
        assert(n == 4 * (25 * (n / 100))) by (nonlinear_arith)
            requires
                n % 100 == 0,
        ;
        vstd::arithmetic::div_mod::lemma_mod_multiples_basic(25 * (n / 100), 4);
    }
}

/// From one first of January to the next lie 365 days, or 366 across a leap
/// year.
proof fn lemma_year_start_step(y: int)
    requires
        y >= 1,
    ensures
        year_start_index(y + 1) == year_start_index(y) + 365 + if is_leap_year(y) {
            1int
        } else {
            0int
        },
{
    lemma_div_step(y, 4);
    lemma_div_step(y, 100);
    lemma_div_step(y, 400);
    lemma_divisibility_chain(y);
}

/// Later years start at strictly later day indexes, at least a common year
/// apart.
proof fn lemma_year_start_monotone(y1: int, y2: int)
    requires
        1 <= y1 < y2,
    ensures
        year_start_index(y1) + 365 * (y2 - y1) <= year_start_index(y2),
    decreases y2 - y1,
{
    lemma_year_start_step(y2 - 1);
    if y1 < y2 - 1 {
        lemma_year_start_monotone(y1, y2 - 1);
    }
}

/// Within its year, a date's offset stays below the year's length.
proof fn lemma_day_offset_bounds(d: Date)
    requires
        d.wf(),
    ensures
        0 <= d.day_index() - year_start_index(d.year as int),
        d.day_index() < year_start_index(d.year as int + 1),
{
    lemma_year_start_step(d.year as int);
}

/// The day index determines the date: no two valid dates share one.
pub proof fn lemma_day_index_injective(d1: Date, d2: Date)
    requires
        d1.wf(),
        d2.wf(),
        d1.day_index() == d2.day_index(),
    ensures
        d1 == d2,
{
    lemma_day_offset_bounds(d1);
    lemma_day_offset_bounds(d2);
    if d1.year < d2.year {
        lemma_year_start_monotone(d1.year as int + 1, d2.year as int + 1);
    }
    if d2.year < d1.year {
        lemma_year_start_monotone(d2.year as int + 1, d1.year as int + 1);
    }
}

impl Date {
    /// The calendar date one week before this one, written out by cases: the
    /// week either stays in the month, steps into the previous month, or
    /// steps into December of the previous year.
    pub open spec fn week_earlier_spec(self) -> Date {
        if self.day > 7 {
            Date { year: self.year, month: self.month, day: (self.day - 7) as u32 }
        } else if self.month > 1 {
            Date {
                year: self.year,
                month: (self.month - 1) as u32,
                day: (days_in_month(self.year as int, self.month as int - 1) - 7
                    + self.day) as u32,
            }
        } else {
            Date { year: (self.year - 1) as u32, month: 12, day: (24 + self.day) as u32 }
        }
    }

    /// The calendar date exactly one week before this one.
    pub fn week_earlier(&self) -> (r: Date)
        requires
            self.wf(),
            self.day_index() >= 7,
        ensures
            r == self.week_earlier_spec(),
            r.wf(),
            r.day_index() == self.day_index() - 7,
    {
        proof {
            lemma_week_earlier_spec(*self);
        }
        if self.day > 7 {
            Date { year: self.year, month: self.month, day: self.day - 7 }
        } else if self.month > 1 {
            let prev_len = days_in_month_exec(self.year, self.month - 1);
            Date { year: self.year, month: self.month - 1, day: prev_len - 7 + self.day }
        } else {
            Date { year: self.year - 1, month: 12, day: 31 - 7 + self.day }
        }
    }
}

/// Stepping a valid date one week back keeps it valid and moves its day
/// index back by exactly seven.
pub proof fn lemma_week_earlier_spec(d: Date)
    requires
        d.wf(),
        d.day_index() >= 7,
    ensures
        d.week_earlier_spec().wf(),
        d.week_earlier_spec().day_index() == d.day_index() - 7,
{
}

/// The decimal digit character for `d`.
pub open spec fn digit_char(d: int) -> char {
    if d == 0 {
        '0'
    } else if d == 1 {
        '1'
    } else if d == 2 {
        '2'
    } else if d == 3 {
        '3'
    } else if d == 4 {
        '4'
    } else if d == 5 {
        '5'
    } else if d == 6 {
        '6'
    } else if d == 7 {
        '7'
    } else if d == 8 {
        '8'
    } else {
        '9'
    }
}

impl Date {
    /// The date rendered as `YYYY-MM-DD`: four year digits, two month digits,
    /// two day digits, all zero-padded.
    pub open spec fn ymd_seq(self) -> Seq<char> {
        let y = self.year as int;
        let m = self.month as int;
        let d = self.day as int;
        seq![
            digit_char(y / 1000),
            digit_char(y / 100 % 10),
            digit_char(y / 10 % 10),
            digit_char(y % 10),
            '-',
            digit_char(m / 10),
            digit_char(m % 10),
            '-',
            digit_char(d / 10),
            digit_char(d % 10),
        ]
    }

    /// Renders the date as its `YYYY-MM-DD` string.
    pub fn ymd_string(&self) -> (r: String)
        requires
            self.wf(),
        ensures
            r@ == self.ymd_seq(),
    {
        proof {
            assert(self.year as int / 1000 <= 9) by (nonlinear_arith)
                requires
                    self.year <= 9999,
            ;
            reveal_strlit("-");
        }
        let mut s = String::new();
        push_digit(&mut s, self.year / 1000);
        push_digit(&mut s, self.year / 100 % 10);
        push_digit(&mut s, self.year / 10 % 10);
        push_digit(&mut s, self.year % 10);
        s.append("-");
        push_digit(&mut s, self.month / 10);
        push_digit(&mut s, self.month % 10);
        s.append("-");
        push_digit(&mut s, self.day / 10);
        push_digit(&mut s, self.day % 10);
        proof {
            assert(s@ =~= self.ymd_seq());
        }
        s
    }
}

/// Appends the decimal digit character for `d` to `s`.
fn push_digit(s: &mut String, d: u32)
    requires
        d < 10,
    ensures
        final (s)@ == old(s)@.push(digit_char(d as int)),
{
    proof {
        reveal_strlit("0");
        reveal_strlit("1");
        reveal_strlit("2");
        reveal_strlit("3");
        reveal_strlit("4");
        reveal_strlit("5");
        reveal_strlit("6");
        reveal_strlit("7");
        reveal_strlit("8");
        reveal_strlit("9");
    }
    let ghost pre = s@;
    if d == 0 {
        s.append("0");
    } else if d == 1 {
        s.append("1");
    } else if d == 2 {
        s.append("2");
    } else if d == 3 {
        s.append("3");
    } else if d == 4 {
        s.append("4");
    } else if d == 5 {
        s.append("5");
    } else if d == 6 {
        s.append("6");
    } else if d == 7 {
        s.append("7");
    } else if d == 8 {
        s.append("8");
    } else {
        s.append("9");
    }
    proof {
        assert(s@ =~= pre.push(digit_char(d as int)));
    }
}

/// Different digits render as different characters.
proof fn lemma_digit_char_injective(a: int, b: int)
    requires
        0 <= a < 10,
        0 <= b < 10,
        digit_char(a) == digit_char(b),
    ensures
        a == b,
{
}

/// A number up to 9999 is recovered from its four decimal digits.
proof fn lemma_four_digits_determine(y: int)
    requires
        0 <= y <= 9999,
    ensures
        y == 1000 * (y / 1000) + 100 * (y / 100 % 10) + 10 * (y / 10 % 10) + y % 10,
{
    vstd::arithmetic::div_mod::lemma_div_denominator(y, 10, 10);
    vstd::arithmetic::div_mod::lemma_div_denominator(y, 100, 10);
    assert(y == 10 * (y / 10) + y % 10);
    assert(y / 10 == 10 * (y / 10 / 10) + (y / 10) % 10);
    assert(y / 100 == 10 * (y / 100 / 10) + (y / 100) % 10);
    assert(y / 10 % 10 == y / 10 - 10 * (y / 100));
    assert(y / 100 % 10 == y / 100 - 10 * (y / 1000));
}

/// The `YYYY-MM-DD` rendering determines the date: no two valid dates share
/// one.
pub proof fn lemma_ymd_seq_injective(d1: Date, d2: Date)
    requires
        d1.wf(),
        d2.wf(),
        d1.ymd_seq() == d2.ymd_seq(),
    ensures
        d1 == d2,
{
    let y1 = d1.year as int;
    let y2 = d2.year as int;
    let m1 = d1.month as int;
    let m2 = d2.month as int;
    let a1 = d1.day as int;
    let a2 = d2.day as int;
    assert(y1 / 1000 <= 9 && y2 / 1000 <= 9) by (nonlinear_arith)
        requires
            0 <= y1 <= 9999,
            0 <= y2 <= 9999,
    ;
    assert(d1.ymd_seq()[0] == d2.ymd_seq()[0]);
    lemma_digit_char_injective(y1 / 1000, y2 / 1000);
    assert(d1.ymd_seq()[1] == d2.ymd_seq()[1]);
    lemma_digit_char_injective(y1 / 100 % 10, y2 / 100 % 10);
    assert(d1.ymd_seq()[2] == d2.ymd_seq()[2]);
    lemma_digit_char_injective(y1 / 10 % 10, y2 / 10 % 10);
    assert(d1.ymd_seq()[3] == d2.ymd_seq()[3]);
    lemma_digit_char_injective(y1 % 10, y2 % 10);
    lemma_four_digits_determine(y1);
    lemma_four_digits_determine(y2);
    assert(d1.ymd_seq()[5] == d2.ymd_seq()[5]);
    lemma_digit_char_injective(m1 / 10, m2 / 10);
    assert(d1.ymd_seq()[6] == d2.ymd_seq()[6]);
    lemma_digit_char_injective(m1 % 10, m2 % 10);
    assert(d1.ymd_seq()[8] == d2.ymd_seq()[8]);
    lemma_digit_char_injective(a1 / 10, a2 / 10);
    assert(d1.ymd_seq()[9] == d2.ymd_seq()[9]);
    lemma_digit_char_injective(a1 % 10, a2 % 10);
    assert(m1 == 10 * (m1 / 10) + m1 % 10);
    assert(m2 == 10 * (m2 / 10) + m2 % 10);
    assert(a1 == 10 * (a1 / 10) + a1 % 10);
    assert(a2 == 10 * (a2 / 10) + a2 % 10);
}

/// Executable form of [`is_leap_year`].
pub fn is_leap_year_exec(y: u32) -> (r: bool)
    ensures
        r == is_leap_year(y as int),
{
    y % 4 == 0 && (y % 100 != 0 || y % 400 == 0)
}

/// Executable form of [`days_in_month`].
pub fn days_in_month_exec(y: u32, m: u32) -> (r: u32)
    ensures
        r == days_in_month(y as int, m as int),
{
    if m == 2 {
        if is_leap_year_exec(y) {
            29
        } else {
            28
        }
    } else if m == 4 || m == 6 || m == 9 || m == 11 {
        30
    } else {
        31
    }
}

/// Executable form of [`days_before_month`].
pub fn days_before_month_exec(y: u32, m: u32) -> (r: u32)
    ensures
        r == days_before_month(y as int, m as int),
{
    let base: u32 = if m == 1 {
        0
    } else if m == 2 {
        31
    } else if m == 3 {
        59
    } else if m == 4 {
        90
    } else if m == 5 {
        120
    } else if m == 6 {
        151
    } else if m == 7 {
        181
    } else if m == 8 {
        212
    } else if m == 9 {
        243
    } else if m == 10 {
        273
    } else if m == 11 {
        304
    } else {
        334
    };
    if m > 2 && is_leap_year_exec(y) {
        base + 1
    } else {
        base
    }
}

} // verus!
