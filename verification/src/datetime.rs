//! Calendar date and time of day, as the databases deliver them, and the
//! chrono computations that the mailer makes on them.
use vstd::prelude::*;
use crate::text::zero_padded;
use chrono::Timelike;

verus! {

/// The earliest and latest years that chrono's `NaiveDate` represents.
pub const MIN_YEAR: i32 = -262143;
pub const MAX_YEAR: i32 = 262142;

pub const NANOS_PER_SEC: u64 = 1_000_000_000;
pub const SECS_PER_DAY: u64 = 86_400;

/// `NaiveDate` of chrono, only handed from one call to the next.
#[verifier::external_type_specification]
#[verifier::external_body]
pub struct ExNaiveDate(chrono::NaiveDate);

pub open spec fn is_leap_year(y: int) -> bool {
    y % 4 == 0 && (y % 100 != 0 || y % 400 == 0)
}

pub open spec fn days_in_month(y: int, m: int) -> int {
    if m == 2 {
        if is_leap_year(y) {
            29
        } else {
            28
        }
    } else if m == 4 || m == 6 || m == 9 || m == 11 {
        30
    } else {
        31
    }
}

/// A day of the proleptic Gregorian calendar that chrono can represent.
pub open spec fn valid_date(y: int, m: int, d: int) -> bool {
    &&& MIN_YEAR <= y <= MAX_YEAR
    &&& 1 <= m <= 12
    &&& 1 <= d <= days_in_month(y, m)
}

/// Days of the months of year `y` before month `m`.
pub open spec fn days_before_month(y: int, m: int) -> int
    decreases m,
{
    if m <= 1 {
        0
    } else {
        days_before_month(y, m - 1) + days_in_month(y, m - 1)
    }
}

/// Days from January 1 of year 1 to January 1 of year `y` (negative before).
pub open spec fn days_before_year(y: int) -> int {
    let p = y - 1;
    365 * p + p / 4 - p / 100 + p / 400
}

/// The day number of the proleptic Gregorian calendar with January 1, year 1
/// as day 1 (chrono's `num_days_from_ce`).
pub open spec fn day_number(y: int, m: int, d: int) -> int {
    days_before_year(y) + days_before_month(y, m) + d
}

/// The fields of a date and time of day.
pub struct DateTimeView {
    pub year: int,
    pub month: int,
    pub day: int,
    pub hour: int,
    pub minute: int,
    pub second: int,
    pub nanosecond: int,
}

impl DateTimeView {
    /// A valid calendar day and a time of day without leap second.
    pub open spec fn wf(self) -> bool {
        &&& valid_date(self.year, self.month, self.day)
        &&& 0 <= self.hour < 24
        &&& 0 <= self.minute < 60
        &&& 0 <= self.second < 60
        &&& 0 <= self.nanosecond < NANOS_PER_SEC
    }

    /// Seconds since midnight.
    pub open spec fn second_of_day(self) -> int {
        self.hour * 3600 + self.minute * 60 + self.second
    }

    /// Nanoseconds since the start of day 0 of `day_number`.
    pub open spec fn nanos_since_epoch(self) -> int {
        ((day_number(self.year, self.month, self.day) * SECS_PER_DAY + self.second_of_day())
            * NANOS_PER_SEC) + self.nanosecond
    }
}

/// A date and time of day without time zone (a `DATETIME` column).
#[derive(Clone, Copy)]
pub struct DateTime {
    year: i32,
    month: u32,
    day: u32,
    hour: u32,
    minute: u32,
    second: u32,
    nanosecond: u32,
}

impl View for DateTime {
    type V = DateTimeView;

    closed spec fn view(&self) -> DateTimeView {
        DateTimeView {
            year: self.year as int,
            month: self.month as int,
            day: self.day as int,
            hour: self.hour as int,
            minute: self.minute as int,
            second: self.second as int,
            nanosecond: self.nanosecond as int,
        }
    }
}

/// chrono's `NaiveDate::from_ymd_opt`: `Some` exactly for a valid calendar
/// day of a year in chrono's range.
#[verifier::external_body]
fn naive_date(year: i32, month: u32, day: u32) -> (res: Option<chrono::NaiveDate>)
    ensures
        res is Some <==> valid_date(year as int, month as int, day as int),
{
    chrono::NaiveDate::from_ymd_opt(year, month, day)
}

impl DateTime {
    #[verifier::type_invariant]
    spec fn inv(self) -> bool {
        self@.wf()
    }

    /// The date and time with these fields; `None` when they name no day of
    /// the calendar, no time of day, or a leap second.
    pub fn new(
        year: i32,
        month: u32,
        day: u32,
        hour: u32,
        minute: u32,
        second: u32,
        nanosecond: u32,
    ) -> (res: Option<DateTime>)
        ensures
            res is Some <==> (DateTimeView {
                year: year as int,
                month: month as int,
                day: day as int,
                hour: hour as int,
                minute: minute as int,
                second: second as int,
                nanosecond: nanosecond as int,
            }).wf(),
            res matches Some(dt) ==> dt@ == (DateTimeView {
                year: year as int,
                month: month as int,
                day: day as int,
                hour: hour as int,
                minute: minute as int,
                second: second as int,
                nanosecond: nanosecond as int,
            }),
    {
        let date = naive_date(year, month, day);
        if date.is_none() || hour >= 24 || minute >= 60 || second >= 60 || nanosecond
            >= 1_000_000_000 {
            None
        } else {
            Some(DateTime { year, month, day, hour, minute, second, nanosecond })
        }
    }

    pub fn year(&self) -> (res: i32)
        ensures
            res as int == self@.year,
    {
        self.year
    }

    pub fn month(&self) -> (res: u32)
        ensures
            res as int == self@.month,
    {
        self.month
    }

    pub fn day(&self) -> (res: u32)
        ensures
            res as int == self@.day,
    {
        self.day
    }

    pub fn hour(&self) -> (res: u32)
        ensures
            res as int == self@.hour,
    {
        self.hour
    }

    pub fn minute(&self) -> (res: u32)
        ensures
            res as int == self@.minute,
    {
        self.minute
    }

    pub fn second(&self) -> (res: u32)
        ensures
            res as int == self@.second,
    {
        self.second
    }

    pub fn nanosecond(&self) -> (res: u32)
        ensures
            res as int == self@.nanosecond,
    {
        self.nanosecond
    }

    /// Every `DateTime` has valid fields.
    pub fn check_wf(&self)
        ensures
            self@.wf(),
    {
        proof {
            use_type_invariant(self);
        }
    }
}

/// A signed span of time as chrono's `TimeDelta` reports it: whole seconds
/// and the nanoseconds beyond them, both with the sign of the span.
struct Delta {
    secs: i64,
    nanos: i32,
}

impl Delta {
    spec fn total(&self) -> int {
        self.secs * NANOS_PER_SEC + self.nanos
    }
}

/// A time of day: seconds since midnight and nanoseconds within the second.
struct ClockTime {
    secs: u32,
    nanos: u32,
}

/// `hh:mm:ss` followed by the fraction of the second that chrono's `%.f`
/// writes: nothing, or 3, 6 or 9 digits, the fewest that hold it exactly.
pub open spec fn clock_text(secs: nat, nanos: nat) -> Seq<char> {
    zero_padded(secs / 3600, 2) + ":"@ + zero_padded((secs / 60) % 60, 2) + ":"@ + zero_padded(
        secs % 60,
        2,
    ) + fraction_text(nanos)
}

pub open spec fn fraction_text(nanos: nat) -> Seq<char> {
    if nanos == 0 {
        Seq::empty()
    } else if nanos % 1_000_000 == 0 {
        "."@ + zero_padded(nanos / 1_000_000, 3)
    } else if nanos % 1_000 == 0 {
        "."@ + zero_padded(nanos / 1_000, 6)
    } else {
        "."@ + zero_padded(nanos, 9)
    }
}

/// The year as chrono's `%Y` writes it: four digits at least, with a sign
/// outside the years 0 to 9999.
pub open spec fn year_text(y: int) -> Seq<char> {
    if 0 <= y <= 9999 {
        zero_padded(y as nat, 4)
    } else if y < 0 {
        "-"@ + zero_padded((-y) as nat, 4)
    } else {
        "+"@ + zero_padded(y as nat, 4)
    }
}

/// `hh:mm:ss  dd-mm-yyyy`, the text of the pattern `%H:%M:%S  %d-%m-%Y`.
pub open spec fn day_time_text(v: DateTimeView) -> Seq<char> {
    zero_padded(v.hour as nat, 2) + ":"@ + zero_padded(v.minute as nat, 2) + ":"@ + zero_padded(
        v.second as nat,
        2,
    ) + "  "@ + zero_padded(v.day as nat, 2) + "-"@ + zero_padded(v.month as nat, 2) + "-"@
        + year_text(v.year)
}

/// The date and time text of a date of the years 0 to 9999 is 20 characters:
/// hour, minute and second as two digits each at positions 0, 3 and 6, then
/// two spaces, the day at 10, the month at 13 and the year as four digits at 16.
pub proof fn lemma_day_time_positions(v: DateTimeView)
    requires
        v.wf(),
        0 <= v.year <= 9999,
    ensures
        day_time_text(v).len() == 20,
        day_time_text(v).subrange(0, 2) == zero_padded(v.hour as nat, 2),
        day_time_text(v).subrange(3, 5) == zero_padded(v.minute as nat, 2),
        day_time_text(v).subrange(6, 8) == zero_padded(v.second as nat, 2),
        day_time_text(v).subrange(10, 12) == zero_padded(v.day as nat, 2),
        day_time_text(v).subrange(13, 15) == zero_padded(v.month as nat, 2),
        day_time_text(v).subrange(16, 20) == zero_padded(v.year as nat, 4),
        day_time_text(v)[2] == ':' && day_time_text(v)[5] == ':' && day_time_text(v)[12] == '-'
            && day_time_text(v)[15] == '-',
{
    reveal_strlit(":");
    reveal_strlit("  ");
    reveal_strlit("-");
    reveal_with_fuel(crate::text::pow10, 5);
    lemma_zero_padded_len(v.hour as nat, 2);
    lemma_zero_padded_len(v.minute as nat, 2);
    lemma_zero_padded_len(v.second as nat, 2);
    lemma_zero_padded_len(v.day as nat, 2);
    lemma_zero_padded_len(v.month as nat, 2);
    lemma_zero_padded_len(v.year as nat, 4);
    let h = zero_padded(v.hour as nat, 2);
    let mi = zero_padded(v.minute as nat, 2);
    let se = zero_padded(v.second as nat, 2);
    let d = zero_padded(v.day as nat, 2);
    let mo = zero_padded(v.month as nat, 2);
    let y = zero_padded(v.year as nat, 4);
    let t = day_time_text(v);
    assert(t =~= h + seq![':'] + mi + seq![':'] + se + seq![' ', ' '] + d + seq!['-'] + mo + seq!['-'] + y);
    assert(t.subrange(0, 2) =~= h);
    assert(t.subrange(3, 5) =~= mi);
    assert(t.subrange(6, 8) =~= se);
    assert(t.subrange(10, 12) =~= d);
    assert(t.subrange(13, 15) =~= mo);
    assert(t.subrange(16, 20) =~= y);
}

proof fn lemma_decimal_len(n: nat, k: nat)
    requires
        n < crate::text::pow10(k),
        k >= 1,
    ensures
        crate::text::decimal(n).len() <= k,
    decreases k,
{
    if n >= 10 {
        assert(k >= 2) by {
            if k == 1 {
                assert(crate::text::pow10(1) == 10 * crate::text::pow10(0));
            }
        }
        assert(n / 10 < crate::text::pow10((k - 1) as nat)) by (nonlinear_arith)
            requires
                n < crate::text::pow10(k),
                crate::text::pow10(k) == 10 * crate::text::pow10((k - 1) as nat),
        ;
        lemma_decimal_len(n / 10, (k - 1) as nat);
    }
}

proof fn lemma_zero_padded_len(n: nat, k: nat)
    requires
        k >= 1,
        n < crate::text::pow10(k),
    ensures
        zero_padded(n, k).len() == k,
{
    lemma_decimal_len(n, k);
}

/// The time of day that the span from `start` to `end` reaches when it is
/// added to midnight, wrapping around whole days, as text.
pub open spec fn elapsed_clock_text(start: DateTimeView, end: DateTimeView) -> Seq<char> {
    let total = end.nanos_since_epoch() - start.nanos_since_epoch();
    clock_text(((total / NANOS_PER_SEC as int) % SECS_PER_DAY as int) as nat, (total % NANOS_PER_SEC as int) as nat)
}

/// Nanoseconds since midnight, from the fields of a time of day.
pub open spec fn nanos_of_day(v: DateTimeView) -> int {
    (v.hour * 3600 + v.minute * 60 + v.second) * 1_000_000_000 + v.nanosecond
}

/// The elapsed clock text of two valid date-times is that of the difference
/// of their times of day, every field counted: whole days between the dates
/// wrap away, and what is left, taken modulo a day, is written as
/// `hh:mm:ss` and the fraction of the second.
pub proof fn lemma_elapsed_clock_of_times(start: DateTimeView, end: DateTimeView)
    requires
        start.wf(),
        end.wf(),
    ensures
        elapsed_clock_text(start, end) == clock_text(
            (((nanos_of_day(end) - nanos_of_day(start)) / 1_000_000_000) % 86_400) as nat,
            ((nanos_of_day(end) - nanos_of_day(start)) % 1_000_000_000) as nat,
        ),
{
    let x = nanos_of_day(end) - nanos_of_day(start);
    let k = day_number(end.year, end.month, end.day) - day_number(start.year, start.month, start.day);
    let total = end.nanos_since_epoch() - start.nanos_since_epoch();
    let dn_e = day_number(end.year, end.month, end.day);
    let dn_s = day_number(start.year, start.month, start.day);
    assert(end.nanos_since_epoch() == dn_e * 86_400_000_000_000 + nanos_of_day(end)) by (nonlinear_arith)
        requires
            end.nanos_since_epoch() == ((dn_e * 86_400 + end.second_of_day()) * 1_000_000_000)
                + end.nanosecond,
            end.second_of_day() == end.hour * 3600 + end.minute * 60 + end.second,
            nanos_of_day(end) == (end.hour * 3600 + end.minute * 60 + end.second) * 1_000_000_000
                + end.nanosecond,
    ;
    assert(start.nanos_since_epoch() == dn_s * 86_400_000_000_000 + nanos_of_day(start)) by (nonlinear_arith)
        requires
            start.nanos_since_epoch() == ((dn_s * 86_400 + start.second_of_day()) * 1_000_000_000)
                + start.nanosecond,
            start.second_of_day() == start.hour * 3600 + start.minute * 60 + start.second,
            nanos_of_day(start) == (start.hour * 3600 + start.minute * 60 + start.second)
                * 1_000_000_000 + start.nanosecond,
    ;
    assert(total == k * 86_400_000_000_000 + x) by (nonlinear_arith)
        requires
            total == end.nanos_since_epoch() - start.nanos_since_epoch(),
            end.nanos_since_epoch() == dn_e * 86_400_000_000_000 + nanos_of_day(end),
            start.nanos_since_epoch() == dn_s * 86_400_000_000_000 + nanos_of_day(start),
            k == dn_e - dn_s,
            x == nanos_of_day(end) - nanos_of_day(start),
    ;
    let q = x / 1_000_000_000;
    let r = x % 1_000_000_000;
    vstd::arithmetic::div_mod::lemma_fundamental_div_mod(x, 1_000_000_000);
    assert(total == (q + k * 86_400) * 1_000_000_000 + r) by (nonlinear_arith)
        requires
            total == k * 86_400_000_000_000 + x,
            x == 1_000_000_000 * q + r,
    ;
    vstd::arithmetic::div_mod::lemma_fundamental_div_mod_converse(total, 1_000_000_000, q + k * 86_400, r);
    let q2 = q / 86_400;
    let r2 = q % 86_400;
    vstd::arithmetic::div_mod::lemma_fundamental_div_mod(q, 86_400);
    assert(q + k * 86_400 == (q2 + k) * 86_400 + r2) by (nonlinear_arith)
        requires
            q == 86_400 * q2 + r2,
    ;
    vstd::arithmetic::div_mod::lemma_fundamental_div_mod_converse(q + k * 86_400, 86_400, q2 + k, r2);
}

/// chrono's `NaiveDateTime - NaiveDateTime` (`signed_duration_since`), read
/// back with `TimeDelta::num_seconds` and `TimeDelta::subsec_nanos`: the exact
/// difference in nanoseconds (neither value is a leap second).
#[verifier::external_body]
fn signed_duration_since(end: &DateTime, start: &DateTime) -> (d: Delta)
    requires
        end@.wf(),
        start@.wf(),
    ensures
        d.total() == end@.nanos_since_epoch() - start@.nanos_since_epoch(),
        -NANOS_PER_SEC < d.nanos < NANOS_PER_SEC,
{
    let a = chrono::NaiveDate::from_ymd_opt(end.year, end.month, end.day).unwrap();
    let a = a.and_hms_nano_opt(end.hour, end.minute, end.second, end.nanosecond).unwrap();
    let b = chrono::NaiveDate::from_ymd_opt(start.year, start.month, start.day).unwrap();
    let b = b.and_hms_nano_opt(start.hour, start.minute, start.second, start.nanosecond).unwrap();
    let delta = a - b;
    Delta { secs: delta.num_seconds(), nanos: delta.subsec_nanos() }
}

/// chrono's `NaiveTime + TimeDelta` on midnight (`NaiveTime::from_hms_opt(0, 0, 0)`):
/// the addition wraps around whole days.
#[verifier::external_body]
fn midnight_plus(d: &Delta) -> (t: ClockTime)
    requires
        -20_000_000_000_000 <= d.secs <= 20_000_000_000_000,
        -NANOS_PER_SEC < d.nanos < NANOS_PER_SEC,
    ensures
        t.secs == (d.total() / NANOS_PER_SEC as int) % SECS_PER_DAY as int,
        t.nanos == d.total() % NANOS_PER_SEC as int,
{
    let delta = chrono::TimeDelta::seconds(d.secs) + chrono::TimeDelta::nanoseconds(d.nanos as i64);
    let t = chrono::NaiveTime::from_hms_opt(0, 0, 0).unwrap() + delta;
    ClockTime { secs: t.num_seconds_from_midnight(), nanos: t.nanosecond() }
}

/// `Display` of chrono's `NaiveTime` (`%H:%M:%S%.f`).
#[verifier::external_body]
fn naive_time_text(t: &ClockTime) -> (res: String)
    requires
        t.secs < SECS_PER_DAY,
        t.nanos < NANOS_PER_SEC,
    ensures
        res@ == clock_text(t.secs as nat, t.nanos as nat),
{
    chrono::NaiveTime::from_num_seconds_from_midnight_opt(t.secs, t.nanos).unwrap().to_string()
}

/// chrono's `NaiveDateTime::format("%H:%M:%S  %d-%m-%Y")`, written out.
#[verifier::external_body]
fn format_day_time(dt: &DateTime) -> (res: String)
    requires
        dt@.wf(),
    ensures
        res@ == day_time_text(dt@),
{
    let d = chrono::NaiveDate::from_ymd_opt(dt.year, dt.month, dt.day).unwrap();
    let d = d.and_hms_nano_opt(dt.hour, dt.minute, dt.second, dt.nanosecond).unwrap();
    d.format("%H:%M:%S  %d-%m-%Y").to_string()
}

proof fn lemma_days_before_month_bounds(y: int, m: int)
    requires
        1 <= m <= 12,
    ensures
        0 <= days_before_month(y, m) <= 31 * (m - 1),
    decreases m,
{
    if m > 1 {
        lemma_days_before_month_bounds(y, m - 1);
    }
}

proof fn lemma_days_before_year_bounds(y: int)
    requires
        MIN_YEAR <= y <= MAX_YEAR,
    ensures
        -100_000_000 <= days_before_year(y) <= 100_000_000,
{
    let p = y - 1;
    assert(-262144 <= p <= 262141);
    assert(-96_000_000 <= 365 * p <= 96_000_000) by (nonlinear_arith)
        requires
            -262144 <= p <= 262141,
    ;
}

/// The nanosecond count of every valid date and time is far inside `i128`.
proof fn lemma_nanos_bounds(v: DateTimeView)
    requires
        v.wf(),
    ensures
        -9_000_000_000_000_000_000_000 <= v.nanos_since_epoch() <= 9_000_000_000_000_000_000_000,
{
    lemma_days_before_year_bounds(v.year);
    lemma_days_before_month_bounds(v.year, v.month);
    let dn = day_number(v.year, v.month, v.day);
    let sod = v.second_of_day();
    assert(-100_000_000 <= dn <= 100_000_400);
    assert(0 <= sod < 86_400);
    let secs = dn * 86_400 + sod;
    assert(-8_640_000_000_000 <= dn * 86_400 <= 8_640_034_560_000) by (nonlinear_arith)
        requires
            -100_000_000 <= dn <= 100_000_400,
    ;
    assert(-8_640_000_000_000_000_000_000 <= secs * 1_000_000_000 <= 8_700_000_000_000_000_000_000)
        by (nonlinear_arith)
        requires
            -8_640_000_000_000 <= secs <= 8_640_034_646_400,
    ;
}

proof fn lemma_delta_secs_bound(d: &Delta, total: int)
    requires
        d.total() == total,
        -18_000_000_000_000_000_000_000 <= total <= 18_000_000_000_000_000_000_000,
        -NANOS_PER_SEC < d.nanos < NANOS_PER_SEC,
    ensures
        -20_000_000_000_000 <= d.secs <= 20_000_000_000_000,
{
    let s = d.secs as int;
    assert(s * 1_000_000_000 == total - d.nanos);
    assert(-18_000_000_000_000 - 1 <= s <= 18_000_000_000_000 + 1);
}

/// The time of day that the span from `start` to `end` reaches when added
/// to midnight, as chrono writes it (`NaiveTime::from_hms(0, 0, 0) + (end - start)`).
pub fn elapsed_clock(start: &DateTime, end: &DateTime) -> (res: String)
    ensures
        res@ == elapsed_clock_text(start@, end@),
{
    proof {
        use_type_invariant(start);
        use_type_invariant(end);
        lemma_nanos_bounds(start@);
        lemma_nanos_bounds(end@);
    }
    let d = signed_duration_since(end, start);
    proof {
        lemma_delta_secs_bound(&d, end@.nanos_since_epoch() - start@.nanos_since_epoch());
    }
    let t = midnight_plus(&d);
    naive_time_text(&t)
}

/// The date and time as `hh:mm:ss  dd-mm-yyyy`.
pub fn day_time(dt: &DateTime) -> (res: String)
    ensures
        res@ == day_time_text(dt@),
{
    proof {
        use_type_invariant(dt);
    }
    format_day_time(dt)
}

} // verus!
