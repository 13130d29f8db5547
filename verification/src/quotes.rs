//! Motivational quotes and closed-form time statistics. The quote list is
//! handed in as plain values (the surrounding application loads it); picking
//! one uses the process RNG behind a trusted wrapper, and the statistics are
//! pure arithmetic over a decomposed clock reading.

use vstd::prelude::*;

verus! {

/// A quotation with its author.
pub struct Quote {
    pub text: String,
    pub author: String,
}

/// The one line `get_random_quote` builds from a quote: the text in double
/// quotes, an em-dash separator, then the author.
pub open spec fn quote_line(text: Seq<char>, author: Seq<char>) -> Seq<char> {
    "\""@ + text + "\" —— "@ + author
}

/// The line returned when no quote is available.
pub open spec fn fallback_line() -> Seq<char> {
    "行动是治愈恐惧的良药。"@
}

/// The integer core of the time-spent statistics; the surrounding
/// application derives the displayed percentages from these exact counts.
pub struct TimeSpentStats {
    pub age: i32,
    pub day_of_year: u32,
    pub days_in_year: u32,
    pub remaining_work_days: i64,
    pub seconds_passed_today: u32,
    pub seconds_in_day: u32,
}

/// The Gregorian leap-year rule.
pub open spec fn is_leap_year(year: int) -> bool {
    year % 4 == 0 && (year % 100 != 0 || year % 400 == 0)
}

/// The assumed age of the user: the statistics take the birth year to be
/// the current year less this many years, so the age always reads the same.
pub open spec fn assumed_age() -> int {
    25
}

/// The statistics computed from a manager's settings and one decomposed
/// clock reading.
pub open spec fn spec_time_stats(
    q: QuotesManager,
    year: i32,
    day_of_year: u32,
    hour: u32,
    minute: u32,
    second: u32,
) -> TimeSpentStats {
    TimeSpentStats {
        age: assumed_age() as i32,
        day_of_year,
        days_in_year: if is_leap_year(year as int) {
            366
        } else {
            365
        },
        remaining_work_days: ((q.average_life_expectancy - assumed_age())
            * q.work_days_in_year) as i64,
        seconds_passed_today: (hour * 3600 + minute * 60 + second) as u32,
        seconds_in_day: 86400,
    }
}

/// The quote list together with the fixed statistics settings.
pub struct QuotesManager {
    pub quotes: Vec<Quote>,
    pub work_days_in_year: u32,
    pub average_life_expectancy: u32,
}

/// Relies on rand's `Rng::gen_range` over the thread-local RNG: a uniformly
/// sampled index strictly below the bound. `gen_range` panics only on an
/// empty range, which the precondition rules out.
#[verifier::external_body]
fn random_below(n: usize) -> (r: usize)
    requires
        n > 0,
    ensures
        r < n,
{
    rand::Rng::gen_range(&mut rand::thread_rng(), 0..n)
}

impl QuotesManager {
    /// The settings stay small enough that the work-day arithmetic cannot
    /// overflow.
    pub open spec fn wf(self) -> bool {
        &&& assumed_age() <= self.average_life_expectancy <= 1000
        &&& self.work_days_in_year <= 1000
    }

    /// A manager over the given quote list, expecting 250 work days a year
    /// out of an 80 year life.
    pub fn new(quotes: Vec<Quote>) -> (r: Self)
        ensures
            r.quotes == quotes,
            r.work_days_in_year == 250,
            r.average_life_expectancy == 80,
            r.wf(),
    {
        QuotesManager { quotes, work_days_in_year: 250, average_life_expectancy: 80 }
    }

    /// A line for a randomly chosen quote of the list, or the fixed
    /// fallback line when the list is empty.
    pub fn get_random_quote(&self) -> (r: String)
        ensures
            self.quotes@.len() == 0 ==> r@ == fallback_line(),
            self.quotes@.len() > 0 ==> exists|i: int|
                0 <= i < self.quotes@.len() && r@ == quote_line(
                    self.quotes@[i].text@,
                    self.quotes@[i].author@,
                ),
    {
        if self.quotes.len() == 0 {
            "行动是治愈恐惧的良药。".to_owned()
        } else {
            let i = random_below(self.quotes.len());
            let q = &self.quotes[i];
            let mut r = "\"".to_owned();
            r.append(q.text.as_str());
            r.append("\" —— ");
            r.append(q.author.as_str());
            r
        }
    }

    /// The statistics for one decomposed clock reading: a fixed assumed
    /// age, the leap-year-aware length of the year, the work days left of
    /// the expected life, and how far today has advanced.
    pub fn time_spent_stats_at(
        &self,
        year: i32,
        day_of_year: u32,
        hour: u32,
        minute: u32,
        second: u32,
    ) -> (r: TimeSpentStats)
        requires
            self.wf(),
            0 <= year,
            hour < 24,
            minute < 60,
            second < 60,
        ensures
            r == spec_time_stats(*self, year, day_of_year, hour, minute, second),
    {
        let birth_year = year - 25;
        let age = year - birth_year;
        let days_in_year: u32 = if year % 4 == 0 && (year % 100 != 0 || year % 400 == 0) {
            366
        } else {
            365
        };
        proof {
            let a: int = self.average_life_expectancy - assumed_age();
            let b: int = self.work_days_in_year as int;
            assert(0 <= a * b <= 1000 * 1000) by (nonlinear_arith)
                requires
                    0 <= a <= 1000,
                    0 <= b <= 1000,
            ;
        }
        let remaining_work_days = (self.average_life_expectancy as i64 - age as i64)
            * self.work_days_in_year as i64;
        let seconds_passed = hour * 3600 + minute * 60 + second;
        TimeSpentStats {
            age,
            day_of_year,
            days_in_year,
            remaining_work_days,
            seconds_passed_today: seconds_passed,
            seconds_in_day: 86400,
        }
    }

    /// `time_spent_stats_at` at the wall clock's current reading; a year
    /// before the common era (which no running clock reports) is treated as
    /// the year zero.
    pub fn get_time_spent_stats(&self) -> (r: TimeSpentStats)
        requires
            self.wf(),
        ensures
            exists|year: i32, doy: u32, h: u32, m: u32, s: u32|
                0 <= year && 1 <= doy <= 366 && h < 24 && m < 60 && s < 60 && r
                    == #[trigger] spec_time_stats(*self, year, doy, h, m, s),
    {
        let (year, doy, h, m, s) = crate::clock::now_date_parts();
        let y = if year >= 0 {
            year
        } else {
            0
        };
        self.time_spent_stats_at(y, doy, h, m, s)
    }
}

} // verus!
