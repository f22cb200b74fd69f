use chrono::Datelike;
use vstd::prelude::*;

verus! {

/// The day that chrono's `NaiveDate::parse_from_str` reads from `text` with the format
/// `format`, counted with `num_days_from_ce` (January 1st of year 1 is day 1), or the text
/// of chrono's error.
pub uninterp spec fn calendar_day_of(text: Seq<char>, format: Seq<char>) -> Result<i32, Seq<char>>;

/// Calls chrono's `NaiveDate::parse_from_str(text, format)` and counts the day with
/// `num_days_from_ce()`; an error becomes its `to_string()`. The contract only names
/// chrono's answer; which texts chrono accepts is left to chrono.
#[verifier::external_body]
pub(crate) fn parse_calendar_day(text: &str, format: &str) -> (r: Result<i32, String>)
    ensures
        match r {
            Ok(d) => calendar_day_of(text@, format@) == Ok::<i32, Seq<char>>(d),
            Err(e) => calendar_day_of(text@, format@) == Err::<i32, Seq<char>>(e@),
        },
{
    chrono::NaiveDate::parse_from_str(text, format).map(|d| d.num_days_from_ce()).map_err(
        |e| e.to_string(),
    )
}

/// Day that chrono's `NaiveDate::default()` stands for (January 1st, 1970), counted from
/// the start of the common era.
pub const DEFAULT_DATE_DAY: i32 = 719163;

/// Whether `day` lies more than 60 days away from the day `today` (both counted from the
/// start of the common era), in either direction.
pub open spec fn more_than_60_days_apart(day: int, today: int) -> bool {
    day - today > 60 || today - day > 60
}

/// Whether the day written in `day` (as `YYYY-MM-DD`) lies more than 60 days away from
/// `today` (a day counted from the start of the common era): an error when `day` cannot be
/// read.
pub fn check_date(day: &str, today: i32) -> (r: Result<bool, String>)
    ensures
        match calendar_day_of(day@, "%Y-%m-%d"@) {
            Ok(d) => r == Ok::<bool, String>(more_than_60_days_apart(d as int, today as int)),
            Err(m) => r matches Err(e) && e@ == m,
        },
{
    let input_date = match parse_calendar_day(day, "%Y-%m-%d") {
        Ok(d) => d,
        Err(e) => {
            return Err(e);
        },
    };
    let duration: i64 = today as i64 - input_date as i64;
    let distance: i64 = if duration < 0 {
        -duration
    } else {
        duration
    };
    Ok(distance > 60)
}


/// The 60-day test does not depend on which of the two days comes first.
pub proof fn lemma_days_apart_symmetric(a: int, b: int)
    ensures
        more_than_60_days_apart(a, b) == more_than_60_days_apart(b, a),
{
}

} // verus!
