use chrono::Datelike;
use vstd::prelude::*;

use crate::models::database_models::water_consumption_forecast::WaterConsumptionForecast;
use crate::models::decimal::{
    decimal_checked_add, decimal_checked_div, decimal_quotient_of, decimal_sum_of, whole_decimal,
    DecimalValue,
};
use crate::schedules::devices::{calendar_day_of, parse_calendar_day, DEFAULT_DATE_DAY};

verus! {

/// A day of the week.
#[derive(Clone, Copy, Debug, PartialEq, Eq, Structural)]
pub enum WeekDay {
    Monday,
    Tuesday,
    Wednesday,
    Thursday,
    Friday,
    Saturday,
    Sunday,
}

/// Days after Monday.
pub open spec fn days_from_monday(d: WeekDay) -> int {
    match d {
        WeekDay::Monday => 0,
        WeekDay::Tuesday => 1,
        WeekDay::Wednesday => 2,
        WeekDay::Thursday => 3,
        WeekDay::Friday => 4,
        WeekDay::Saturday => 5,
        WeekDay::Sunday => 6,
    }
}

/// The day of the week of the day `day`, counted from the start of the common era as
/// chrono's `num_days_from_ce` counts (day 1, January 1st of year 1, was a Monday).
pub fn weekday_of(day: i32) -> (r: WeekDay)
    ensures
        days_from_monday(r) == (day - 1) % 7,
{
    let from_monday: i64 = match (day as i64 - 1).checked_rem_euclid(7) {
        Some(m) => m,
        None => 0,
    };
    if from_monday == 0 {
        WeekDay::Monday
    } else if from_monday == 1 {
        WeekDay::Tuesday
    } else if from_monday == 2 {
        WeekDay::Wednesday
    } else if from_monday == 3 {
        WeekDay::Thursday
    } else if from_monday == 4 {
        WeekDay::Friday
    } else if from_monday == 5 {
        WeekDay::Saturday
    } else {
        WeekDay::Sunday
    }
}

/// The same day of the week one, two and three weeks before `day`, most recent first.
pub open spec fn previous_weeks(day: int) -> Seq<int> {
    seq![day - 7, day - 14, day - 21]
}

/// The same day of the week in each of the three weeks before `day` (days counted from the
/// start of the common era), most recent first.
pub fn get_last_three_days_weeks(day: i32) -> (r: Vec<i32>)
    requires
        day - 21 >= i32::MIN,
    ensures
        r@.len() == 3,
        forall|i: int| 0 <= i < 3 ==> r@[i] == previous_weeks(day as int)[i],
{
    let mut days: Vec<i32> = Vec::new();
    let mut date = day;
    let mut i: usize = 0;
    while i < 3
        invariant
            day - 21 >= i32::MIN,
            i <= 3,
            date == day - 7 * i,
            days@.len() == i,
            forall|j: int| 0 <= j < i ==> days@[j] == previous_weeks(day as int)[j],
        decreases 3 - i,
    {
        date = date - 7;
        days.push(date);
        i = i + 1;
    }
    days
}

/// The days of `days` that are not before `installation`, in their order.
pub open spec fn on_or_after(days: Seq<int>, installation: int) -> Seq<int>
    decreases days.len(),
{
    if days.len() == 0 {
        Seq::empty()
    } else {
        let rest = on_or_after(days.drop_last(), installation);
        if days.last() >= installation {
            rest.push(days.last())
        } else {
            rest
        }
    }
}

/// The days on which the forecast for `forecast_day` is based: the same day of the week in
/// each of the three weeks before, when not before the installation date written in
/// `installation_date` as `YYYY/MM/DD`; `None` when that date cannot be read.
pub fn forecast_days(forecast_day: i32, installation_date: &str) -> (r: Option<Vec<i32>>)
    requires
        forecast_day - 21 >= i32::MIN,
    ensures
        match calendar_day_of(installation_date@, "%Y/%m/%d"@) {
            Ok(inst) => r matches Some(v) && v@.map_values(|d: i32| d as int) == on_or_after(
                previous_weeks(forecast_day as int),
                inst as int,
            ),
            Err(_) => r is None,
        },
{
    let days = get_last_three_days_weeks(forecast_day);
    let installation = match parse_calendar_day(installation_date, "%Y/%m/%d") {
        Ok(d) => d,
        Err(_) => {
            return None;
        },
    };
    let ghost all = previous_weeks(forecast_day as int);
    let mut kept: Vec<i32> = Vec::new();
    let mut i: usize = 0;
    while i < days.len()
        invariant
            days@.len() == 3,
            forall|j: int| 0 <= j < 3 ==> days@[j] == all[j],
            all.len() == 3,
            i <= 3,
            kept@.map_values(|d: i32| d as int) == on_or_after(all.take(i as int), installation as int),
        decreases 3 - i,
    {
        let d = days[i];
        assert(all.take(i as int + 1).drop_last() =~= all.take(i as int));
        if d >= installation {
            kept.push(d);
        }
        assert(kept@.map_values(|d: i32| d as int) =~= on_or_after(
            all.take(i as int + 1),
            installation as int,
        ));
        i = i + 1;
    }
    assert(all.take(3) =~= all);
    Some(kept)
}

/// The first day of the month of `day` (days counted from the start of the common era), as
/// chrono's `with_day(1)` gives it, or `None` where chrono has no such date.
pub uninterp spec fn month_start_of(day: i32) -> Option<i32>;

/// Calls chrono's `NaiveDate::from_num_days_from_ce_opt(day)` and then `with_day(1)`,
/// counting the result with `num_days_from_ce()`. The result is only named.
#[verifier::external_body]
pub(crate) fn first_day_of_month(day: i32) -> (r: Option<i32>)
    ensures
        r == month_start_of(day),
{
    match chrono::NaiveDate::from_num_days_from_ce_opt(day) {
        Some(date) => match date.with_day(1) {
            Some(first) => Some(first.num_days_from_ce()),
            None => None,
        },
        None => None,
    }
}

/// The expected daily consumption: the consumption of the previous weeks plus today's,
/// shared over those days and today, as `rust_decimal` computes `(sum + today) / (days + 1)`.
pub open spec fn forecast_usage(sum: DecimalValue, today: DecimalValue, days: i64) -> Option<
    DecimalValue,
> {
    match decimal_sum_of(sum, today) {
        Some(total) => decimal_quotient_of(total, whole_decimal((days + 1) as i64)),
        None => None,
    }
}

/// The value the forecast keeps for the day of the week `slot`: `value` on the forecast's
/// own day of the week, nothing on the others.
pub open spec fn day_slot(weekday: WeekDay, slot: WeekDay, value: DecimalValue) -> Option<
    DecimalValue,
> {
    if weekday == slot {
        Some(value)
    } else {
        None
    }
}

/// Whether `f` is the forecast row of unit `unit_id` for the month of `date`, that holds
/// `usage` on the day of the week `weekday` and nothing on the others.
pub open spec fn is_forecast_row(
    f: WaterConsumptionForecast,
    weekday: WeekDay,
    unit_id: i32,
    date: i32,
    usage: DecimalValue,
) -> bool {
    &&& f.unit_id == unit_id
    &&& f.forecast_date == match month_start_of(date) {
        Some(d) => d,
        None => DEFAULT_DATE_DAY,
    }
    &&& f.monday == day_slot(weekday, WeekDay::Monday, usage)
    &&& f.tuesday == day_slot(weekday, WeekDay::Tuesday, usage)
    &&& f.wednesday == day_slot(weekday, WeekDay::Wednesday, usage)
    &&& f.thursday == day_slot(weekday, WeekDay::Thursday, usage)
    &&& f.friday == day_slot(weekday, WeekDay::Friday, usage)
    &&& f.saturday == day_slot(weekday, WeekDay::Saturday, usage)
    &&& f.sunday == day_slot(weekday, WeekDay::Sunday, usage)
}

/// The forecast row for the day `date` (a `weekday`) of unit `unit_id`, from the consumption
/// `sum_consumption` of the `qtd_days_after_installation_date` previous days it is based on
/// and today's `consumption_today`: the expected daily consumption goes in the column of
/// `weekday`, the row is dated on the first day of the month. The arithmetic must not
/// overflow nor divide by zero.
pub fn verify_forecast_usage(
    weekday: WeekDay,
    unit_id: i32,
    date: i32,
    sum_consumption: DecimalValue,
    consumption_today: DecimalValue,
    qtd_days_after_installation_date: i64,
) -> (r: WaterConsumptionForecast)
    requires
        qtd_days_after_installation_date < i64::MAX,
        forecast_usage(sum_consumption, consumption_today, qtd_days_after_installation_date) is Some,
    ensures
        is_forecast_row(
            r,
            weekday,
            unit_id,
            date,
            forecast_usage(sum_consumption, consumption_today, qtd_days_after_installation_date)->0,
        ),
{
    let total = match decimal_checked_add(&sum_consumption, &consumption_today) {
        Some(t) => t,
        None => vstd::pervasive::unreached(),
    };
    let days = DecimalValue::from_int(qtd_days_after_installation_date + 1);
    let usage = match decimal_checked_div(&total, &days) {
        Some(u) => u,
        None => vstd::pervasive::unreached(),
    };
    let forecast_date = match first_day_of_month(date) {
        Some(d) => d,
        None => DEFAULT_DATE_DAY,
    };
    let mut f = WaterConsumptionForecast {
        unit_id,
        forecast_date,
        monday: None,
        tuesday: None,
        wednesday: None,
        thursday: None,
        friday: None,
        saturday: None,
        sunday: None,
    };
    match weekday {
        WeekDay::Monday => {
            f.monday = Some(usage);
        },
        WeekDay::Tuesday => {
            f.tuesday = Some(usage);
        },
        WeekDay::Wednesday => {
            f.wednesday = Some(usage);
        },
        WeekDay::Thursday => {
            f.thursday = Some(usage);
        },
        WeekDay::Friday => {
            f.friday = Some(usage);
        },
        WeekDay::Saturday => {
            f.saturday = Some(usage);
        },
        WeekDay::Sunday => {
            f.sunday = Some(usage);
        },
    }
    f
}

/// [`verify_forecast_usage`] for any input: `None` where the arithmetic overflows, where the
/// count of days cannot grow by one, or where it would divide by zero.
pub fn verify_forecast_usage_checked(
    weekday: WeekDay,
    unit_id: i32,
    date: i32,
    sum_consumption: DecimalValue,
    consumption_today: DecimalValue,
    qtd_days_after_installation_date: i64,
) -> (r: Option<WaterConsumptionForecast>)
    ensures
        r is None <==> (qtd_days_after_installation_date == i64::MAX || forecast_usage(
            sum_consumption,
            consumption_today,
            qtd_days_after_installation_date,
        ) is None),
        r matches Some(f) ==> is_forecast_row(
            f,
            weekday,
            unit_id,
            date,
            forecast_usage(sum_consumption, consumption_today, qtd_days_after_installation_date)->0,
        ),
{
    if qtd_days_after_installation_date == i64::MAX {
        return None;
    }
    let fits = match decimal_checked_add(&sum_consumption, &consumption_today) {
        Some(total) => decimal_checked_div(
            &total,
            &DecimalValue::from_int(qtd_days_after_installation_date + 1),
        ).is_some(),
        None => false,
    };
    if !fits {
        return None;
    }
    Some(
        verify_forecast_usage(
            weekday,
            unit_id,
            date,
            sum_consumption,
            consumption_today,
            qtd_days_after_installation_date,
        ),
    )
}

/// One hour of the water history to write: its start (Unix seconds) and its
/// `is_measured_consumption` flag, set on every hour of a span but the last.
pub struct WaterHourSlot {
    pub time: i64,
    pub is_measured_consumption: bool,
}

/// Whether a reading at `current`, whose last stored consumption is at `previous`, closes a
/// span of hours since that consumption (it is not the hour right after it).
pub open spec fn catches_up(previous: Option<i64>, current: i64) -> bool {
    previous matches Some(p) && p != current - 3600
}

/// First hour of the span that the reading at `current` covers: the hour after the last
/// stored consumption, or else the midnight of its own day.
pub open spec fn water_span_start(previous: Option<i64>, current: i64) -> int {
    if catches_up(previous, current) {
        previous->0 + 3600
    } else {
        current - current % 86400
    }
}

/// Number of hours of that span: the whole hours since the last stored consumption (as
/// chrono's `num_hours`, rounding toward zero), or else the hours of the day up to and
/// including the reading's own.
pub open spec fn water_span_hours(previous: Option<i64>, current: i64) -> int {
    if catches_up(previous, current) {
        let d = current - previous->0;
        if d >= 0 {
            d / 3600
        } else {
            -((-d) / 3600)
        }
    } else {
        (current % 86400) / 3600 + 1
    }
}

/// The hours of water history that a reading at `current` (Unix seconds) is spread over,
/// given the time of the last stored consumption, if any: one slot per hour of its span, in
/// order, every one but the last flagged.
pub fn water_hour_plan(previous: Option<i64>, current: i64) -> (r: Vec<WaterHourSlot>)
    requires
        current - current % 86400 >= i64::MIN,
    ensures
        r@.len() == if water_span_hours(previous, current) > 0 {
            water_span_hours(previous, current)
        } else {
            0
        },
        forall|k: int|
            0 <= k < r@.len() ==> {
                &&& (#[trigger] r@[k]).time == water_span_start(previous, current) + k * 3600
                &&& r@[k].is_measured_consumption == (k != water_span_hours(previous, current) - 1)
            },
{
    let catch_up = match previous {
        Some(p) => p as i128 != current as i128 - 3600,
        None => false,
    };
    let start: i128;
    let n: i128;
    if catch_up {
        let p = match previous {
            Some(p) => p,
            None => 0,
        };
        let d: i128 = current as i128 - p as i128;
        n = if d >= 0 {
            d / 3600
        } else {
            -((-d) / 3600)
        };
        start = p as i128 + 3600;
        assert(n > 0 ==> start + (n - 1) * 3600 <= current) by {
            if d >= 0 {
                vstd::arithmetic::div_mod::lemma_fundamental_div_mod(d as int, 3600);
            }
        }
    } else {
        let rem: i64 = match current.checked_rem_euclid(86400) {
            Some(m) => m,
            None => 0,
        };
        n = rem as i128 / 3600 + 1;
        start = current as i128 - rem as i128;
        assert(start + (n - 1) * 3600 <= current) by {
            vstd::arithmetic::div_mod::lemma_fundamental_div_mod(rem as int, 3600);
        }
    }
    let mut slots: Vec<WaterHourSlot> = Vec::new();
    let mut k: i128 = 0;
    while k < n
        invariant
            0 <= k,
            n > 0 ==> k <= n,
            n <= 0 ==> k == 0,
            start == water_span_start(previous, current),
            n == water_span_hours(previous, current),
            n > 0 ==> start + (n - 1) * 3600 <= current,
            n > 0 ==> start >= i64::MIN,
            slots@.len() == k,
            forall|j: int|
                0 <= j < slots@.len() ==> {
                    &&& (#[trigger] slots@[j]).time == start + j * 3600
                    &&& slots@[j].is_measured_consumption == (j != n - 1)
                },
        decreases n - k,
    {
        assert(start + k * 3600 <= start + (n - 1) * 3600) by (nonlinear_arith)
            requires
                k <= n - 1,
        ;
        let time: i64 = (start + k * 3600) as i64;
        slots.push(WaterHourSlot { time, is_measured_consumption: k != n - 1 });
        k = k + 1;
    }
    slots
}

/// A forecast row holds a value on exactly one day of the week, its own.
pub proof fn lemma_forecast_row_single_day(
    f: WaterConsumptionForecast,
    weekday: WeekDay,
    unit_id: i32,
    date: i32,
    usage: DecimalValue,
)
    requires
        is_forecast_row(f, weekday, unit_id, date, usage),
    ensures
        (f.monday is Some) == (weekday == WeekDay::Monday),
        (f.tuesday is Some) == (weekday == WeekDay::Tuesday),
        (f.wednesday is Some) == (weekday == WeekDay::Wednesday),
        (f.thursday is Some) == (weekday == WeekDay::Thursday),
        (f.friday is Some) == (weekday == WeekDay::Friday),
        (f.saturday is Some) == (weekday == WeekDay::Saturday),
        (f.sunday is Some) == (weekday == WeekDay::Sunday),
{
}

} // verus!
