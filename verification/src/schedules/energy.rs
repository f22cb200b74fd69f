use vstd::prelude::*;

use crate::models::database_models::electric_circuits::ElectricCircuit;
use crate::models::database_models::energy_consumption_forecast::EnergyConsumptionForecast;
use crate::models::decimal::{whole_decimal, DecimalValue};
use crate::schedules::last_device_telemetry_time::day_start;
use crate::models::external_models::device::EnergyDevice;
use crate::schedules::upsert::{lookup_error, text_differs, UpsertStep};

verus! {

/// Decides how the electric circuit measured by `energy_device` is kept up to date, given
/// what the lookup of the stored circuit gave: `(id, name)` of the stored row, no row, or
/// the lookup's error message.
pub fn verify_insert_update_electric_circuits(
    unit_id: i32,
    energy_device: &EnergyDevice,
    lookup: Result<Option<(i32, String)>, String>,
) -> (r: UpsertStep<ElectricCircuit>)
    ensures
        match lookup {
            Err(e) => r matches UpsertStep::Failed(m) && m@
                == "Erro ao verificar Circuito elétrico, "@ + e@,
            Ok(Some(row)) => r == UpsertStep::<ElectricCircuit>::Found {
                id: row.0,
                needs_update: row.1@ != energy_device.electric_circuit_name@,
            },
            Ok(None) => r matches UpsertStep::Insert(c) && {
                &&& c.id is None
                &&& c.unit_id == unit_id
                &&& c.name@ == energy_device.electric_circuit_name@
                &&& c.reference_id == energy_device.electric_circuit_id
            },
        },
{
    let electric_circuit = match lookup {
        Ok(electric_circuit_tuple) => electric_circuit_tuple,
        Err(err) => {
            return UpsertStep::Failed(
                lookup_error("Erro ao verificar Circuito elétrico, ", &err),
            );
        },
    };
    if let Some(electric_circuit_tuple) = electric_circuit {
        let needs_update = text_differs(
            &electric_circuit_tuple.1,
            energy_device.electric_circuit_name.as_str(),
        );
        UpsertStep::Found { id: electric_circuit_tuple.0, needs_update }
    } else {
        UpsertStep::Insert(
            ElectricCircuit {
                id: None,
                unit_id,
                name: energy_device.electric_circuit_name.clone(),
                reference_id: energy_device.electric_circuit_id,
            },
        )
    }
}

/// Seconds in a week.
pub const WEEK_SECONDS: i64 = 604800;

/// Number of weeks ahead that a measured hour is forecast for.
pub const FORECAST_WEEKS: usize = 5;

/// Whether `rows` forecasts, for the circuit `electric_circuit_id`, the same hour of the
/// five following weeks (`date` plus one to five weeks, Unix seconds) at the average
/// consumption `average`, or at zero when the average could not be had.
pub open spec fn weekly_forecast(
    rows: Seq<EnergyConsumptionForecast>,
    electric_circuit_id: i32,
    date: i64,
    average: Option<DecimalValue>,
) -> bool {
    &&& rows.len() == FORECAST_WEEKS
    &&& forall|k: int|
        0 <= k < FORECAST_WEEKS ==> {
            &&& (#[trigger] rows[k]).electric_circuit_id == electric_circuit_id
            &&& rows[k].record_date == date + (k + 1) * WEEK_SECONDS
            &&& rows[k].consumption_forecast == match average {
                Some(a) => a,
                None => whole_decimal(0),
            }
        }
}

/// The forecast rows of the hour measured at `date` (Unix seconds) on the circuit
/// `electric_circuit_id`, given the average consumption of that hour, if it could be had.
pub fn energy_consumption_forecast_rows(
    electric_circuit_id: i32,
    date: i64,
    average: Option<DecimalValue>,
) -> (r: Vec<EnergyConsumptionForecast>)
    requires
        date + FORECAST_WEEKS * WEEK_SECONDS <= i64::MAX,
    ensures
        weekly_forecast(r@, electric_circuit_id, date, average),
{
    let consumption = match average {
        Some(a) => a,
        None => DecimalValue::from_int(0),
    };
    let mut rows: Vec<EnergyConsumptionForecast> = Vec::new();
    let mut date_forecast: i64 = date + WEEK_SECONDS;
    let mut k: usize = 0;
    while k < FORECAST_WEEKS
        invariant
            k <= FORECAST_WEEKS,
            date + FORECAST_WEEKS * WEEK_SECONDS <= i64::MAX,
            k < FORECAST_WEEKS ==> date_forecast == date + (k + 1) * WEEK_SECONDS,
            consumption == match average {
                Some(a) => a,
                None => whole_decimal(0),
            },
            rows@.len() == k,
            forall|j: int|
                0 <= j < k ==> {
                    &&& (#[trigger] rows@[j]).electric_circuit_id == electric_circuit_id
                    &&& rows@[j].record_date == date + (j + 1) * WEEK_SECONDS
                    &&& rows@[j].consumption_forecast == consumption
                },
        decreases FORECAST_WEEKS - k,
    {
        rows.push(
            EnergyConsumptionForecast {
                electric_circuit_id,
                consumption_forecast: consumption,
                record_date: date_forecast,
            },
        );
        k = k + 1;
        if k < FORECAST_WEEKS {
            date_forecast = date_forecast + WEEK_SECONDS;
        }
    }
    rows
}

/// A day to compile and the readings it is compiled from: those at or after `start` and
/// before `end` (Unix seconds).
pub struct DayWindow {
    pub day: i32,
    pub start: i64,
    pub end: i64,
}

/// Each day from `start_day` to `end_day` (both included, days counted from the start of
/// the common era), in order, with its window of readings: from its midnight to a quarter
/// past the next midnight, so that the demand of its last quarter hour is seen.
pub fn day_windows(start_day: i32, end_day: i32) -> (r: Vec<DayWindow>)
    ensures
        r@.len() == if end_day >= start_day { end_day - start_day + 1 } else { 0 },
        forall|k: int|
            0 <= k < r@.len() ==> {
                &&& (#[trigger] r@[k]).day == start_day + k
                &&& r@[k].start == day_start(start_day + k)
                &&& r@[k].end == day_start(start_day + k) + 86400 + 900
            },
{
    let mut windows: Vec<DayWindow> = Vec::new();
    let mut current: i64 = start_day as i64;
    while current <= end_day as i64
        invariant
            start_day <= current <= end_day as int + 1 || (current == start_day && end_day < start_day),
            windows@.len() == current - start_day,
            forall|k: int|
                0 <= k < windows@.len() ==> {
                    &&& (#[trigger] windows@[k]).day == start_day + k
                    &&& windows@[k].start == day_start(start_day + k)
                    &&& windows@[k].end == day_start(start_day + k) + 86400 + 900
                },
        decreases end_day - current + 1,
    {
        let start: i64 = (current - 719163) * 86400;
        windows.push(DayWindow { day: current as i32, start, end: start + 86400 + 900 });
        current = current + 1;
    }
    windows
}

/// Whether an hour, given as (its consumption is valid, its consumption was estimated),
/// holds a directly measured consumption.
pub open spec fn directly_measured(hour: (bool, bool)) -> bool {
    hour.0 && !hour.1
}

/// The first hour of the day with a directly measured consumption, the one whose row later
/// hours are compared with, if any.
pub fn first_measured_hour(hours: &Vec<(bool, bool)>) -> (r: Option<usize>)
    ensures
        r matches Some(i) ==> i < hours@.len() && directly_measured(hours@[i as int]) && forall|j: int|
            0 <= j < i ==> !directly_measured(#[trigger] hours@[j]),
        r is None ==> forall|j: int| 0 <= j < hours@.len() ==> !directly_measured(#[trigger] hours@[j]),
{
    let mut i: usize = 0;
    while i < hours.len()
        invariant
            i <= hours@.len(),
            forall|j: int| 0 <= j < i ==> !directly_measured(#[trigger] hours@[j]),
        decreases hours@.len() - i,
    {
        let (valid, measured) = hours[i];
        if valid && !measured {
            return Some(i);
        }
        i = i + 1;
    }
    None
}

} // verus!
