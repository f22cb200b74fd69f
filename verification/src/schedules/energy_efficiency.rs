use vstd::prelude::*;
use vstd::string::*;

use crate::models::database_models::energy_efficiency_hour_hist::EnergyEfficiencyHourHist;
use crate::models::database_models::machines::Machines;
use crate::models::decimal::{
    decimal_checked_div, decimal_checked_mul, decimal_product_of, decimal_quotient_of,
    decimal_round_dp, lemma_decimal_parts_determine, rounded_sign, rounded_to_places, whole_decimal,
    DecimalValue,
};
use crate::schedules::devices::{calendar_day_of, parse_calendar_day, DEFAULT_DATE_DAY};
use crate::schedules::upsert::{lookup_error, text_differs, UpsertStep};

verus! {

/// Whether the stored automation device `stored` stands for `device_code_autom`, where an
/// empty code means that the machine has none.
pub open spec fn autom_code_matches(stored: Option<String>, device_code_autom: Seq<char>) -> bool {
    match stored {
        Some(code) => code@ == device_code_autom,
        None => device_code_autom.len() == 0,
    }
}

/// Decides how the machine `machine_id` is kept up to date, given what the lookup of the
/// stored machine gave: `(id, machine_name, device_code_autom)` of the stored row, no row, or
/// the lookup's error message.
pub fn verify_insert_update_machine(
    unit_id: i32,
    machine_id: i32,
    machine_name: &str,
    device_code_autom: &str,
    lookup: Result<Option<(i32, String, Option<String>)>, String>,
) -> (r: UpsertStep<Machines>)
    ensures
        match lookup {
            Err(e) => r matches UpsertStep::Failed(m) && m@ == "Erro ao verificar Máquina, "@
                + e@,
            Ok(Some(row)) => r == UpsertStep::<Machines>::Found {
                id: row.0,
                needs_update: row.1@ != machine_name@ || !autom_code_matches(
                    row.2,
                    device_code_autom@,
                ),
            },
            Ok(None) => r matches UpsertStep::Insert(m) && {
                &&& m.id is None
                &&& m.unit_id == unit_id
                &&& m.machine_name@ == machine_name@
                &&& m.reference_id == machine_id
                &&& (device_code_autom@.len() == 0 ==> m.device_code_autom is None)
                &&& (device_code_autom@.len() != 0 ==> (m.device_code_autom matches Some(c) && c@
                    == device_code_autom@))
            },
        },
        lookup matches Ok(Some(row)) && row.1@ != machine_name@ ==> (r matches UpsertStep::Found { needs_update, .. } && needs_update),
        lookup matches Ok(Some(row)) && (row.2 matches Some(c) && c@ != device_code_autom@) ==> (r matches UpsertStep::Found { needs_update, .. } && needs_update),
        lookup matches Ok(Some(row)) && row.2 is None && device_code_autom@.len() != 0 ==> (r matches UpsertStep::Found { needs_update, .. } && needs_update),
        lookup matches Ok(Some(row)) && row.1@ == machine_name@ && ((row.2 matches Some(c) && c@
            == device_code_autom@) || (row.2 is None && device_code_autom@.len() == 0)) ==> (r matches UpsertStep::Found { needs_update, .. } && !needs_update),
{
    let machine = match lookup {
        Ok(machine_tuple) => machine_tuple,
        Err(err) => {
            return UpsertStep::Failed(lookup_error("Erro ao verificar Máquina, ", &err));
        },
    };
    if let Some(machine_tuple) = machine {
        let device_code_autom_matches = match &machine_tuple.2 {
            Some(code) => !text_differs(code, device_code_autom),
            None => device_code_autom.is_empty(),
        };
        let needs_update = text_differs(&machine_tuple.1, machine_name)
            || !device_code_autom_matches;
        UpsertStep::Found { id: machine_tuple.0, needs_update }
    } else {
        UpsertStep::Insert(
            Machines {
                id: None,
                unit_id,
                machine_name: machine_name.to_owned(),
                reference_id: machine_id,
                device_code_autom: if device_code_autom.is_empty() {
                    None
                } else {
                    Some(device_code_autom.to_owned())
                },
            },
        )
    }
}


/// A stored automation code stands for the current one exactly when both are the same
/// text, and a machine stored without one stands for an empty code only.
pub proof fn lemma_autom_code_match(stored: Option<String>, device_code_autom: Seq<char>)
    ensures
        stored matches Some(c) && c@ != device_code_autom ==> !autom_code_matches(stored, device_code_autom),
        stored matches Some(c) && c@ == device_code_autom ==> autom_code_matches(stored, device_code_autom),
        stored is None ==> (autom_code_matches(stored, device_code_autom) <==> device_code_autom.len() == 0),
{
}

/// Once the machine row that [`verify_insert_update_machine`] asks to insert is stored,
/// checking the same machine again finds it up to date: an empty automation code is stored
/// as none, and none stands for an empty code.
pub proof fn lemma_inserted_machine_is_current(m: Machines, machine_name: Seq<char>, device_code_autom: Seq<char>)
    requires
        m.machine_name@ == machine_name,
        device_code_autom.len() == 0 ==> m.device_code_autom is None,
        device_code_autom.len() != 0 ==> (m.device_code_autom matches Some(c) && c@
            == device_code_autom),
    ensures
        !(m.machine_name@ != machine_name || !autom_code_matches(
            m.device_code_autom,
            device_code_autom,
        )),
{
}

/// Unix seconds at the start of hour `hour` of the day `day` (counted from the start of the
/// common era, in which January 1st, 1970 is day 719163).
pub open spec fn hour_start(day: i32, hour: int) -> int {
    (day - DEFAULT_DATE_DAY) * 86400 + hour * 3600
}

/// Hours of use in `seconds` seconds, as `rust_decimal` divides them by 3600.
pub open spec fn hour_utilization(seconds: i32) -> Option<DecimalValue> {
    decimal_quotient_of(whole_decimal(seconds as i64), whole_decimal(3600))
}

/// The machine's power, or zero when it is not known.
pub open spec fn power_or_zero(capacity_power: Option<DecimalValue>) -> DecimalValue {
    match capacity_power {
        Some(k) => k,
        None => whole_decimal(0),
    }
}

/// The arithmetic of one hour, the division of its seconds of use and the product with the
/// machine's power, stays within `rust_decimal`'s range.
pub open spec fn hour_arithmetic_fits(machine_kw: DecimalValue, seconds: i32) -> bool {
    hour_utilization(seconds) matches Some(u) && decimal_product_of(machine_kw, u) is Some
}

/// Whether `rec` is the efficiency row of hour `hour` of the day `day` for a machine of
/// power `machine_kw` used `seconds` seconds in that hour: its hours of use, and its
/// consumption (power times use) rounded to three places.
pub open spec fn is_efficiency_hour(
    rec: EnergyEfficiencyHourHist,
    machine_id: i32,
    device_code: Seq<char>,
    machine_kw: DecimalValue,
    day: i32,
    hour: int,
    seconds: i32,
) -> bool {
    &&& rec.machine_id == machine_id
    &&& rec.device_code@ == device_code
    &&& rec.record_date == hour_start(day, hour)
    &&& hour_utilization(seconds) == Some(rec.utilization_time)
    &&& decimal_product_of(machine_kw, rec.utilization_time) matches Some(p)
        && rec.consumption.mantissa_spec() == rounded_to_places(p, 3).0
        && rec.consumption.scale_spec() == rounded_to_places(p, 3).1
        && rec.consumption.is_negative_spec() == rounded_sign(p, 3)
}

/// Whether `r` holds the 24 efficiency rows of the day written in `day`, hour by hour.
pub open spec fn efficiency_day(
    r: Seq<EnergyEfficiencyHourHist>,
    device_code: Seq<char>,
    machine_id: i32,
    capacity_power: Option<DecimalValue>,
    day: i32,
    seconds: Seq<i32>,
) -> bool {
    &&& r.len() == 24
    &&& forall|h: int|
        0 <= h < 24 ==> is_efficiency_hour(
            #[trigger] r[h],
            machine_id,
            device_code,
            power_or_zero(capacity_power),
            day,
            h,
            seconds[h],
        )
}

/// The divisor of the hours of use: 3600 as `Decimal::new(3600, 0).round_dp(3)` gives it.
fn seconds_per_hour() -> (r: DecimalValue)
    ensures
        r == whole_decimal(3600),
{
    let hour_seconds = decimal_round_dp(&DecimalValue::from_int(3600), 3);
    proof {
        lemma_decimal_parts_determine(hour_seconds, whole_decimal(3600));
    }
    hour_seconds
}

/// Tests [`hour_arithmetic_fits`] by doing the arithmetic.
fn check_hour_arithmetic(machine_kw: &DecimalValue, seconds: i32) -> (r: bool)
    ensures
        r == hour_arithmetic_fits(*machine_kw, seconds),
{
    let hour_seconds = seconds_per_hour();
    match decimal_checked_div(&DecimalValue::from_int(seconds as i64), &hour_seconds) {
        Some(u) => decimal_checked_mul(machine_kw, &u).is_some(),
        None => false,
    }
}

/// The 24 hourly efficiency rows of a machine for the day written in `day` (as
/// `YYYY-MM-DD`): the hours of use of each hour (its seconds over 3600) and the consumption
/// (the machine's power, zero when unknown, times the hours of use, rounded to three
/// places), each row dated at the start of its hour.
pub fn energy_efficiency_hour_records(
    device_code: &str,
    machine_id: i32,
    capacity_power: Option<DecimalValue>,
    day: &str,
    vec_utilization_time: &Vec<i32>,
) -> (r: Vec<EnergyEfficiencyHourHist>)
    requires
        vec_utilization_time.len() >= 24,
        calendar_day_of(day@, "%Y-%m-%d"@) is Ok,
        forall|h: int|
            0 <= h < 24 ==> hour_arithmetic_fits(
                power_or_zero(capacity_power),
                #[trigger] vec_utilization_time@[h],
            ),
    ensures
        efficiency_day(
            r@,
            device_code@,
            machine_id,
            capacity_power,
            calendar_day_of(day@, "%Y-%m-%d"@)->Ok_0,
            vec_utilization_time@,
        ),
{
    let day_parsed = match parse_calendar_day(day, "%Y-%m-%d") {
        Ok(d) => d,
        Err(_) => vstd::pervasive::unreached(),
    };
    let machine_kw = match capacity_power {
        Some(k) => k,
        None => DecimalValue::from_int(0),
    };
    let hour_seconds = seconds_per_hour();
    let mut rows: Vec<EnergyEfficiencyHourHist> = Vec::new();
    let mut hour: usize = 0;
    while hour < 24
        invariant
            hour <= 24,
            vec_utilization_time.len() >= 24,
            machine_kw == power_or_zero(capacity_power),
            hour_seconds == whole_decimal(3600),
            day_parsed == calendar_day_of(day@, "%Y-%m-%d"@)->Ok_0,
            forall|h: int|
                0 <= h < 24 ==> hour_arithmetic_fits(
                    machine_kw,
                    #[trigger] vec_utilization_time@[h],
                ),
            rows@.len() == hour,
            forall|h: int|
                0 <= h < hour ==> is_efficiency_hour(
                    #[trigger] rows@[h],
                    machine_id,
                    device_code@,
                    machine_kw,
                    day_parsed,
                    h,
                    vec_utilization_time@[h],
                ),
        decreases 24 - hour,
    {
        let seconds = vec_utilization_time[hour];
        assert(hour_arithmetic_fits(machine_kw, vec_utilization_time@[hour as int]));
        let utilization_time = match decimal_checked_div(&DecimalValue::from_int(seconds as i64), &hour_seconds) {
            Some(u) => u,
            None => vstd::pervasive::unreached(),
        };
        let product = match decimal_checked_mul(&machine_kw, &utilization_time) {
            Some(p) => p,
            None => vstd::pervasive::unreached(),
        };
        let consumption = decimal_round_dp(&product, 3);
        let record_date: i64 = (day_parsed as i64 - DEFAULT_DATE_DAY as i64) * 86400 + hour as i64 * 3600;
        rows.push(
            EnergyEfficiencyHourHist {
                machine_id,
                device_code: String::from_str(device_code),
                consumption,
                utilization_time,
                record_date,
            },
        );
        hour = hour + 1;
    }
    rows
}

/// [`energy_efficiency_hour_records`] for any input: `None` when there are fewer than 24
/// hours, when the day cannot be read, or when the arithmetic of an hour overflows.
pub fn energy_efficiency_hour_records_checked(
    device_code: &str,
    machine_id: i32,
    capacity_power: Option<DecimalValue>,
    day: &str,
    vec_utilization_time: &Vec<i32>,
) -> (r: Option<Vec<EnergyEfficiencyHourHist>>)
    ensures
        r is Some <==> {
            &&& vec_utilization_time.len() >= 24
            &&& calendar_day_of(day@, "%Y-%m-%d"@) is Ok
            &&& forall|h: int|
                0 <= h < 24 ==> hour_arithmetic_fits(
                    power_or_zero(capacity_power),
                    #[trigger] vec_utilization_time@[h],
                )
        },
        r matches Some(v) ==> efficiency_day(
            v@,
            device_code@,
            machine_id,
            capacity_power,
            calendar_day_of(day@, "%Y-%m-%d"@)->Ok_0,
            vec_utilization_time@,
        ),
{
    if vec_utilization_time.len() < 24 {
        return None;
    }
    if parse_calendar_day(day, "%Y-%m-%d").is_err() {
        return None;
    }
    let machine_kw = match capacity_power {
        Some(k) => k,
        None => DecimalValue::from_int(0),
    };
    let mut hour: usize = 0;
    while hour < 24
        invariant
            hour <= 24,
            vec_utilization_time.len() >= 24,
            machine_kw == power_or_zero(capacity_power),
            forall|h: int|
                0 <= h < hour ==> hour_arithmetic_fits(
                    machine_kw,
                    #[trigger] vec_utilization_time@[h],
                ),
        decreases 24 - hour,
    {
        if !check_hour_arithmetic(&machine_kw, vec_utilization_time[hour]) {
            return None;
        }
        hour = hour + 1;
    }
    Some(energy_efficiency_hour_records(device_code, machine_id, capacity_power, day, vec_utilization_time))
}

} // verus!
