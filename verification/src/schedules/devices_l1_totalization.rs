use vstd::prelude::*;
use vstd::string::*;

use crate::models::database_models::assets::Assets;
use crate::models::database_models::devices_l1_totalization_hist::DevicesL1TotalizationHist;
use crate::models::decimal::{decimal_round_dp, rounded_sign, rounded_to_places, DecimalValue};
use crate::schedules::devices::{calendar_day_of, parse_calendar_day, DEFAULT_DATE_DAY};
use crate::schedules::upsert::{lookup_error, text_differs, UpsertStep};

verus! {

/// Whether the stored asset `row` (`id, asset_name, device_code, machine_reference_id`)
/// differs from the current name, device and machine.
pub open spec fn asset_outdated(
    row: (i32, String, String, i32),
    asset_name: Seq<char>,
    device_code: Seq<char>,
    machine_reference_id: i32,
) -> bool {
    row.1@ != asset_name || row.2@ != device_code || row.3 != machine_reference_id
}

/// Decides how the asset `asset_id` is kept up to date, given what the lookup of the stored
/// asset gave: `(id, asset_name, device_code, machine_reference_id)` of the stored row, no
/// row, or the lookup's error message.
pub fn verify_insert_update_asset(
    unit_id: i32,
    asset_id: i32,
    device_code: &str,
    asset_name: &str,
    machine_reference_id: i32,
    lookup: Result<Option<(i32, String, String, i32)>, String>,
) -> (r: UpsertStep<Assets>)
    ensures
        match lookup {
            Err(e) => r matches UpsertStep::Failed(m) && m@ == "Error to check Asset, "@ + e@,
            Ok(Some(row)) => r == UpsertStep::<Assets>::Found {
                id: row.0,
                needs_update: asset_outdated(row, asset_name@, device_code@, machine_reference_id),
            },
            Ok(None) => r matches UpsertStep::Insert(a) && {
                &&& a.id is None
                &&& a.unit_id == unit_id
                &&& a.asset_name@ == asset_name@
                &&& a.device_code@ == device_code@
                &&& a.machine_reference_id == machine_reference_id
                &&& a.reference_id == asset_id
            },
        },
        lookup matches Ok(Some(row)) && row.1@ != asset_name@ ==> (r matches UpsertStep::Found { needs_update, .. } && needs_update),
        lookup matches Ok(Some(row)) && row.2@ != device_code@ ==> (r matches UpsertStep::Found { needs_update, .. } && needs_update),
        lookup matches Ok(Some(row)) && row.3 != machine_reference_id ==> (r matches UpsertStep::Found { needs_update, .. } && needs_update),
        lookup matches Ok(Some(row)) && row.1@ == asset_name@ && row.2@ == device_code@
            && row.3 == machine_reference_id ==> (r matches UpsertStep::Found { needs_update, .. } && !needs_update),
{
    let asset = match lookup {
        Ok(asset_tuple) => asset_tuple,
        Err(err) => {
            return UpsertStep::Failed(lookup_error("Error to check Asset, ", &err));
        },
    };
    if let Some(asset_tuple) = asset {
        let needs_update = text_differs(&asset_tuple.1, asset_name) || text_differs(
            &asset_tuple.2,
            device_code,
        ) || asset_tuple.3 != machine_reference_id;
        UpsertStep::Found { id: asset_tuple.0, needs_update }
    } else {
        UpsertStep::Insert(
            Assets {
                id: None,
                unit_id,
                asset_name: asset_name.to_owned(),
                device_code: device_code.to_owned(),
                machine_reference_id,
                reference_id: asset_id,
            },
        )
    }
}


/// A stored asset must be rewritten as soon as its name, its device or its machine differs
/// from the current one, and only then.
pub proof fn lemma_asset_change_detected(
    row: (i32, String, String, i32),
    asset_name: Seq<char>,
    device_code: Seq<char>,
    machine_reference_id: i32,
)
    ensures
        row.1@ != asset_name ==> asset_outdated(row, asset_name, device_code, machine_reference_id),
        row.2@ != device_code ==> asset_outdated(row, asset_name, device_code, machine_reference_id),
        row.3 != machine_reference_id ==> asset_outdated(row, asset_name, device_code, machine_reference_id),
        row.1@ == asset_name && row.2@ == device_code && row.3 == machine_reference_id
            ==> !asset_outdated(row, asset_name, device_code, machine_reference_id),
{
}

/// Once the asset row that [`verify_insert_update_asset`] asks to insert is stored, checking
/// the same asset again finds it up to date.
pub proof fn lemma_inserted_asset_is_current(
    a: Assets,
    id: i32,
    asset_name: Seq<char>,
    device_code: Seq<char>,
    machine_reference_id: i32,
)
    requires
        a.asset_name@ == asset_name,
        a.device_code@ == device_code,
        a.machine_reference_id == machine_reference_id,
    ensures
        !asset_outdated(
            (id, a.asset_name, a.device_code, a.machine_reference_id),
            asset_name,
            device_code,
            machine_reference_id,
        ),
{
}

/// The day written in `day` as `YYYY-MM-DD`, or chrono's default date (January 1st, 1970)
/// when it cannot be read.
pub open spec fn record_day(day: Seq<char>) -> i32 {
    match calendar_day_of(day, "%Y-%m-%d"@) {
        Ok(d) => d,
        Err(_) => DEFAULT_DATE_DAY,
    }
}

/// The daily L1 totalization row of a device for the day written in `day`, with the share
/// of time on outside the programming rounded to two places.
pub fn l1_totalization_record(
    asset_reference_id: Option<i32>,
    machine_reference_id: i32,
    device_code: &str,
    seconds_on: i32,
    seconds_off: i32,
    seconds_on_outside_programming: i32,
    seconds_must_be_off: i32,
    percentage_on_outside_programming: DecimalValue,
    programming: &str,
    day: &str,
) -> (r: DevicesL1TotalizationHist)
    ensures
        r.asset_reference_id == asset_reference_id,
        r.machine_reference_id == machine_reference_id,
        r.device_code@ == device_code@,
        r.seconds_on == seconds_on,
        r.seconds_off == seconds_off,
        r.seconds_on_outside_programming == seconds_on_outside_programming,
        r.seconds_must_be_off == seconds_must_be_off,
        r.percentage_on_outside_programming.mantissa_spec() == rounded_to_places(
            percentage_on_outside_programming,
            2,
        ).0,
        r.percentage_on_outside_programming.scale_spec() == rounded_to_places(
            percentage_on_outside_programming,
            2,
        ).1,
        r.percentage_on_outside_programming.is_negative_spec() == rounded_sign(
            percentage_on_outside_programming,
            2,
        ),
        r.programming@ == programming@,
        r.record_date == record_day(day@),
{
    let percentage = decimal_round_dp(&percentage_on_outside_programming, 2);
    let record_date = match parse_calendar_day(day, "%Y-%m-%d") {
        Ok(d) => d,
        Err(_) => DEFAULT_DATE_DAY,
    };
    DevicesL1TotalizationHist {
        asset_reference_id,
        machine_reference_id,
        device_code: String::from_str(device_code),
        seconds_on,
        seconds_off,
        seconds_on_outside_programming,
        seconds_must_be_off,
        percentage_on_outside_programming: percentage,
        programming: String::from_str(programming),
        record_date,
    }
}

} // verus!
