use vstd::prelude::*;
use vstd::string::*;

use crate::models::database_models::last_device_telemetry_time::LastDeviceTelemetryTime;
use crate::schedules::devices::DEFAULT_DATE_DAY;
use crate::telemetry_payloads::pack_time::{pack_timestamp_of, read_pack_time};

verus! {

/// The row that records when `device_code` last sent telemetry, at the time written in
/// `record_date` as `YYYY-MM-DDTHH:MM:SS`; a time that cannot be read gives chrono's default
/// date-time, the Unix epoch.
pub fn last_telemetry_record(record_date: &str, device_code: &str) -> (r: LastDeviceTelemetryTime)
    ensures
        r.device_code@ == device_code@,
        r.record_date == match pack_timestamp_of(record_date@) {
            Some(ts) => ts,
            None => 0,
        },
{
    let record_date = match read_pack_time(record_date) {
        Ok(ts) => ts,
        Err(_) => 0,
    };
    LastDeviceTelemetryTime { record_date, device_code: String::from_str(device_code) }
}

/// The day (counted from the start of the common era) that holds the instant `ts` (Unix
/// seconds).
pub open spec fn day_of_instant(ts: int) -> int {
    ts / 86400 + DEFAULT_DATE_DAY
}

/// Unix seconds at the start of the day `day`.
pub open spec fn day_start(day: int) -> int {
    (day - DEFAULT_DATE_DAY) * 86400
}

/// Whether a device whose last telemetry was at `last_record` must have its past days
/// processed again before the day `day`: its last telemetry came more than one whole hour
/// before that day began.
pub open spec fn reprocess_needed(last_record: int, day: int) -> bool {
    last_record < day_start(day) && (day_start(day) - last_record) / 3600 > 1
}

/// The days to process again before the day `day` for a device last heard of at
/// `last_record` (Unix seconds): each day from the one of its last telemetry up to the day
/// before `day`, in order; none when it was heard of within the hour before `day` began.
pub fn days_to_reprocess(last_record: i64, day: i32) -> (r: Vec<i32>)
    requires
        reprocess_needed(last_record as int, day as int) ==> i32::MIN <= day_of_instant(last_record as int),
    ensures
        reprocess_needed(last_record as int, day as int) ==> {
            &&& r@.len() == day - day_of_instant(last_record as int)
            &&& forall|k: int| 0 <= k < r@.len() ==> r@[k] == day_of_instant(last_record as int) + k
        },
        !reprocess_needed(last_record as int, day as int) ==> r@.len() == 0,
{
    let mut days: Vec<i32> = Vec::new();
    let start: i64 = (day as i64 - DEFAULT_DATE_DAY as i64) * 86400;
    if !(last_record < start) {
        return days;
    }
    let elapsed: i128 = start as i128 - last_record as i128;
    if elapsed / 3600 <= 1 {
        return days;
    }
    let rem: i64 = match last_record.checked_rem_euclid(86400) {
        Some(m) => m,
        None => 0,
    };
    assert((last_record - rem) % 86400 == 0 && (last_record - rem) / 86400 == last_record / 86400) by {
        vstd::arithmetic::div_mod::lemma_fundamental_div_mod(last_record as int, 86400);
        vstd::arithmetic::div_mod::lemma_mod_multiples_vanish(last_record as int / 86400, 0, 86400);
    }
    let first: i64 = (last_record - rem) / 86400 + DEFAULT_DATE_DAY as i64;
    assert(first == day_of_instant(last_record as int));
    assert(first < day) by {
        assert(last_record < (day - DEFAULT_DATE_DAY) * 86400);
    }
    let mut current: i32 = first as i32;
    while current < day
        invariant
            first <= current <= day,
            days@.len() == current - first,
            forall|k: int| 0 <= k < days@.len() ==> days@[k] == first + k,
        decreases day - current,
    {
        days.push(current);
        current = current + 1;
    }
    days
}

} // verus!
