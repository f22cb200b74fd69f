#![allow(non_snake_case)]

use vstd::prelude::*;
use vstd::string::*;

use crate::telemetry_payloads::pack_time::{
    check_pack_offset_fits, pack_offset_fits, pack_timestamp_of, parse_pack_timestamp,
};
use crate::telemetry_payloads::sampling::{window_offset, window_offset_spec};
use crate::telemetry_payloads::telemetry_formats::{TelemetryDMT, TelemetryPackDMT};

verus! {

/// The first feedback state, reported only when the pack holds at least four of them.
pub open spec fn first_feedback(feedback: Seq<Option<bool>>) -> Option<bool> {
    if feedback.len() >= 4 {
        feedback[0]
    } else {
        None
    }
}

/// Sets the feedback state of `telemetry` from `payload`.
pub fn checkSetTelemetryValues(payload: &TelemetryPackDMT, telemetry: &mut TelemetryDMT)
    ensures
        final(telemetry).F1 == first_feedback(payload.Feedback@),
        final(telemetry).timestamp == old(telemetry).timestamp,
        final(telemetry).dev_id == old(telemetry).dev_id,
{
    telemetry.F1 = if payload.Feedback.len() >= 4 {
        payload.Feedback[0]
    } else {
        None
    };
}

/// The reading that `split_pack_at` makes of a DMT pack.
pub open spec fn dmt_reading_of(payload: TelemetryPackDMT, t: TelemetryDMT) -> bool {
    &&& t.timestamp == payload.timestamp
    &&& t.dev_id == payload.dev_id
    &&& t.F1 == first_feedback(payload.Feedback@)
}

/// Unpacks a DMT pack whose timestamp was read as `pack_ts` (`None` when it could not be
/// read): an error when the timestamp is unreadable, no reading when it falls outside the
/// window `[ts_ini, ts_next)`, and otherwise the reading with its offset in the window.
pub fn split_pack_at(payload: &TelemetryPackDMT, pack_ts: Option<i64>, ts_ini: i64, ts_next: i64) -> (r:
    Result<Option<(TelemetryDMT, isize)>, String>)
    requires
        pack_ts matches Some(ts) ==> (ts_ini <= ts < ts_next ==> ts - ts_ini <= isize::MAX),
    ensures
        pack_ts is None ==> (r matches Err(e) && e@ == "Error parsing Date"@),
        pack_ts matches Some(ts) ==> {
            &&& r is Ok
            &&& r->Ok_0 is None <==> window_offset_spec(ts, ts_ini, ts_next) is None
            &&& r->Ok_0 matches Some(item) ==> {
                &&& dmt_reading_of(*payload, item.0)
                &&& window_offset_spec(ts, ts_ini, ts_next) == Some(item.1 as int)
            }
        },
{
    let pack_ts = match pack_ts {
        None => {
            return Err(String::from_str("Error parsing Date"));
        },
        Some(ts) => ts,
    };
    let mut telemetry = TelemetryDMT {
        timestamp: payload.timestamp.clone(),
        dev_id: payload.dev_id.clone(),
        F1: None,
    };
    checkSetTelemetryValues(payload, &mut telemetry);
    match window_offset(pack_ts, ts_ini, ts_next) {
        Some(offset) => Ok(Some((telemetry, offset))),
        None => Ok(None),
    }
}

/// Unpacks a DMT pack into the reading that falls in the window `[ts_ini, ts_next)`, if
/// any, with its offset in the window.
pub fn split_pack(payload: &TelemetryPackDMT, ts_ini: i64, ts_next: i64) -> (r: Result<
    Option<(TelemetryDMT, isize)>,
    String,
>)
    requires
        pack_timestamp_of(payload.timestamp@) matches Some(ts) ==> (ts_ini <= ts < ts_next
            ==> ts - ts_ini <= isize::MAX),
    ensures
        pack_timestamp_of(payload.timestamp@) is None ==> (r matches Err(e) && e@
            == "Error parsing Date"@),
        pack_timestamp_of(payload.timestamp@) matches Some(ts) ==> {
            &&& r is Ok
            &&& r->Ok_0 is None <==> window_offset_spec(ts, ts_ini, ts_next) is None
            &&& r->Ok_0 matches Some(item) ==> {
                &&& dmt_reading_of(*payload, item.0)
                &&& window_offset_spec(ts, ts_ini, ts_next) == Some(item.1 as int)
            }
        },
{
    let pack_ts = parse_pack_timestamp(payload.timestamp.as_str());
    split_pack_at(payload, pack_ts, ts_ini, ts_next)
}


/// [`split_pack`] for any input: `None` when the pack falls in the window at an offset
/// that does not fit in `isize`.
pub fn split_pack_checked(payload: &TelemetryPackDMT, ts_ini: i64, ts_next: i64) -> (r: Option<
    Result<Option<(TelemetryDMT, isize)>, String>,
>)
    ensures
        r is None <==> !pack_offset_fits(pack_timestamp_of(payload.timestamp@), ts_ini, ts_next),
        r matches Some(res) ==> call_ensures(split_pack, (payload, ts_ini, ts_next), res),
{
    let pack_ts = parse_pack_timestamp(payload.timestamp.as_str());
    if check_pack_offset_fits(pack_ts, ts_ini, ts_next) {
        Some(split_pack(payload, ts_ini, ts_next))
    } else {
        None
    }
}

} // verus!
