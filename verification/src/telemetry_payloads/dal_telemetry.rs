#![allow(non_snake_case)]

use vstd::prelude::*;
use vstd::string::*;

use crate::telemetry_payloads::pack_time::{
    check_pack_offset_fits, pack_offset_fits, pack_timestamp_of, parse_pack_timestamp,
};
use crate::telemetry_payloads::sampling::{window_offset, window_offset_spec};
use crate::telemetry_payloads::telemetry_formats::{TelemetryDAL, TelemetryPackDAL};

verus! {

/// Copies a vector of optional booleans.
pub fn copy_flags(v: &Vec<Option<bool>>) -> (r: Vec<Option<bool>>)
    ensures
        r@ == v@,
{
    let mut out: Vec<Option<bool>> = Vec::new();
    let mut i: usize = 0;
    while i < v.len()
        invariant
            i <= v@.len(),
            out@ == v@.take(i as int),
        decreases v@.len() - i,
    {
        out.push(v[i]);
        i = i + 1;
        assert(out@ =~= v@.take(i as int));
    }
    assert(v@.take(v@.len() as int) =~= v@);
    out
}

/// Relay and feedback states are only kept when the pack reports at least four of them.
pub open spec fn kept_flags(v: Seq<Option<bool>>) -> Seq<Option<bool>> {
    if v.len() >= 4 {
        v
    } else {
        Seq::empty()
    }
}

/// Sets the relay and feedback states of `telemetry` from `payload`, dropping a list that
/// holds fewer than four states.
pub fn checkSetTelemetryValues(payload: &TelemetryPackDAL, telemetry: &mut TelemetryDAL)
    ensures
        final(telemetry).Relays@ == kept_flags(payload.Relays@),
        final(telemetry).Feedback@ == kept_flags(payload.Feedback@),
        final(telemetry).timestamp == old(telemetry).timestamp,
        final(telemetry).dev_id == old(telemetry).dev_id,
        final(telemetry).State == old(telemetry).State,
        final(telemetry).Mode == old(telemetry).Mode,
        final(telemetry).gmt == old(telemetry).gmt,
{
    telemetry.Relays = if payload.Relays.len() >= 4 {
        copy_flags(&payload.Relays)
    } else {
        Vec::new()
    };
    telemetry.Feedback = if payload.Feedback.len() >= 4 {
        copy_flags(&payload.Feedback)
    } else {
        Vec::new()
    };
}

/// The reading that `split_pack_at` makes of a DAL pack.
pub open spec fn dal_reading_of(payload: TelemetryPackDAL, t: TelemetryDAL) -> bool {
    &&& t.timestamp == payload.timestamp
    &&& t.dev_id == payload.dev_id
    &&& t.State == payload.State
    &&& t.Mode@ == payload.Mode@
    &&& t.gmt == payload.gmt
    &&& t.Relays@ == kept_flags(payload.Relays@)
    &&& t.Feedback@ == kept_flags(payload.Feedback@)
}

/// Unpacks a DAL pack whose timestamp was read as `pack_ts` (`None` when it could not be
/// read): an error when the timestamp is unreadable, no reading when it falls outside the
/// window `[ts_ini, ts_next)`, and otherwise the reading with its offset in the window.
pub fn split_pack_at(payload: &TelemetryPackDAL, pack_ts: Option<i64>, ts_ini: i64, ts_next: i64) -> (r:
    Result<Option<(TelemetryDAL, isize)>, String>)
    requires
        pack_ts matches Some(ts) ==> (ts_ini <= ts < ts_next ==> ts - ts_ini <= isize::MAX),
    ensures
        pack_ts is None ==> (r matches Err(e) && e@ == "Error parsing Date"@),
        pack_ts matches Some(ts) ==> {
            &&& r is Ok
            &&& r->Ok_0 is None <==> window_offset_spec(ts, ts_ini, ts_next) is None
            &&& r->Ok_0 matches Some(item) ==> {
                &&& dal_reading_of(*payload, item.0)
                &&& window_offset_spec(ts, ts_ini, ts_next) == Some(item.1 as int)
            }
        },
{
    let pack_ts = match pack_ts {
        None => {
            return Err(String::from_str("Error parsing Date"));
        },
        Some(ts) => ts,
    };
    let mut telemetry = TelemetryDAL {
        timestamp: payload.timestamp.clone(),
        dev_id: payload.dev_id.clone(),
        State: payload.State.clone(),
        Mode: payload.Mode.clone(),
        Relays: copy_flags(&payload.Relays),
        Feedback: copy_flags(&payload.Feedback),
        gmt: payload.gmt.clone(),
    };
    checkSetTelemetryValues(payload, &mut telemetry);
    match window_offset(pack_ts, ts_ini, ts_next) {
        Some(offset) => Ok(Some((telemetry, offset))),
        None => Ok(None),
    }
}

/// Unpacks a DAL pack into the reading that falls in the window `[ts_ini, ts_next)`, if
/// any, with its offset in the window.
pub fn split_pack(payload: &TelemetryPackDAL, ts_ini: i64, ts_next: i64) -> (r: Result<
    Option<(TelemetryDAL, isize)>,
    String,
>)
    requires
        pack_timestamp_of(payload.timestamp@) matches Some(ts) ==> (ts_ini <= ts < ts_next
            ==> ts - ts_ini <= isize::MAX),
    ensures
        pack_timestamp_of(payload.timestamp@) is None ==> (r matches Err(e) && e@
            == "Error parsing Date"@),
        pack_timestamp_of(payload.timestamp@) matches Some(ts) ==> {
            &&& r is Ok
            &&& r->Ok_0 is None <==> window_offset_spec(ts, ts_ini, ts_next) is None
            &&& r->Ok_0 matches Some(item) ==> {
                &&& dal_reading_of(*payload, item.0)
                &&& window_offset_spec(ts, ts_ini, ts_next) == Some(item.1 as int)
            }
        },
{
    let pack_ts = parse_pack_timestamp(payload.timestamp.as_str());
    split_pack_at(payload, pack_ts, ts_ini, ts_next)
}


/// [`split_pack`] for any input: `None` when the pack falls in the window at an offset
/// that does not fit in `isize`.
pub fn split_pack_checked(payload: &TelemetryPackDAL, ts_ini: i64, ts_next: i64) -> (r: Option<
    Result<Option<(TelemetryDAL, isize)>, String>,
>)
    ensures
        r is None <==> !pack_offset_fits(pack_timestamp_of(payload.timestamp@), ts_ini, ts_next),
        r matches Some(res) ==> call_ensures(split_pack, (payload, ts_ini, ts_next), res),
{
    let pack_ts = parse_pack_timestamp(payload.timestamp.as_str());
    if check_pack_offset_fits(pack_ts, ts_ini, ts_next) {
        Some(split_pack(payload, ts_ini, ts_next))
    } else {
        None
    }
}


/// Dropping short relay or feedback lists a second time changes nothing.
pub proof fn lemma_kept_flags_idempotent(v: Seq<Option<bool>>)
    ensures
        kept_flags(kept_flags(v)) == kept_flags(v),
{
}

} // verus!
