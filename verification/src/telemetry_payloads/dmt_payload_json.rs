use vstd::prelude::*;

use crate::telemetry_payloads::json_value::{json_member, JsonValue};
use crate::telemetry_payloads::parse_json_props::{
    bool_array_prop, get_bool_array_prop, get_int_number_prop, get_string_prop, int_prop,
    string_prop,
};
use crate::telemetry_payloads::telemetry_formats::TelemetryPackDMT;

verus! {

/// The message of the first required DMT property that cannot be read, if any, checked in
/// the order timestamp, dev_id, Feedback.
pub open spec fn dmt_pack_error(item: JsonValue) -> Option<Seq<char>> {
    if string_prop(json_member(item, "timestamp"@)) is Err {
        Some(string_prop(json_member(item, "timestamp"@))->Err_0)
    } else if string_prop(json_member(item, "dev_id"@)) is Err {
        Some(string_prop(json_member(item, "dev_id"@))->Err_0)
    } else if bool_array_prop(json_member(item, "Feedback"@)) is Err {
        Some(bool_array_prop(json_member(item, "Feedback"@))->Err_0)
    } else {
        None
    }
}

/// Reads a DMT telemetry pack out of a JSON object. The sampling time defaults to one
/// second when it cannot be read.
pub fn get_raw_telemetry_pack_dmt(item: &JsonValue) -> (r: Result<TelemetryPackDMT, String>)
    ensures
        r is Err <==> dmt_pack_error(*item) is Some,
        r matches Err(e) ==> Some(e@) == dmt_pack_error(*item),
        r matches Ok(p) ==> {
            &&& Ok::<Seq<char>, Seq<char>>(p.timestamp@) == string_prop(
                json_member(*item, "timestamp"@),
            )
            &&& Ok::<Seq<char>, Seq<char>>(p.dev_id@) == string_prop(json_member(*item, "dev_id"@))
            &&& p.samplingTime == match int_prop(json_member(*item, "samplingTime"@)) {
                Ok(t) => t,
                Err(_) => 1,
            }
            &&& Ok::<Seq<Option<bool>>, Seq<char>>(p.Feedback@) == bool_array_prop(
                json_member(*item, "Feedback"@),
            )
        },
{
    let timestamp = match get_string_prop(&item.get("timestamp")) {
        Ok(timestamp) => timestamp,
        Err(message) => {
            return Err(message);
        },
    };
    let dev_id = match get_string_prop(&item.get("dev_id")) {
        Ok(dev_id) => dev_id,
        Err(message) => {
            return Err(message);
        },
    };
    let sampling_time = match get_int_number_prop(&item.get("samplingTime")) {
        Ok(t) => t,
        Err(_) => 1,
    };
    let feedback = match get_bool_array_prop(&item.get("Feedback")) {
        Ok(feedback) => feedback,
        Err(message) => {
            return Err(message);
        },
    };
    Ok(TelemetryPackDMT { timestamp, dev_id, samplingTime: sampling_time, Feedback: feedback })
}

} // verus!
