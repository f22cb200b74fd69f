use vstd::prelude::*;
use vstd::string::*;

use crate::telemetry_payloads::json_value::{json_member, JsonValue};
use crate::telemetry_payloads::parse_json_props::{
    bool_array_prop, get_bool_array_prop, get_string_array_prop, get_string_prop, string_array_prop,
    string_prop, texts,
};
use crate::telemetry_payloads::telemetry_formats::TelemetryPackDAL;

verus! {

/// The message of the first required DAL property that cannot be read, if any, checked in
/// the order timestamp, dev_id, State, Mode, Relays, Feedback.
pub open spec fn dal_pack_error(item: JsonValue) -> Option<Seq<char>> {
    if string_prop(json_member(item, "timestamp"@)) is Err {
        Some(string_prop(json_member(item, "timestamp"@))->Err_0)
    } else if string_prop(json_member(item, "dev_id"@)) is Err {
        Some(string_prop(json_member(item, "dev_id"@))->Err_0)
    } else if string_prop(json_member(item, "State"@)) is Err {
        Some(string_prop(json_member(item, "State"@))->Err_0)
    } else if string_array_prop(json_member(item, "Mode"@)) is Err {
        Some(string_array_prop(json_member(item, "Mode"@))->Err_0)
    } else if bool_array_prop(json_member(item, "Relays"@)) is Err {
        Some(bool_array_prop(json_member(item, "Relays"@))->Err_0)
    } else if bool_array_prop(json_member(item, "Feedback"@)) is Err {
        Some(bool_array_prop(json_member(item, "Feedback"@))->Err_0)
    } else {
        None
    }
}

/// Reads a DAL telemetry pack out of a JSON object. The time zone `gmt` defaults to `"-3"`
/// when it cannot be read.
pub fn get_raw_telemetry_pack_dal(item: &JsonValue) -> (r: Result<TelemetryPackDAL, String>)
    ensures
        r is Err <==> dal_pack_error(*item) is Some,
        r matches Err(e) ==> Some(e@) == dal_pack_error(*item),
        r matches Ok(p) ==> {
            &&& Ok::<Seq<char>, Seq<char>>(p.timestamp@) == string_prop(
                json_member(*item, "timestamp"@),
            )
            &&& Ok::<Seq<char>, Seq<char>>(p.dev_id@) == string_prop(json_member(*item, "dev_id"@))
            &&& Ok::<Seq<char>, Seq<char>>(p.State@) == string_prop(json_member(*item, "State"@))
            &&& Ok::<Seq<Seq<char>>, Seq<char>>(texts(p.Mode@)) == string_array_prop(
                json_member(*item, "Mode"@),
            )
            &&& Ok::<Seq<Option<bool>>, Seq<char>>(p.Relays@) == bool_array_prop(
                json_member(*item, "Relays"@),
            )
            &&& Ok::<Seq<Option<bool>>, Seq<char>>(p.Feedback@) == bool_array_prop(
                json_member(*item, "Feedback"@),
            )
            &&& p.gmt matches Some(g) && (string_prop(json_member(*item, "gmt"@)) matches Ok(t)
                ==> g@ == t) && (string_prop(json_member(*item, "gmt"@)) is Err ==> g@ == "-3"@)
        },
{
    let timestamp = match get_string_prop(&item.get("timestamp")) {
        Ok(timestamp) => timestamp,
        Err(message) => {
            return Err(message);
        },
    };
    let dev_id = match get_string_prop(&item.get("dev_id")) {
        Ok(dev_id) => dev_id,
        Err(message) => {
            return Err(message);
        },
    };
    let state = match get_string_prop(&item.get("State")) {
        Ok(state) => state,
        Err(message) => {
            return Err(message);
        },
    };
    let mode = match get_string_array_prop(&item.get("Mode")) {
        Ok(mode) => mode,
        Err(message) => {
            return Err(message);
        },
    };
    let relays = match get_bool_array_prop(&item.get("Relays")) {
        Ok(relays) => relays,
        Err(message) => {
            return Err(message);
        },
    };
    let feedback = match get_bool_array_prop(&item.get("Feedback")) {
        Ok(feedback) => feedback,
        Err(message) => {
            return Err(message);
        },
    };
    let gmt = match get_string_prop(&item.get("gmt")) {
        Ok(gmt) => Some(gmt),
        Err(_) => Some(String::from_str("-3")),
    };
    Ok(
        TelemetryPackDAL {
            timestamp,
            dev_id,
            State: state,
            Mode: mode,
            Relays: relays,
            Feedback: feedback,
            gmt,
        },
    )
}

} // verus!
