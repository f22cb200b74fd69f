#![allow(non_snake_case)]

use std::collections::HashMap;

use vstd::prelude::*;
use vstd::string::*;

use crate::telemetry_payloads::pack_time::{
    check_pack_offset_fits, locate_pack, located_as, parse_pack_timestamp, pack_location, pack_offset_fits, pack_timestamp_of,
};

verus! {

/// A DRI telemetry message as it arrives, for CCN, VAV and fancoil controllers.
#[derive(Debug, Clone)]
pub struct TelemetryDri {
    pub dev_id: String,
    pub timestamp: String,
    pub dev_type: String,
    pub values: Option<Vec<Option<i16>>>,
    pub therm_on: Option<i16>,
    pub fanspeed: Option<i16>,
    pub mode: Option<i16>,
    pub setpoint: Option<i16>,
    pub lock: Option<i16>,
    pub temp_amb: Option<i16>,
    pub valve_on: Option<i16>,
    pub fan_status: Option<i16>,
    pub formulas: Option<HashMap<String, String>>,
}

/// One reading of a CCN controller; `None` stands for a register that could not be read.
#[derive(Debug)]
pub struct DriCCNTelemetry {
    pub timestamp: String,
    pub Setpoint: Option<i16>,
    pub Status: Option<i16>,
    pub Mode: Option<i16>,
}

/// Formulas that convert a DRI's raw register values.
#[derive(Debug)]
pub struct HwInfoDRI {
    pub formulas: Option<HashMap<String, String>>,
}

/// A DRI telemetry message of a Carrier HX chiller, raw register values.
#[derive(Debug, Clone)]
pub struct TelemetryDriChillerCarrierHX {
    pub dev_id: String,
    pub timestamp: String,
    pub dev_type: String,
    pub CHIL_S_S: Option<i16>,
    pub ALM: Option<i16>,
    pub alarm_1: Option<i16>,
    pub alarm_2: Option<i16>,
    pub alarm_3: Option<i16>,
    pub alarm_4: Option<i16>,
    pub alarm_5: Option<i16>,
    pub CAP_T: Option<i16>,
    pub DEM_LIM: Option<i16>,
    pub LAG_LIM: Option<i16>,
    pub SP: Option<i16>,
    pub CTRL_PNT: Option<i16>,
    pub EMSTOP: Option<i16>,
    pub CP_A1: Option<i16>,
    pub CP_A2: Option<i16>,
    pub CAPA_T: Option<i16>,
    pub DP_A: Option<i16>,
    pub SP_A: Option<i16>,
    pub SCT_A: Option<i16>,
    pub SST_A: Option<i16>,
    pub CP_B1: Option<i16>,
    pub CP_B2: Option<i16>,
    pub CAPB_T: Option<i16>,
    pub DP_B: Option<i16>,
    pub SP_B: Option<i16>,
    pub SCT_B: Option<i16>,
    pub SST_B: Option<i16>,
    pub COND_LWT: Option<i16>,
    pub COND_EWT: Option<i16>,
    pub COOL_LWT: Option<i16>,
    pub COOL_EWT: Option<i16>,
    pub CPA1_OP: Option<i16>,
    pub CPA2_OP: Option<i16>,
    pub DOP_A1: Option<i16>,
    pub DOP_A2: Option<i16>,
    pub CPA1_DGT: Option<i16>,
    pub CPA2_DGT: Option<i16>,
    pub EXV_A: Option<i16>,
    pub HR_CP_A1: Option<i16>,
    pub HR_CP_A2: Option<i16>,
    pub CPA1_TMP: Option<i16>,
    pub CPA2_TMP: Option<i16>,
    pub CPA1_CUR: Option<i16>,
    pub CPA2_CUR: Option<i16>,
    pub CPB1_OP: Option<i16>,
    pub CPB2_OP: Option<i16>,
    pub DOP_B1: Option<i16>,
    pub DOP_B2: Option<i16>,
    pub CPB1_DGT: Option<i16>,
    pub CPB2_DGT: Option<i16>,
    pub EXV_B: Option<i16>,
    pub HR_CP_B1: Option<i16>,
    pub HR_CP_B2: Option<i16>,
    pub CPB1_TMP: Option<i16>,
    pub CPB2_TMP: Option<i16>,
    pub CPB1_CUR: Option<i16>,
    pub CPB2_CUR: Option<i16>,
    pub COND_SP: Option<i16>,
    pub CHIL_OCC: Option<i16>,
    pub STATUS: Option<i16>,
    pub formulas: Option<HashMap<String, String>>,
    pub setpoint: Option<i16>,
}

/// A DRI telemetry message of a Carrier XA chiller, raw register values.
#[derive(Debug, Clone)]
pub struct TelemetryDriChillerCarrierXA {
    pub dev_id: String,
    pub timestamp: String,
    pub dev_type: String,
    pub CAP_T: Option<i16>,
    pub CHIL_OCC: Option<i16>,
    pub CHIL_S_S: Option<i16>,
    pub COND_EWT: Option<i16>,
    pub COND_LWT: Option<i16>,
    pub COOL_EWT: Option<i16>,
    pub COOL_LWT: Option<i16>,
    pub CTRL_PNT: Option<i16>,
    pub CTRL_TYP: Option<i16>,
    pub DEM_LIM: Option<i16>,
    pub DP_A: Option<i16>,
    pub DP_B: Option<i16>,
    pub EMSTOP: Option<i16>,
    pub HR_CP_A: Option<i64>,
    pub HR_CP_B: Option<i64>,
    pub HR_MACH: Option<i64>,
    pub HR_MACH_B: Option<i64>,
    pub OAT: Option<i16>,
    pub OP_A: Option<i16>,
    pub OP_B: Option<i16>,
    pub SCT_A: Option<i16>,
    pub SCT_B: Option<i16>,
    pub SLC_HM: Option<i16>,
    pub SLT_A: Option<i16>,
    pub SLT_B: Option<i16>,
    pub SP: Option<i16>,
    pub SP_A: Option<i16>,
    pub SP_B: Option<i16>,
    pub SP_OCC: Option<i16>,
    pub SST_A: Option<i16>,
    pub SST_B: Option<i16>,
    pub STATUS: Option<i16>,
    pub formulas: Option<HashMap<String, String>>,
}

/// A DRI telemetry message of a Carrier XA HVAR chiller, raw register values.
#[derive(Debug, Clone)]
pub struct TelemetryDriChillerCarrierXAHvar {
    pub dev_id: String,
    pub timestamp: String,
    pub dev_type: String,
    pub CAP_T: Option<i16>,
    pub CHIL_OCC: Option<i16>,
    pub CHIL_S_S: Option<i16>,
    pub COOL_EWT: Option<i16>,
    pub COOL_LWT: Option<i16>,
    pub CTRL_PNT: Option<i16>,
    pub CTRL_TYP: Option<i16>,
    pub DEM_LIM: Option<i16>,
    pub DP_A: Option<i16>,
    pub DP_B: Option<i16>,
    pub EMSTOP: Option<i16>,
    pub OAT: Option<i16>,
    pub OP_A: Option<i16>,
    pub OP_B: Option<i16>,
    pub SCT_A: Option<i16>,
    pub SCT_B: Option<i16>,
    pub SP_A: Option<i16>,
    pub SP_B: Option<i16>,
    pub SP_OCC: Option<i16>,
    pub SST_A: Option<i16>,
    pub SST_B: Option<i16>,
    pub STATUS: Option<i16>,
    pub GENUNIT_UI: Option<i16>,
    pub ALM: Option<i16>,
    pub TOT_CURR: Option<i16>,
    pub CIRCA_AN_UI: Option<i16>,
    pub CAPA_T: Option<i16>,
    pub ECON_P_A: Option<i16>,
    pub DOP_A: Option<i16>,
    pub CURREN_A: Option<i16>,
    pub CP_TMP_A: Option<i16>,
    pub DGT_A: Option<i16>,
    pub ECO_TP_A: Option<i16>,
    pub SUCT_T_A: Option<i16>,
    pub EXV_A: Option<i16>,
    pub CIRCB_AN_UI: Option<i16>,
    pub CAPB_T: Option<i16>,
    pub ECON_P_B: Option<i16>,
    pub DOP_B: Option<i16>,
    pub CURREN_B: Option<i16>,
    pub CP_TMP_B: Option<i16>,
    pub DGT_B: Option<i16>,
    pub ECO_TP_B: Option<i16>,
    pub SUCT_T_B: Option<i16>,
    pub EXV_B: Option<i16>,
    pub CIRCC_AN_UI: Option<i16>,
    pub CAPC_T: Option<i16>,
    pub DP_C: Option<i16>,
    pub SP_C: Option<i16>,
    pub ECON_P_C: Option<i16>,
    pub OP_C: Option<i16>,
    pub DOP_C: Option<i16>,
    pub CURREN_C: Option<i16>,
    pub CP_TMP_C: Option<i16>,
    pub DGT_C: Option<i16>,
    pub ECO_TP_C: Option<i16>,
    pub SCT_C: Option<i16>,
    pub SST_C: Option<i16>,
    pub SUCT_T_C: Option<i16>,
    pub EXV_C: Option<i16>,
    pub formulas: Option<HashMap<String, String>>,
}


/// A DRI register as reported: the device sends `-1` for a register it could not read.
pub open spec fn dri_register(v: Option<i16>) -> Option<i16> {
    if v == Some(-1i16) {
        None
    } else {
        v
    }
}

/// Reads a DRI register (of a CCN, VAV, fancoil or chiller controller): `None` when it is
/// missing or marked unreadable.
pub fn register_reading(v: Option<i16>) -> (r: Option<i16>)
    ensures
        r == dri_register(v),
        v == Some(-1i16) ==> r is None,
        v != Some(-1i16) ==> r == v,
{
    match v {
        Some(-1) => None,
        _ => v,
    }
}

impl DriCCNTelemetry {
    /// Reads a CCN reading out of a DRI message: the message must be of type `"CCN"` and
    /// carry `values`, whose first three entries are the setpoint, the status and the mode.
    pub fn try_from(value: TelemetryDri) -> (r: Result<DriCCNTelemetry, String>)
        requires
            value.dev_type@ == "CCN"@ && value.values is Some ==> value.values->0@.len() >= 3,
        ensures
            value.dev_type@ != "CCN"@ ==> (r matches Err(e) && e@
                == "The dev type and telemetry type does not match"@),
            value.dev_type@ == "CCN"@ && value.values is None ==> (r matches Err(e) && e@
                == "Telemetry does not have \"values\" field"@),
            value.dev_type@ == "CCN"@ && value.values is Some ==> (r matches Ok(t) && {
                let vs = value.values->0@;
                &&& t.timestamp == value.timestamp
                &&& t.Setpoint == dri_register(vs[0])
                &&& t.Status == dri_register(vs[1])
                &&& t.Mode == dri_register(vs[2])
            }),
    {
        if !(value.dev_type == String::from_str("CCN")) {
            return Err(String::from_str("The dev type and telemetry type does not match"));
        }
        let values = match value.values {
            None => {
                return Err(String::from_str("Telemetry does not have \"values\" field"));
            },
            Some(values) => values,
        };
        Ok(DriCCNTelemetry {
            timestamp: value.timestamp,
            Setpoint: register_reading(values[0]),
            Status: register_reading(values[1]),
            Mode: register_reading(values[2]),
        })
    }
}

/// Places a CCN reading in the window `[ts_ini, ts_next)`: an error when its timestamp
/// cannot be read, otherwise its offset in the window, or `None` outside it.
pub fn split_pack_ccn(payload: &DriCCNTelemetry, ts_ini: i64, ts_next: i64) -> (r: Result<
    Option<isize>,
    String,
>)
    requires
        pack_offset_fits(pack_timestamp_of(payload.timestamp@), ts_ini, ts_next),
    ensures
        located_as(r, pack_location(pack_timestamp_of(payload.timestamp@), ts_ini, ts_next)),
{
    locate_pack(payload.timestamp.as_str(), ts_ini, ts_next)
}

/// [`split_pack_ccn`] for any input: `None` when the reading falls in the window at an
/// offset that does not fit in `isize`.
pub fn split_pack_ccn_checked(payload: &DriCCNTelemetry, ts_ini: i64, ts_next: i64) -> (r: Option<
    Result<Option<isize>, String>,
>)
    ensures
        r is None <==> !pack_offset_fits(pack_timestamp_of(payload.timestamp@), ts_ini, ts_next),
        r matches Some(l) ==> located_as(
            l,
            pack_location(pack_timestamp_of(payload.timestamp@), ts_ini, ts_next),
        ),
{
    let pack_ts = parse_pack_timestamp(payload.timestamp.as_str());
    if check_pack_offset_fits(pack_ts, ts_ini, ts_next) {
        Some(split_pack_ccn(payload, ts_ini, ts_next))
    } else {
        None
    }
}

} // verus!
