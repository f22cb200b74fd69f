use vstd::prelude::*;

verus! {

/// When a device last sent telemetry; `record_date` is in Unix seconds.
#[derive(Debug, Clone)]
pub struct LastDeviceTelemetryTime {
    pub device_code: String,
    pub record_date: i64,
}

} // verus!
