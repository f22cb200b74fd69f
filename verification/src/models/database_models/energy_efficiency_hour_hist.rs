use vstd::prelude::*;

use crate::models::decimal::DecimalValue;

verus! {

/// A row of the hourly energy efficiency of a machine; `record_date` is the start of the
/// hour in Unix seconds.
#[derive(Debug)]
pub struct EnergyEfficiencyHourHist {
    pub machine_id: i32,
    pub device_code: String,
    pub consumption: DecimalValue,
    pub utilization_time: DecimalValue,
    pub record_date: i64,
}

} // verus!
