use vstd::prelude::*;

use crate::models::decimal::DecimalValue;

verus! {

/// A row of the daily L1 totalization of a device; `record_date` is a day counted from the
/// start of the common era.
#[derive(Debug)]
pub struct DevicesL1TotalizationHist {
    pub asset_reference_id: Option<i32>,
    pub machine_reference_id: i32,
    pub device_code: String,
    pub seconds_on: i32,
    pub seconds_off: i32,
    pub seconds_on_outside_programming: i32,
    pub seconds_must_be_off: i32,
    pub percentage_on_outside_programming: DecimalValue,
    pub programming: String,
    pub record_date: i32,
}

} // verus!
