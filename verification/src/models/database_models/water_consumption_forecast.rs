use vstd::prelude::*;

use crate::models::decimal::DecimalValue;

verus! {

/// A row of the water consumption forecast: for the month that starts on `forecast_date`
/// (a day counted from the start of the common era), the expected consumption of one day
/// of the week.
#[derive(Debug, Clone, Copy)]
pub struct WaterConsumptionForecast {
    pub unit_id: i32,
    pub forecast_date: i32,
    pub monday: Option<DecimalValue>,
    pub tuesday: Option<DecimalValue>,
    pub wednesday: Option<DecimalValue>,
    pub thursday: Option<DecimalValue>,
    pub friday: Option<DecimalValue>,
    pub saturday: Option<DecimalValue>,
    pub sunday: Option<DecimalValue>,
}

} // verus!
