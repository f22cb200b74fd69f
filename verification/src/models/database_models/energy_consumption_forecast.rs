use vstd::prelude::*;

use crate::models::decimal::DecimalValue;

verus! {

/// A row of the energy consumption forecast of a circuit; `record_date` is in Unix seconds.
#[derive(Debug, Clone, Copy)]
pub struct EnergyConsumptionForecast {
    pub electric_circuit_id: i32,
    pub consumption_forecast: DecimalValue,
    pub record_date: i64,
}

} // verus!
