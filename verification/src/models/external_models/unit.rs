use vstd::prelude::*;

use crate::models::decimal::DecimalValue;

verus! {

/// A unit as the API server lists it.
#[derive(Debug, Clone)]
pub struct UnitInfo {
    pub unit_id: i32,
    pub unit_name: String,
    pub client_name: String,
    pub city_name: Option<String>,
    pub state_name: Option<String>,
    pub tarifa_kwh: Option<DecimalValue>,
    pub constructed_area: Option<DecimalValue>,
    pub capacity_power: Option<DecimalValue>,
    pub production_timestamp: Option<String>,
}

/// The API server's list of units of a client.
#[derive(Debug)]
pub struct UnitListData {
    pub list: Vec<UnitInfo>,
}

} // verus!
