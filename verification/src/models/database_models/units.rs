use vstd::prelude::*;

use crate::models::decimal::DecimalValue;

verus! {

/// A unit (site) row.
#[derive(Debug)]
pub struct Units {
    pub id: Option<i32>,
    pub client_id: i32,
    pub unit_name: String,
    pub reference_id: i32,
    pub city_name: Option<String>,
    pub state_name: Option<String>,
    pub tarifa_kwh: Option<DecimalValue>,
    pub constructed_area: Option<DecimalValue>,
    pub capacity_power: Option<DecimalValue>,
}

} // verus!
