use std::collections::HashMap;

use vstd::prelude::*;

verus! {

/// A span of the day, in seconds since midnight, in which an automated machine must be on
/// (or off).
#[derive(Debug, Clone)]
pub struct MachineAutomInterval {
    pub seconds_start: i32,
    pub seconds_end: i32,
    pub must_be_on: bool,
}

/// A DMA water meter of a unit.
#[derive(Debug)]
pub struct DmaDevice {
    pub device_code: String,
    pub liters_per_pulse: Option<i32>,
    pub installation_date: Option<String>,
}

/// A Laager water meter of a unit.
#[derive(Debug)]
pub struct LaagerDevice {
    pub laager_code: String,
    pub installation_date: Option<String>,
}

/// An energy meter of a unit and the electric circuit it measures.
#[derive(Debug, Clone)]
pub struct EnergyDevice {
    pub device_code: String,
    pub serial: Option<String>,
    pub manufacturer: String,
    pub model: Option<String>,
    pub electric_circuit_id: i32,
    pub electric_circuit_name: String,
    pub formulas: Option<HashMap<String, String>>,
    pub dri_interval: i32,
}

/// A DRI (protocol bridge) of a unit.
#[derive(Debug, Clone)]
pub struct DriDevice {
    pub dev_id: String,
    pub dri_type: Option<String>,
    pub dri_interval: Option<isize>,
    pub formulas: Option<HashMap<String, String>>,
}

/// A DMT of a unit.
#[derive(Debug)]
pub struct DmtDevice {
    pub device_code: String,
}

/// A DAL of a unit.
#[derive(Debug)]
pub struct DalDevice {
    pub device_code: String,
}

/// A DAM of a unit.
#[derive(Debug)]
pub struct DamDevice {
    pub device_code: String,
}

/// Body of the login request to the Laager API.
#[derive(Debug)]
pub struct LaagerLoginRequestBody {
    pub grant_type: String,
    pub client_id: String,
    pub client_secret: String,
    pub username: String,
    pub password: String,
}

/// Answer of the Laager API to a login.
#[derive(Debug)]
pub struct LaagerLoginResponseData {
    pub access_token: String,
    pub token_type: String,
    pub expires_in: u32,
    pub created_at: u32,
}

/// A Laager meter as the Laager API describes it.
#[derive(Debug)]
pub struct VerifyLaagerData {
    pub rf_device_id: String,
    pub customer_id: String,
}

} // verus!
