#![allow(non_snake_case)]
#![allow(non_camel_case_types)]

use vstd::prelude::*;

verus! {

/// Default sampling time, in seconds, of a DUT pack that does not state one.
pub fn always5() -> (r: i64)
    ensures
        r == 5,
{
    5
}

/// One DMA (water meter) reading.
#[derive(Debug, Default)]
pub struct TelemetryDMA {
    pub timestamp: String,
    pub pulses: Option<i32>,
    pub mode: Option<String>,
    pub operation_mode: Option<i16>,
    pub dev_id: String,
    pub samplingTime: Option<i16>,
}

/// A DMA telemetry message as the device sends it.
#[derive(Debug)]
pub struct TelemetryPackDMA {
    pub timestamp: String,
    pub dev_id: String,
    pub pulses: Option<i32>,
    pub mode: Option<String>,
    pub operation_mode: Option<i16>,
    pub samplingTime: Option<i16>,
}

/// A DMT (feedback monitor) telemetry message as the device sends it.
#[derive(Debug, Default)]
pub struct TelemetryPackDMT {
    pub timestamp: String,
    pub dev_id: String,
    pub samplingTime: i64,
    pub Feedback: Vec<Option<bool>>,
}

/// One DMT reading: the state of its first feedback input.
#[derive(Debug, Default)]
pub struct TelemetryDMT {
    pub timestamp: String,
    pub F1: Option<bool>,
    pub dev_id: String,
}

/// A DAL (lighting automation) telemetry message as the device sends it.
#[derive(Debug, Default)]
pub struct TelemetryPackDAL {
    pub timestamp: String,
    pub dev_id: String,
    pub State: String,
    pub Mode: Vec<String>,
    pub Feedback: Vec<Option<bool>>,
    pub Relays: Vec<Option<bool>>,
    pub gmt: Option<String>,
}

/// One DAL reading.
#[derive(Debug, Default)]
pub struct TelemetryDAL {
    pub timestamp: String,
    pub dev_id: String,
    pub State: String,
    pub Mode: Vec<String>,
    pub Feedback: Vec<Option<bool>>,
    pub Relays: Vec<Option<bool>>,
    pub gmt: Option<String>,
}

/// A DAM (automation) telemetry message, version 1.
#[derive(Debug)]
pub struct TelemetryRawDAM_v1 {
    pub timestamp: String,
    pub State: String,
    pub Mode: String,
    pub Temperature: Option<String>,
    pub Temperature_1: Option<String>,
    pub gmt: Option<String>,
}

} // verus!
