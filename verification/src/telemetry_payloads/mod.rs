pub mod circ_buffer;
pub mod sampling;
pub mod dac_l1;
pub mod pack_time;
pub mod telemetry_formats;
pub mod dal_telemetry;
pub mod dmt_telemety;
pub mod dri_telemetry;
pub mod json_value;
pub mod parse_json_props;
pub mod dal_payload_json;
pub mod dmt_payload_json;
pub mod dac_telemetry;
pub mod dut_telemetry;
pub mod dut_l1;
