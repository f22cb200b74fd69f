pub mod devices_l1_totalization;
pub mod energy;
pub mod energy_efficiency;
pub mod scheduler;
pub mod upsert;
pub mod devices;
pub mod time_slots;
pub mod consumption_gaps;
pub mod waters;
pub mod last_device_telemetry_time;
