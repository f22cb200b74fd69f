pub mod assets;
pub mod clients;
pub mod electric_circuits;
pub mod machines;
pub mod units;
pub mod water_consumption_forecast;
pub mod devices_l1_totalization_hist;
pub mod energy_efficiency_hour_hist;
pub mod last_device_telemetry_time;
pub mod energy_consumption_forecast;
