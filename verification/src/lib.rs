pub mod telemetry_payloads;
pub mod models;
pub mod schedules;
pub mod text;
