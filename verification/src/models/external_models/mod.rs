pub mod client;
pub mod device;
pub mod unit;
