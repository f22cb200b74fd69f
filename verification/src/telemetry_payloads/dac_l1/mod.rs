pub mod dac_l1_calculator;
pub mod temperature_only;
