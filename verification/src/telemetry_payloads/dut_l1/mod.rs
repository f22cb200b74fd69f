pub mod temp_difference;
