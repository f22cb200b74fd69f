pub mod database_models;
pub mod external_models;
pub mod decimal;
