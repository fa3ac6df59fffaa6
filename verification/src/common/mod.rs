pub mod constants;
pub mod textfragment;
pub mod unicode;
pub mod textmodel;
pub mod line;
pub mod types;
