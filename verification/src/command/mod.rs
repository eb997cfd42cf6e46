pub mod commands;
pub mod errors;
