pub mod commands;
pub mod decimal;
pub mod events;
pub mod models;
pub mod queries;
pub mod schema;
pub mod sql;
pub mod store;
