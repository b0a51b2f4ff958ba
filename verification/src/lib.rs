pub mod base58;
pub mod cast;
pub mod database;
pub mod events;
pub mod input;
pub mod instruction;
pub mod laws;
pub mod tables;
pub mod transaction;
pub mod row_laws;
pub mod event_laws;
