pub mod commands;
pub mod create;
pub mod engine;
pub mod ops;
pub mod query;
pub mod structs;
pub mod text;
