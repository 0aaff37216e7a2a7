//! Task-management core: schema migration engine, data-directory relocation
//! protocol, and the entity model they maintain.
//!
//! The database content is modelled as plain values (dynamically typed cells
//! for the columns whose storage class changes across schema generations), so
//! the migration and relocation logic is stated and checked over that model;
//! the thin SQL and filesystem glue around it lives outside this crate.

pub mod config;
pub mod dbmodel;
pub mod migrate;
pub mod models;
pub mod relocate;
pub mod repos;
pub mod requests;
pub mod text;
