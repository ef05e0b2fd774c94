//! Data access for a small car and part catalogue kept in PostgreSQL.

pub mod app;
pub mod db;
pub mod models;
pub mod repositories;
pub mod services;
mod shared;
