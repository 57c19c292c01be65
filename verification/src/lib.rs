pub mod config;
pub mod error;
pub mod json;
pub mod models;
pub mod outside;
pub mod routes;
pub mod schema;
pub mod services;
pub mod tasks;
pub mod text;
pub mod time;
