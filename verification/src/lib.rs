//! A verified core for a Domeneshop DNS service.
pub mod decimal;
pub mod error;
pub mod text;
pub mod config;
pub mod resource;
pub mod json;
pub mod client;
pub mod auth;
pub mod tool;
