//! nbsp: a thoughtful community forum platform.

pub mod auth;
pub mod config;
pub mod cookies;
pub mod errors;
pub mod forms;
pub mod ids;
pub mod jwt;
pub mod markdown;
pub mod model;
pub mod password;
pub mod patterns;
pub mod routes;
pub mod text;
