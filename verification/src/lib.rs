pub mod auth;
pub mod config;
pub mod error;
pub mod handlers;
pub mod models;
pub mod storage;
pub mod text;
pub mod validation;
