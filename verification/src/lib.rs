pub mod api;
pub mod auth;
pub mod clock;
pub mod config;
pub mod db;
pub mod error;
pub mod ids;
pub mod json;
pub mod models;
pub mod monitoring;
pub mod text;
pub mod utils;
pub mod websocket;

pub use error::AppError;
