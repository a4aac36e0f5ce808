pub mod handlers;
pub mod jwt;
pub mod middleware;
pub mod types;
pub mod utils;
