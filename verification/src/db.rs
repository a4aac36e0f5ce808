pub mod history;
pub mod models;
