pub mod health;
pub mod response;
pub mod servers;
