pub mod logs;
pub mod metrics;
