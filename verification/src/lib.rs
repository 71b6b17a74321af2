pub mod events;
pub mod metrics;
pub mod resume;
pub mod rtt;
