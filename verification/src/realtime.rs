//! The realtime feed of the agency.

pub mod load;
pub mod service_alerts;
