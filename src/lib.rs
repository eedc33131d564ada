//! Client-side logic of an exporter for a home gateway: the session protocol,
//! the decoding of the gateway's JSON answers into typed records, and their
//! rendering as Prometheus exposition text.

pub mod json;
pub mod status;
pub mod wan;
pub mod devices;
pub mod metrics;
pub mod client;
pub mod render;
pub mod scrape;
