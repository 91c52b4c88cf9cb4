//! Core of a shipment-item ingestion service: the validation of a submitted
//! item, the record built from it, the mapping of each outcome to a response
//! status and a log event, and the settings the service starts from.

pub mod configuration;
pub mod json;
pub mod items;
pub mod outcome;
pub mod mode_switch_logs;
