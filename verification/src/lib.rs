//! Error-response core for a JSON web service: a fixed catalog of HTTP
//! status mappings, an error envelope rendered as JSON, request-id
//! correlation, and fingerprinted telemetry events.

pub mod catalog;
pub mod config;
pub mod envelope;
pub mod errors;
pub mod fingerprint;
pub mod ids;
pub mod json;
pub mod request;
pub mod telemetry;
pub mod text;
