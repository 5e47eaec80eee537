//! Verified core of the IMA OpenAPI command-line client: error codes and
//! messages, configuration and credential rules, the COS request signature,
//! JSON response checks, and the file-type and size rules for uploads.

pub mod text;
pub mod error;
pub mod json;
pub mod config;
pub mod api;
pub mod cos;
pub mod commands;
