//! Backend-facing data layer of a desktop inventory application.
//!
//! The library models the JSON payloads exchanged with a REST backend as a
//! tagged value tree, decodes them into typed data contracts, builds the
//! request URLs and bodies for every backend endpoint, and implements the
//! command-level input checks and fallback policies.  All of it is verified;
//! the HTTP transport itself lives outside the library.

pub mod commands;
pub mod contracts;
pub mod deadstock;
pub mod executions;
pub mod ids;
pub mod insights;
pub mod inventory;
pub mod json;
pub mod listings;
pub mod metrics;
pub mod numerals;
pub mod pricing;
pub mod text;
pub mod urls;
