//! The core of a processor for sensor telemetry: documents of any shape are
//! normalised into readings, readings are matched with the sensors of a
//! registry, and the rows to store are built. Waiting, querying and storing
//! are the caller's; the rules are here, each with its contract.

pub mod config;
pub mod json;
pub mod normalisation;
pub mod persistence;
pub mod pipeline;
pub mod registry;
pub mod supervisor;
pub mod text;
pub mod time;
