//! Readiness and state-sync contract checks for the Digital Twin's family
//! of child repositories.

pub mod cli;
pub mod contract;
pub mod family;
pub mod manifest;
pub mod report;
pub mod server;
pub mod text;
