//! Compares the duration statistics of two CI workflows, as reported by the
//! job-metrics endpoint of a CI provider, and keeps the small local
//! configuration that the command-line tool needs.

pub mod analysis;
pub mod client;
pub mod error;
pub mod jobs;
pub mod manager;
pub mod session;
pub mod text;
