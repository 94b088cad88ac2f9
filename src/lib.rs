//! Configuration and control plane of a clustered ingestion service.
pub mod settings;
pub mod document;
pub mod control;
