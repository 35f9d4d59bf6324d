//! Reconciles a configuration file with command line options: picks the file and
//! its format, lays out the documented configuration text, extracts the
//! documentation of the configuration models and decides each step of loading,
//! saving and rewriting the file.

pub mod text;
pub mod types;
pub mod format;
pub mod docs;
pub mod store;
pub mod pipeline;
pub mod models;
