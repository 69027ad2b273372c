//! The Card store's verified core: identities and the closed entry
//! vocabulary, payload validation, the failure taxonomy, schema
//! compatibility, configuration resolution, and the console's
//! foundations.
pub mod cli;
pub mod config;
pub mod console;
pub mod domain;
pub mod error;
pub mod json;
pub mod storage;
