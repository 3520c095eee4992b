//! Core logic of the account, token, session and webhook API of the
//! community server: authorisation decisions, the two-factor token store,
//! the webhook services' message planning and the SQL statements of the
//! tables, each with the contract it keeps.
pub mod text;
pub mod rights;
pub mod models;
pub mod tfa_tokens_storage;
pub mod services;
pub mod api;
pub mod tables;
pub mod database;
pub mod github;
pub mod laws;
pub mod access_laws;
pub mod output_laws;
