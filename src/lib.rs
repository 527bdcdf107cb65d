//! Plumbing beneath a JSON:API client: the error taxonomy, the normalisation
//! of raw HTTP outcomes into it, the retry schedule, and the JSON:API error
//! document model with its human-readable rendering.
pub mod text;
pub mod json;
pub mod errors;
pub mod executor;
pub mod failure;
pub mod config;
pub mod random;
pub mod success;
