//! Light synchronisation.
pub mod api;
