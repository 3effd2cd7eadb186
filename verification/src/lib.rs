//! Decisions of a full synchronisation service.
pub mod common_types;
pub mod fixed_bytes;
pub mod full_sync;
pub mod light_sync;
pub mod ordered_map;
