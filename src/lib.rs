//! A registry of digital assets and of the licenses granted against them,
//! kept in an explicit key-value store.
pub mod laws;
pub mod registry;
pub mod store;
pub mod types;
