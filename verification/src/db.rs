//! Users, and the store that keeps them.
pub mod models;
pub mod repository;
