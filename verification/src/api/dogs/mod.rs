//! Dog pictures.
pub mod types;
