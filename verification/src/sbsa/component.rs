//! Platform components for the SBSA machine type.

pub mod service;
