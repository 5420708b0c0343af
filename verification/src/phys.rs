//! Physics-facing data shapes.

pub mod components;
