//! A pluggable action dispatcher: named capability handlers register in a
//! [`registry::Registry`], and an [`executor::Executor`] routes each request
//! to its handler and normalizes the outcome into one uniform result shape.

pub mod adapters;
pub mod executor;
pub mod registry;
pub mod value;
