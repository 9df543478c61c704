//! The concrete capability handlers: arithmetic, file write and HTTP get.

pub mod api;
pub mod calculator;
pub mod file;
