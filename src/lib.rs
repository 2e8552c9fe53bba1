//! Parsing, ordering, filtering and rendering of automated test-pass reports.

pub mod filter;
pub mod laws;
pub mod model;
pub mod render;
pub mod sort;
pub mod text;
